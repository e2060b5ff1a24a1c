//! The read-parse-validate resolution machine.
//!
//! Resolution turns a configured [`Input`] plus a line source into a
//! terminal value.  The mathematical model is [`InputModel`]: every
//! configuration field as plain data, the conversion rule and the
//! acceptance test as specification functions.  One read line drives one
//! [`spec_step`]; a whole scripted source drives [`spec_run`], which also
//! yields the exact transcript of prompts and messages written.
//!
//! The executable side mirrors the model: [`Input::render`] builds the
//! prompt string once, [`Input::handle_line`] steps on one line (this is
//! what an interactive driver loops over), and [`Input::try_get`] resolves
//! a whole scripted source.

use vstd::prelude::*;
use vstd::string::StringExecFns;

use crate::input::Input;
use crate::parse::Parse;
use crate::text::trim;
use crate::text::trim_spec;
use crate::validator::Validate;

verus! {

/// One write to the output sink during resolution.
#[derive(Debug, PartialEq, Eq)]
pub enum Event {
    /// The rendered prompt, written before a read.
    Prompt(String),
    /// An error or validation message, written after a failed attempt.
    Message(String),
}

/// The mathematical form of an output event.
pub enum EventModel {
    Prompt(Seq<char>),
    Message(Seq<char>),
}

impl View for Event {
    type V = EventModel;

    open spec fn view(&self) -> EventModel {
        match self {
            Event::Prompt(s) => EventModel::Prompt(s@),
            Event::Message(s) => EventModel::Message(s@),
        }
    }
}

impl DeepView for Event {
    type V = EventModel;

    open spec fn deep_view(&self) -> EventModel {
        self.view()
    }
}

/// How one resolution ended: with a terminal value, or with the line
/// source failing on a read attempt.
#[derive(Debug, PartialEq, Eq)]
pub enum Outcome<T> {
    /// The terminal value: parsed and accepted, or the default.
    Value(T),
    /// The line source failed; resolution stopped at once.
    SourceFailed,
}

/// The outcome over the view of the value.
pub open spec fn outcome_view<T: View>(o: Outcome<T>) -> Outcome<T::V> {
    match o {
        Outcome::Value(v) => Outcome::Value(v@),
        Outcome::SourceFailed => Outcome::SourceFailed,
    }
}

/// The mathematical model of a configured prompt.
#[verifier::ext_equal]
#[verifier::reject_recursive_types(TV)]
pub struct InputModel<TV> {
    pub prompt: Option<Seq<char>>,
    pub prefix: Option<Seq<char>>,
    pub suffix: Option<Seq<char>>,
    pub default_value: Option<TV>,
    /// The textual-conversion rule of the target type.
    pub parse: spec_fn(Seq<char>) -> Option<TV>,
    /// The acceptance test, when one is configured.
    pub validator: Option<spec_fn(TV) -> bool>,
    pub type_message: Option<Seq<char>>,
    pub validator_message: Option<Seq<char>>,
}

/// The view of an optional owned string.
pub open spec fn opt_text(o: Option<String>) -> Option<Seq<char>> {
    match o {
        Some(s) => Some(s@),
        None => None,
    }
}

impl<T: Parse, P: Validate<T>> View for Input<T, P> {
    type V = InputModel<T::V>;

    open spec fn view(&self) -> InputModel<T::V> {
        InputModel {
            prompt: opt_text(self.prompt),
            prefix: opt_text(self.prefix),
            suffix: opt_text(self.suffix),
            default_value: match self.default {
                Some(d) => Some(d@),
                None => None,
            },
            parse: (|s: Seq<char>| T::spec_parse(s)),
            validator: match self.validator {
                Some(p) => Some(|v: T::V| p.spec_accepts(v)),
                None => None,
            },
            type_message: opt_text(self.type_message),
            validator_message: opt_text(self.validator_message),
        }
    }
}

/// An optional text, or nothing at all.
pub open spec fn opt_seq(o: Option<Seq<char>>) -> Seq<char> {
    match o {
        Some(s) => s,
        None => Seq::empty(),
    }
}

/// The rendered prompt: prefix, display text and suffix concatenated,
/// each unset piece contributing nothing; nothing is written only when
/// the whole is empty.  Rendering happens once per resolution, never per
/// retry.
pub open spec fn spec_render<TV>(m: InputModel<TV>) -> Option<Seq<char>> {
    let full = opt_seq(m.prefix) + opt_seq(m.prompt) + opt_seq(m.suffix);
    if full.len() == 0 {
        None
    } else {
        Some(full)
    }
}

/// The built-in message shown when a line fails to parse and no type-error
/// message was configured.
pub open spec fn fallback_type_message() -> Seq<char> {
    "Error: invalid input"@
}

/// The message printed when a line fails to parse: the configured one, or
/// the built-in fallback.
pub open spec fn type_failure_message<TV>(m: InputModel<TV>) -> Seq<char> {
    match m.type_message {
        Some(t) => t,
        None => fallback_type_message(),
    }
}

/// What one read line makes of a configured prompt: a terminal value, or
/// another round with an optional message to print.
pub enum StepModel<TV> {
    Accept(TV),
    Retry(Option<Seq<char>>),
}

/// One step of the read-parse-validate machine, on one read line:
/// the line is trimmed; an empty trimmed line yields the default when one
/// is configured (bypassing parser and acceptance test) and a silent retry
/// otherwise; a line that fails to parse retries with the type-failure
/// message; a parsed value the acceptance test rejects retries with the
/// configured message or silently; anything else is the terminal value.
pub open spec fn spec_step<TV>(m: InputModel<TV>, line: Seq<char>) -> StepModel<TV> {
    let t = trim_spec(line);
    if t.len() == 0 {
        match m.default_value {
            Some(d) => StepModel::Accept(d),
            None => StepModel::Retry(None),
        }
    } else {
        match (m.parse)(t) {
            None => StepModel::Retry(Some(type_failure_message(m))),
            Some(v) => match m.validator {
                Some(q) => if q(v) {
                    StepModel::Accept(v)
                } else {
                    StepModel::Retry(m.validator_message)
                },
                None => StepModel::Accept(v),
            },
        }
    }
}

/// The events one read attempt writes before reading: the rendered prompt,
/// if there is one.
pub open spec fn prompt_events(p: Option<Seq<char>>) -> Seq<EventModel> {
    match p {
        Some(q) => seq![EventModel::Prompt(q)],
        None => Seq::empty(),
    }
}

/// The events a retry writes after a failed attempt: its message, if any.
pub open spec fn message_events(msg: Option<Seq<char>>) -> Seq<EventModel> {
    match msg {
        Some(t) => seq![EventModel::Message(t)],
        None => Seq::empty(),
    }
}

/// The outcome and transcript of one whole resolution.
#[verifier::ext_equal]
pub struct RunModel<TV> {
    pub outcome: Outcome<TV>,
    pub events: Seq<EventModel>,
}

/// Resolution against a scripted sequence of lines: each attempt writes
/// the rendered prompt `p`, reads the next line and steps; a script that
/// runs dry is the line source failing, which stops resolution at once.
pub open spec fn spec_run<TV>(
    m: InputModel<TV>,
    p: Option<Seq<char>>,
    lines: Seq<Seq<char>>,
) -> RunModel<TV>
    decreases lines.len(),
{
    if lines.len() == 0 {
        RunModel { outcome: Outcome::SourceFailed, events: prompt_events(p) }
    } else {
        match spec_step(m, lines[0]) {
            StepModel::Accept(v) => RunModel {
                outcome: Outcome::Value(v),
                events: prompt_events(p),
            },
            StepModel::Retry(msg) => {
                let rest = spec_run(m, p, lines.drop_first());
                RunModel {
                    outcome: rest.outcome,
                    events: prompt_events(p) + message_events(msg) + rest.events,
                }
            },
        }
    }
}

/// What the resolver does with one read line.
pub enum Action<T> {
    /// The line was empty after trimming and a default is configured:
    /// return the default, unparsed and unvalidated.
    UseDefault,
    /// The line parsed and passed the acceptance test: this is the
    /// terminal value.
    Accept(T),
    /// Read again, first printing the message if one is given.
    Retry(Option<String>),
}

impl<T: Parse, P: Validate<T>> Input<T, P> {
    /// Render the full prompt string: every configured piece, in order.
    /// This happens once per resolution; every retry shows the same
    /// string.
    pub fn render(&self) -> (r: Option<String>)
        ensures
            opt_text(r) == spec_render(self@),
    {
        let mut out = String::new();
        if let Some(pre) = &self.prefix {
            out.append(pre.as_str());
        }
        if let Some(text) = &self.prompt {
            out.append(text.as_str());
        }
        if let Some(suf) = &self.suffix {
            out.append(suf.as_str());
        }
        proof {
            assert(out@ =~= opt_seq(opt_text(self.prefix)) + opt_seq(opt_text(self.prompt))
                + opt_seq(opt_text(self.suffix)));
        }
        if out.as_str().is_empty() {
            None
        } else {
            Some(out)
        }
    }

    /// Step the read-parse-validate machine on one read line, exactly as
    /// `spec_step` says of the model.
    pub fn handle_line(&self, line: &str) -> (r: Action<T>)
        ensures
            match r {
                Action::UseDefault => trim_spec(line@).len() == 0 && (match self.default {
                    Some(d) => spec_step(self@, line@) == StepModel::Accept(d@),
                    None => false,
                }),
                Action::Accept(v) => spec_step(self@, line@) == StepModel::Accept(v@),
                Action::Retry(msg) => spec_step(self@, line@) == StepModel::<T::V>::Retry(
                    opt_text(msg),
                ),
            },
    {
        let t = trim(line);
        if t.unicode_len() == 0 {
            if self.default.is_some() {
                Action::UseDefault
            } else {
                Action::Retry(None)
            }
        } else {
            match T::parse_text(t) {
                None => {
                    let msg = match &self.type_message {
                        Some(m) => m.clone(),
                        None => String::from_str("Error: invalid input"),
                    };
                    Action::Retry(Some(msg))
                },
                Some(v) => match &self.validator {
                    Some(q) => {
                        if q.accepts(&v) {
                            Action::Accept(v)
                        } else {
                            let msg = match &self.validator_message {
                                Some(m) => Some(m.clone()),
                                None => None,
                            };
                            Action::Retry(msg)
                        }
                    },
                    None => Action::Accept(v),
                },
            }
        }
    }

    /// Resolve against a scripted line source: the lines read, in order.
    /// Returns the outcome together with the transcript of everything
    /// written: the rendered prompt before each read attempt, and the
    /// message after each failed attempt.
    pub fn try_get(self, lines: &Vec<String>) -> (r: (Outcome<T>, Vec<Event>))
        ensures
            ({
                let run = spec_run(self@, spec_render(self@), lines.deep_view());
                outcome_view(r.0) == run.outcome && r.1.deep_view() == run.events
            }),
    {
        let ghost m = self@;
        let ghost p = spec_render(self@);
        let ghost all = lines.deep_view();
        let prompt_text = self.render();
        let mut events: Vec<Event> = Vec::new();
        let mut i: usize = 0;
        proof {
            assert(all.skip(0) =~= all);
            assert(events.deep_view() + spec_run(m, p, all).events =~= spec_run(m, p, all).events);
        }
        while i < lines.len()
            invariant
                0 <= i <= lines.len(),
                m == self@,
                p == spec_render(m),
                all == lines.deep_view(),
                all.len() == lines.len(),
                opt_text(prompt_text) == p,
                spec_run(m, p, all).outcome == spec_run(m, p, all.skip(i as int)).outcome,
                spec_run(m, p, all).events =~= events.deep_view() + spec_run(
                    m,
                    p,
                    all.skip(i as int),
                ).events,
            decreases lines.len() - i,
        {
            let ghost rest = all.skip(i as int);
            proof {
                assert(rest[0] == all[i as int]);
                assert(all[i as int] == lines@[i as int]@);
                assert(rest.drop_first() =~= all.skip(i + 1));
            }
            if let Some(q) = &prompt_text {
                events.push(Event::Prompt(q.clone()));
            }
            let line = &lines[i];
            match self.handle_line(line.as_str()) {
                Action::UseDefault => {
                    proof {
                        assert(spec_run(m, p, rest).outcome == spec_run(m, p, all).outcome);
                        assert(spec_run(m, p, rest).events == prompt_events(p));
                        assert(events.deep_view() =~= spec_run(m, p, all).events);
                    }
                    let d = match self.default {
                        Some(d) => d,
                        None => vstd::pervasive::unreached(),
                    };
                    return (Outcome::Value(d), events);
                },
                Action::Accept(v) => {
                    proof {
                        assert(spec_run(m, p, rest).outcome == spec_run(m, p, all).outcome);
                        assert(spec_run(m, p, rest).events == prompt_events(p));
                        assert(events.deep_view() =~= spec_run(m, p, all).events);
                    }
                    return (Outcome::Value(v), events);
                },
                Action::Retry(msg) => {
                    proof {
                        assert(spec_run(m, p, rest) == RunModel {
                            outcome: spec_run(m, p, rest.drop_first()).outcome,
                            events: prompt_events(p) + message_events(opt_text(msg)) + spec_run(
                                m,
                                p,
                                rest.drop_first(),
                            ).events,
                        });
                    }
                    if let Some(t) = msg {
                        events.push(Event::Message(t));
                    }
                    proof {
                        assert(spec_run(m, p, all).events =~= events.deep_view() + spec_run(
                            m,
                            p,
                            all.skip(i + 1),
                        ).events);
                    }
                    i = i + 1;
                },
            }
        }
        proof {
            assert(all.skip(i as int) =~= Seq::<Seq<char>>::empty());
        }
        if let Some(q) = prompt_text {
            events.push(Event::Prompt(q));
        }
        proof {
            assert(events.deep_view() =~= spec_run(m, p, all).events);
        }
        (Outcome::SourceFailed, events)
    }

    /// Resolve against a scripted line source and return the terminal
    /// value.  The script must suffice: resolution must not run dry.
    /// [`Input::try_get`] is the total variant.
    pub fn get(self, lines: &Vec<String>) -> (r: (T, Vec<Event>))
        requires
            spec_run(self@, spec_render(self@), lines.deep_view()).outcome is Value,
        ensures
            ({
                let run = spec_run(self@, spec_render(self@), lines.deep_view());
                run.outcome == Outcome::Value(r.0@) && r.1.deep_view() == run.events
            }),
    {
        let (o, events) = self.try_get(lines);
        match o {
            Outcome::Value(v) => (v, events),
            Outcome::SourceFailed => vstd::pervasive::unreached(),
        }
    }

    /// Resolve against a scripted line source and feed the terminal value
    /// through a transformation.  The script must suffice, as for
    /// [`Input::get`].
    pub fn map<U: View, C: Transform<T, U>>(self, lines: &Vec<String>, transform: C) -> (r: (
        U,
        Vec<Event>,
    ))
        requires
            spec_run(self@, spec_render(self@), lines.deep_view()).outcome is Value,
        ensures
            ({
                let run = spec_run(self@, spec_render(self@), lines.deep_view());
                &&& r.1.deep_view() == run.events
                &&& match run.outcome {
                    Outcome::Value(v) => r.0@ == transform.spec_apply(v),
                    Outcome::SourceFailed => false,
                }
            }),
    {
        let (v, events) = self.get(lines);
        (transform.apply(v), events)
    }
}

/// A pure transformation applied to the terminal value of a resolution.
pub trait Transform<T: View, U: View> {
    /// The transformation, over views.
    spec fn spec_apply(&self, v: T::V) -> U::V;

    /// Apply the transformation, exactly as `spec_apply` says.
    fn apply(&self, v: T) -> (r: U)
        ensures
            r@ == self.spec_apply(v@),
    ;
}

} // verus!
