//! General laws of the resolution machine, stated over the model and
//! proved once and for all: what defaults, failed parses, rejected and
//! accepted values, prompts and source failures do to any resolution.

use vstd::prelude::*;

use crate::resolve::message_events;
use crate::resolve::prompt_events;
use crate::resolve::spec_run;
use crate::resolve::spec_step;
use crate::resolve::type_failure_message;
use crate::resolve::EventModel;
use crate::resolve::InputModel;
use crate::resolve::Outcome;
use crate::resolve::StepModel;
use crate::text::trim_spec;

verus! {

/// Attempts that step to a retry decide nothing: the outcome over the
/// whole script is the outcome over what follows them.
pub proof fn lemma_run_skips_retries<TV>(
    m: InputModel<TV>,
    p: Option<Seq<char>>,
    lines: Seq<Seq<char>>,
    k: int,
)
    requires
        0 <= k <= lines.len(),
        forall|j: int| 0 <= j < k ==> spec_step(m, lines[j]) is Retry,
    ensures
        spec_run(m, p, lines).outcome == spec_run(m, p, lines.skip(k)).outcome,
    decreases k,
{
    if k == 0 {
        assert(lines.skip(0) =~= lines);
    } else {
        assert(spec_step(m, lines[0]) is Retry);
        let rest = lines.drop_first();
        assert forall|j: int| 0 <= j < k - 1 implies spec_step(m, #[trigger] rest[j]) is Retry by {
            assert(rest[j] == lines[j + 1]);
        }
        lemma_run_skips_retries(m, p, rest, k - 1);
        assert(rest.skip(k - 1) =~= lines.skip(k));
    }
}

/// The default value passes through neither the parser nor the acceptance
/// test: on an empty-trimmed line, two models that agree on their default
/// alone step alike, whatever their parse rules and acceptance tests.
pub proof fn lemma_default_bypasses_parse_and_validation<TV>(
    m1: InputModel<TV>,
    m2: InputModel<TV>,
    line: Seq<char>,
)
    requires
        trim_spec(line).len() == 0,
        m1.default_value == m2.default_value,
    ensures
        spec_step(m1, line) == spec_step(m2, line),
{
}

/// However many failed attempts precede it, once an empty-trimmed line is
/// read the resolution ends at once with the configured default.
pub proof fn lemma_default_on_empty_line<TV>(
    m: InputModel<TV>,
    p: Option<Seq<char>>,
    lines: Seq<Seq<char>>,
    k: int,
    d: TV,
)
    requires
        m.default_value == Some(d),
        0 <= k < lines.len(),
        forall|j: int| 0 <= j < k ==> spec_step(m, lines[j]) is Retry,
        trim_spec(lines[k]).len() == 0,
    ensures
        spec_run(m, p, lines).outcome == Outcome::Value(d),
{
    lemma_run_skips_retries(m, p, lines, k);
    let tail = lines.skip(k);
    assert(tail[0] == lines[k]);
    assert(spec_step(m, lines[k]) == StepModel::Accept(d));
}

/// A line that fails to parse never ends resolution: that attempt prints
/// the type-failure message exactly once, and reading goes on.
pub proof fn lemma_parse_failure_retries<TV>(
    m: InputModel<TV>,
    p: Option<Seq<char>>,
    lines: Seq<Seq<char>>,
)
    requires
        lines.len() > 0,
        trim_spec(lines[0]).len() > 0,
        (m.parse)(trim_spec(lines[0])) is None,
    ensures
        spec_run(m, p, lines).outcome == spec_run(m, p, lines.drop_first()).outcome,
        spec_run(m, p, lines).events =~= prompt_events(p) + seq![
            EventModel::Message(type_failure_message(m)),
        ] + spec_run(m, p, lines.drop_first()).events,
{
    assert(spec_step(m, lines[0]) == StepModel::<TV>::Retry(Some(type_failure_message(m))));
}

/// A parsed value the acceptance test rejects is never returned by that
/// attempt: the configured validator message is printed exactly once — or
/// nothing is, when none is configured — and reading goes on.
pub proof fn lemma_rejected_value_retries<TV>(
    m: InputModel<TV>,
    p: Option<Seq<char>>,
    lines: Seq<Seq<char>>,
    v: TV,
)
    requires
        lines.len() > 0,
        trim_spec(lines[0]).len() > 0,
        (m.parse)(trim_spec(lines[0])) == Some(v),
        match m.validator {
            Some(accepts) => !accepts(v),
            None => false,
        },
    ensures
        spec_run(m, p, lines).outcome == spec_run(m, p, lines.drop_first()).outcome,
        spec_run(m, p, lines).events =~= prompt_events(p) + message_events(m.validator_message)
            + spec_run(m, p, lines.drop_first()).events,
{
    assert(spec_step(m, lines[0]) == StepModel::<TV>::Retry(m.validator_message));
}

/// A parsed value the acceptance test accepts — or any parsed value when
/// no test is configured — ends resolution at once with that value.
pub proof fn lemma_accepted_value_terminates<TV>(
    m: InputModel<TV>,
    p: Option<Seq<char>>,
    lines: Seq<Seq<char>>,
    v: TV,
)
    requires
        lines.len() > 0,
        trim_spec(lines[0]).len() > 0,
        (m.parse)(trim_spec(lines[0])) == Some(v),
        match m.validator {
            Some(accepts) => accepts(v),
            None => true,
        },
    ensures
        spec_run(m, p, lines).outcome == Outcome::Value(v),
        spec_run(m, p, lines).events =~= prompt_events(p),
{
    assert(spec_step(m, lines[0]) == StepModel::Accept(v));
}

/// The outcome of a resolution, characterized: it is the step of the
/// first decisive line, the first whose step is not a retry, however many
/// retries precede it.
pub proof fn lemma_outcome_is_first_decisive_step<TV>(
    m: InputModel<TV>,
    p: Option<Seq<char>>,
    lines: Seq<Seq<char>>,
    k: int,
)
    requires
        0 <= k < lines.len(),
        forall|j: int| 0 <= j < k ==> spec_step(m, lines[j]) is Retry,
        !(spec_step(m, lines[k]) is Retry),
    ensures
        match spec_step(m, lines[k]) {
            StepModel::Accept(v) => spec_run(m, p, lines).outcome == Outcome::Value(v),
            StepModel::Retry(_) => false,
        },
{
    lemma_run_skips_retries(m, p, lines, k);
    assert(lines.skip(k)[0] == lines[k]);
}

/// Rendering happens once per resolution: every prompt event of the whole
/// transcript carries the one rendered text, on every retry alike.
pub proof fn lemma_prompt_rendered_once<TV>(
    m: InputModel<TV>,
    p: Option<Seq<char>>,
    lines: Seq<Seq<char>>,
)
    ensures
        forall|i: int|
            0 <= i < spec_run(m, p, lines).events.len() ==> (match #[trigger] spec_run(
                m,
                p,
                lines,
            ).events[i] {
                EventModel::Prompt(q) => Some(q) == p,
                EventModel::Message(_) => true,
            }),
    decreases lines.len(),
{
    if lines.len() == 0 {
    } else {
        match spec_step(m, lines[0]) {
            StepModel::Accept(_) => {
            },
            StepModel::Retry(_) => {
                lemma_prompt_rendered_once(m, p, lines.drop_first());
            },
        }
    }
}

/// The line source failing stops resolution at once, wherever in the loop
/// the failed read falls: the run reports the failure exactly when no
/// scripted line ever stepped to a terminal value.
pub proof fn lemma_source_failure_is_fatal<TV>(
    m: InputModel<TV>,
    p: Option<Seq<char>>,
    lines: Seq<Seq<char>>,
)
    ensures
        (spec_run(m, p, lines).outcome is SourceFailed) <==> (forall|j: int|
            0 <= j < lines.len() ==> spec_step(m, lines[j]) is Retry),
    decreases lines.len(),
{
    if lines.len() == 0 {
    } else {
        let rest = lines.drop_first();
        lemma_source_failure_is_fatal(m, p, rest);
        match spec_step(m, lines[0]) {
            StepModel::Accept(_) => {
                assert(!(spec_step(m, lines[0]) is Retry));
            },
            StepModel::Retry(_) => {
                if spec_run(m, p, lines).outcome is SourceFailed {
                    assert forall|j: int| 0 <= j < lines.len() implies spec_step(
                        m,
                        #[trigger] lines[j],
                    ) is Retry by {
                        if j > 0 {
                            assert(lines[j] == rest[j - 1]);
                        }
                    }
                } else {
                    let w = choose|j: int|
                        0 <= j < rest.len() && !(spec_step(m, #[trigger] rest[j]) is Retry);
                    assert(lines[w + 1] == rest[w]);
                }
            },
        }
    }
}

} // verus!
