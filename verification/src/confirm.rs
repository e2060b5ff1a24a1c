//! Yes/no confirmation prompts.
//!
//! A confirm prompt is a ready-made string prompt: the display text gets a
//! ` [y/N] ` suffix, the default answer is `n`, and only the
//! case-insensitive answers `n`, `no`, `y`, `yes` are accepted.  The
//! terminal answer is whether the accepted value means yes.

use vstd::prelude::*;
use vstd::string::StringExecFns;

use crate::input::prompt;
use crate::parse::Parse;
use crate::resolve::spec_render;
use crate::resolve::spec_run;
use crate::resolve::Event;
use crate::resolve::InputModel;
use crate::resolve::Outcome;
use crate::resolve::Transform;
use crate::text::trim;
use crate::text::trim_spec;
use crate::validator::Validate;

verus! {

/// The code point of a character, with an ASCII capital folded to its
/// small form.
pub open spec fn folded_code(c: char) -> int {
    if 65 <= c as u32 && c as u32 <= 90 {
        c as int + 32
    } else {
        c as int
    }
}

/// Case-insensitive equality of two character sequences, folding ASCII
/// capitals.
pub open spec fn eq_fold(s: Seq<char>, t: Seq<char>) -> bool {
    s.len() == t.len() && (forall|i: int|
        0 <= i < s.len() ==> folded_code(s[i]) == folded_code(t[i]))
}

/// Fold an ASCII capital to the code of its small form.
fn fold_char(c: char) -> (r: u32)
    ensures
        r == folded_code(c),
{
    let u = c as u32;
    if 65 <= u && u <= 90 {
        u + 32
    } else {
        u
    }
}

/// Compare two strings for equality up to ASCII case.
fn eq_fold_str(s: &str, t: &str) -> (r: bool)
    ensures
        r == eq_fold(s@, t@),
{
    let n = s.unicode_len();
    let m = t.unicode_len();
    if n != m {
        return false;
    }
    let mut i: usize = 0;
    while i < n
        invariant
            0 <= i <= n,
            n == s@.len(),
            n == t@.len(),
            forall|k: int| 0 <= k < i ==> folded_code(s@[k]) == folded_code(t@[k]),
        decreases n - i,
    {
        if fold_char(s.get_char(i)) != fold_char(t.get_char(i)) {
            return false;
        }
        i = i + 1;
    }
    true
}

/// An answer means yes when it case folds to `y` or `yes`.
pub open spec fn is_yes(s: Seq<char>) -> bool {
    eq_fold(s, seq!['y']) || eq_fold(s, seq!['y', 'e', 's'])
}

/// An answer is admissible when, after trimming, it case folds to `n`,
/// `no`, `y` or `yes`.
pub open spec fn is_yes_or_no(s: Seq<char>) -> bool {
    let t = trim_spec(s);
    eq_fold(t, seq!['n']) || eq_fold(t, seq!['n', 'o']) || eq_fold(t, seq!['y']) || eq_fold(
        t,
        seq!['y', 'e', 's'],
    )
}

/// The validator of the confirm prompts: accepts exactly the admissible
/// yes/no answers.
#[derive(Debug)]
pub struct YesNo;

impl Validate<String> for YesNo {
    open spec fn spec_accepts(&self, v: Seq<char>) -> bool {
        is_yes_or_no(v)
    }

    fn accepts(&self, v: &String) -> (r: bool) {
        let t = trim(v.as_str());
        let r = eq_fold_str(t, "n") || eq_fold_str(t, "no") || eq_fold_str(t, "y") || eq_fold_str(
            t,
            "yes",
        );
        proof {
            reveal_strlit("n");
            reveal_strlit("no");
            reveal_strlit("y");
            reveal_strlit("yes");
            assert("n"@ =~= seq!['n']);
            assert("no"@ =~= seq!['n', 'o']);
            assert("y"@ =~= seq!['y']);
            assert("yes"@ =~= seq!['y', 'e', 's']);
        }
        r
    }
}

/// The final transform of the confirm prompts: from the accepted answer
/// to whether it means yes.
#[derive(Debug)]
pub struct IsYes;

impl Transform<String, bool> for IsYes {
    open spec fn spec_apply(&self, v: Seq<char>) -> bool {
        is_yes(v)
    }

    fn apply(&self, v: String) -> (r: bool) {
        let r = eq_fold_str(v.as_str(), "y") || eq_fold_str(v.as_str(), "yes");
        proof {
            reveal_strlit("y");
            reveal_strlit("yes");
            assert("y"@ =~= seq!['y']);
            assert("yes"@ =~= seq!['y', 'e', 's']);
        }
        r
    }
}

/// The model of a confirm prompt: the display text, the ` [y/N] ` suffix,
/// the default answer `n`, the yes/no validator, and an optional message
/// shown when an answer is rejected (nothing is shown without one).
pub open spec fn confirm_model(text: Seq<char>, msg: Option<Seq<char>>) -> InputModel<Seq<char>> {
    InputModel {
        prompt: Some(text),
        prefix: None,
        suffix: Some(" [y/N] "@),
        default_value: Some("n"@),
        parse: (|s: Seq<char>| <String as Parse>::spec_parse(s)),
        validator: Some(|v: Seq<char>| is_yes_or_no(v)),
        type_message: None,
        validator_message: msg,
    }
}

/// Ask a yes/no question against a scripted line source.  Rejected
/// answers retry silently; an empty answer means no.
pub fn confirm(text: String, lines: &Vec<String>) -> (r: (Outcome<bool>, Vec<Event>))
    ensures
        ({
            let run = spec_run(
                confirm_model(text@, None),
                spec_render(confirm_model(text@, None)),
                lines.deep_view(),
            );
            &&& r.1.deep_view() == run.events
            &&& match run.outcome {
                Outcome::Value(v) => r.0 == Outcome::Value(is_yes(v)),
                Outcome::SourceFailed => r.0 == Outcome::<bool>::SourceFailed,
            }
        }),
{
    let ghost text_view = text@;
    let inp = prompt::<String>(text).suffix(String::from_str(" [y/N] ")).default(
        String::from_str("n"),
    ).matches(YesNo);
    proof {
        assert(inp@ =~~= confirm_model(text_view, None));
    }
    let (o, events) = inp.try_get(lines);
    match o {
        Outcome::Value(v) => {
            let b = IsYes.apply(v);
            (Outcome::Value(b), events)
        },
        Outcome::SourceFailed => (Outcome::SourceFailed, events),
    }
}

/// Ask a yes/no question against a scripted line source, printing the
/// given message whenever an answer is rejected.
pub fn confirm_with_message(text: String, message: String, lines: &Vec<String>) -> (r: (
    Outcome<bool>,
    Vec<Event>,
))
    ensures
        ({
            let run = spec_run(
                confirm_model(text@, Some(message@)),
                spec_render(confirm_model(text@, Some(message@))),
                lines.deep_view(),
            );
            &&& r.1.deep_view() == run.events
            &&& match run.outcome {
                Outcome::Value(v) => r.0 == Outcome::Value(is_yes(v)),
                Outcome::SourceFailed => r.0 == Outcome::<bool>::SourceFailed,
            }
        }),
{
    let ghost text_view = text@;
    let ghost message_view = message@;
    let inp = prompt::<String>(text).suffix(String::from_str(" [y/N] ")).default(
        String::from_str("n"),
    ).validator_error_message(message).matches(YesNo);
    proof {
        assert(inp@ =~~= confirm_model(text_view, Some(message_view)));
    }
    let (o, events) = inp.try_get(lines);
    match o {
        Outcome::Value(v) => {
            let b = IsYes.apply(v);
            (Outcome::Value(b), events)
        },
        Outcome::SourceFailed => (Outcome::SourceFailed, events),
    }
}

} // verus!
