//! Textual conversion of a trimmed line into a target value.
//!
//! A resolvable target type implements [`Parse`]: a mathematical conversion
//! rule `spec_parse` over the view of the type, and a verified executable
//! parser that follows it exactly.  Unsigned integers use the usual decimal
//! rule (an optional leading `+`, then digits, rejecting overflow); strings
//! convert to themselves and never fail.

use vstd::prelude::*;
use vstd::string::StringExecFns;

verus! {

/// A type that can be read from a trimmed line of text.
pub trait Parse: View + Sized {
    /// The textual-conversion rule of the type, over its view.
    spec fn spec_parse(s: Seq<char>) -> Option<Self::V>;

    /// Parse a trimmed line of text, exactly as `spec_parse` says.
    fn parse_text(s: &str) -> (r: Option<Self>)
        ensures
            match r {
                Some(v) => Self::spec_parse(s@) == Some(v@),
                None => Self::spec_parse(s@) is None,
            },
    ;
}

/// A decimal digit.
pub open spec fn is_digit(c: char) -> bool {
    '0' <= c && c <= '9'
}

/// The numeric value of a decimal digit.
pub open spec fn digit_val(c: char) -> int {
    c as u32 - 48
}

/// Every character of the sequence is a decimal digit.
pub open spec fn all_digits(s: Seq<char>) -> bool {
    forall|i: int| 0 <= i < s.len() ==> is_digit(s[i])
}

/// The number denoted by a sequence of decimal digits, most significant first.
pub open spec fn digits_val(s: Seq<char>) -> int
    decreases s.len(),
{
    if s.len() == 0 {
        0
    } else {
        digits_val(s.drop_last()) * 10 + digit_val(s.last())
    }
}

/// The decimal rule for `u32`: an optional leading `+`, then at least one
/// digit, denoting a value that fits.
pub open spec fn parse_u32(s: Seq<char>) -> Option<u32> {
    let d = if s.len() > 0 && s[0] == '+' {
        s.drop_first()
    } else {
        s
    };
    if d.len() > 0 && all_digits(d) && digits_val(d) <= u32::MAX {
        Some(digits_val(d) as u32)
    } else {
        None
    }
}

proof fn lemma_digits_val_nonneg(s: Seq<char>)
    requires
        all_digits(s),
    ensures
        digits_val(s) >= 0,
    decreases s.len(),
{
    if s.len() > 0 {
        assert(is_digit(s.last()));
        assert(all_digits(s.drop_last()));
        lemma_digits_val_nonneg(s.drop_last());
    }
}

/// A digit string denotes at least as much as any of its prefixes.
proof fn lemma_digits_val_prefix_mono(s: Seq<char>, i: int)
    requires
        all_digits(s),
        0 <= i <= s.len(),
    ensures
        digits_val(s.subrange(0, i)) <= digits_val(s),
    decreases s.len() - i,
{
    if i == s.len() {
        assert(s.subrange(0, i) =~= s);
    } else {
        let p = s.subrange(0, i);
        let q = s.subrange(0, i + 1);
        assert(q.drop_last() =~= p);
        assert(all_digits(p));
        assert(is_digit(q.last()));
        lemma_digits_val_nonneg(p);
        assert(digits_val(q) == digits_val(p) * 10 + digit_val(q.last()));
        lemma_digits_val_prefix_mono(s, i + 1);
    }
}

impl Parse for u32 {
    open spec fn spec_parse(s: Seq<char>) -> Option<u32> {
        parse_u32(s)
    }

    fn parse_text(s: &str) -> (r: Option<u32>) {
        let n = s.unicode_len();
        if n == 0 {
            return None;
        }
        let start: usize = if s.get_char(0) == '+' {
            1
        } else {
            0
        };
        if start == n {
            return None;
        }
        let ghost d = if s@[0] == '+' {
            s@.drop_first()
        } else {
            s@
        };
        proof {
            assert(d =~= s@.subrange(start as int, n as int));
        }
        let mut acc: u32 = 0;
        let mut i: usize = start;
        while i < n
            invariant
                start <= i <= n,
                n == s@.len(),
                n > 0,
                start == 1 <==> s@[0] == '+',
                start <= 1,
                d == s@.subrange(start as int, n as int),
                forall|k: int| start <= k < i ==> is_digit(s@[k]),
                acc == digits_val(s@.subrange(start as int, i as int)),
            decreases n - i,
        {
            let c = s.get_char(i);
            let u = c as u32;
            if !(48 <= u && u <= 57) {
                proof {
                    assert(!is_digit(d[i - start]));
                }
                return None;
            }
            let dv: u32 = u - 48;
            let wide: u64 = (acc as u64) * 10 + (dv as u64);
            proof {
                let p = s@.subrange(start as int, i as int);
                let q = s@.subrange(start as int, i + 1);
                assert(q.drop_last() =~= p);
                assert(q.last() == s@[i as int]);
                assert(digits_val(q) == acc * 10 + dv);
            }
            if wide > (u32::MAX as u64) {
                proof {
                    let q = s@.subrange(start as int, i + 1);
                    if all_digits(d) {
                        assert(q =~= d.subrange(0, i + 1 - start));
                        lemma_digits_val_prefix_mono(d, i + 1 - start);
                        assert(digits_val(d) > u32::MAX);
                    }
                    assert(all_digits(d) ==> digits_val(d) > u32::MAX);
                    // the conditional in parse_u32 picks exactly our d
                    let sd = if s@.len() > 0 && s@[0] == '+' {
                        s@.drop_first()
                    } else {
                        s@
                    };
                    assert(sd == d);
                    assert(parse_u32(s@) is None);
                }
                return None;
            }
            acc = wide as u32;
            i = i + 1;
        }
        proof {
            assert(s@.subrange(start as int, n as int) =~= d);
            assert(all_digits(d));
            assert(digits_val(d) == acc);
            assert(d.len() > 0);
        }
        Some(acc)
    }
}

impl Parse for String {
    /// Strings convert to themselves: the rule never fails.
    open spec fn spec_parse(s: Seq<char>) -> Option<Seq<char>> {
        Some(s)
    }

    fn parse_text(s: &str) -> (r: Option<String>) {
        Some(String::from_str(s))
    }
}

} // verus!
