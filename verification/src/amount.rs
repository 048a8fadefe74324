//! Parsing of the requested amount: a decimal string denominated in the
//! asset's smallest unit, read into a 64-bit unsigned integer.
//!
//! The error messages match the ones std's integer parsing produces, so the
//! failure responses read the same whatever produced them.

use vstd::prelude::*;
use vstd::string::{StrSliceExecFns, StringExecFns};

verus! {

/// Whether `c` is a decimal digit.
pub open spec fn is_ascii_digit(c: char) -> bool {
    48 <= c as u32 <= 57
}

/// The numeric value of a decimal digit.
pub open spec fn digit_value(c: char) -> nat {
    (c as u32 - 48) as nat
}

/// Whether every character of `s` is a decimal digit.
pub open spec fn all_digits(s: Seq<char>) -> bool {
    forall|i: int| 0 <= i < s.len() ==> is_ascii_digit(#[trigger] s[i])
}

/// The value of a digit string read in base ten, most significant first.
pub open spec fn digits_value(s: Seq<char>) -> nat
    decreases s.len(),
{
    if s.len() == 0 {
        0
    } else {
        digits_value(s.drop_last()) * 10 + digit_value(s.last())
    }
}

/// A well-formed amount: a nonempty string of decimal digits whose value
/// fits in 64 unsigned bits.
pub open spec fn valid_amount(s: Seq<char>) -> bool {
    &&& s.len() > 0
    &&& all_digits(s)
    &&& digits_value(s) <= u64::MAX
}

/// Whether a left-to-right scan of `s` overflows the 64-bit range before it
/// meets any non-digit character: some all-digit prefix already exceeds
/// `u64::MAX`.
pub open spec fn overflow_reported(s: Seq<char>) -> bool {
    exists|j: int|
        0 < j <= s.len() && all_digits(#[trigger] s.subrange(0, j)) && digits_value(
            s.subrange(0, j),
        ) > u64::MAX
}

/// The message reported for a malformed amount: emptiness first, then
/// overflow or a non-digit character, whichever a left-to-right scan meets
/// first.
pub open spec fn parse_error_message(s: Seq<char>) -> Seq<char> {
    if s.len() == 0 {
        "cannot parse integer from empty string"@
    } else if overflow_reported(s) {
        "number too large to fit in target type"@
    } else {
        "invalid digit found in string"@
    }
}

/// The value of a digit string is at least the value of any of its prefixes.
proof fn lemma_digits_value_prefix_le(s: Seq<char>, j: int)
    requires
        0 <= j <= s.len(),
        all_digits(s),
    ensures
        digits_value(s.subrange(0, j)) <= digits_value(s),
    decreases s.len(),
{
    if j == s.len() {
        assert(s.subrange(0, j) =~= s);
    } else {
        let t = s.drop_last();
        assert(forall|i: int| 0 <= i < t.len() ==> is_ascii_digit(#[trigger] t[i]));
        lemma_digits_value_prefix_le(t, j);
        assert(t.subrange(0, j) =~= s.subrange(0, j));
    }
}

/// Reads the amount as a base-ten unsigned 64-bit integer.
///
/// Succeeds exactly on well-formed amounts, returning their value; a
/// malformed amount is reported with the same message std's integer parsing
/// would give it.
pub fn parse_amount(s: &str) -> (r: Result<u64, String>)
    ensures
        r is Ok <==> valid_amount(s@),
        r matches Ok(v) ==> v == digits_value(s@),
        r matches Err(m) ==> m@ == parse_error_message(s@),
{
    let n = s.unicode_len();
    if n == 0 {
        return Err(String::from_str("cannot parse integer from empty string"));
    }
    let mut acc: u64 = 0;
    let mut i: usize = 0;
    while i < n
        invariant
            n == s@.len(),
            0 < n <= usize::MAX,
            i <= n,
            all_digits(s@.subrange(0, i as int)),
            acc == digits_value(s@.subrange(0, i as int)),
            forall|j: int|
                0 < j <= i ==> digits_value(#[trigger] s@.subrange(0, j)) <= u64::MAX,
        decreases n - i,
    {
        let c = s.get_char(i);
        let cv = c as u32;
        if cv < 48 || cv > 57 {
            proof {
                assert(!is_ascii_digit(s@[i as int]));
                assert(!all_digits(s@));
                assert forall|j: int|
                    0 < j <= s@.len() && all_digits(#[trigger] s@.subrange(0, j)) implies digits_value(
                    s@.subrange(0, j),
                ) <= u64::MAX by {
                    if j > i {
                        assert(s@.subrange(0, j)[i as int] == s@[i as int]);
                        assert(false);
                    }
                }
                assert(!overflow_reported(s@));
            }
            return Err(String::from_str("invalid digit found in string"));
        }
        let d = (cv - 48) as u64;
        if acc > (u64::MAX - d) / 10 {
            proof {
                let p = s@.subrange(0, i + 1);
                assert(p.drop_last() =~= s@.subrange(0, i as int));
                assert(p.last() == s@[i as int]);
                assert(digits_value(p) == acc * 10 + d);
                assert(acc * 10 + d > u64::MAX) by {
                    assert(acc >= (u64::MAX - d) / 10 + 1);
                    assert(((u64::MAX - d) / 10 + 1) * 10 == ((u64::MAX - d) / 10) * 10 + 10);
                    assert(acc * 10 >= ((u64::MAX - d) / 10 + 1) * 10) by (nonlinear_arith)
                        requires
                            acc >= (u64::MAX - d) / 10 + 1,
                    ;
                    assert(((u64::MAX - d) / 10) * 10 + (u64::MAX - d) % 10 == u64::MAX - d);
                    assert((u64::MAX - d) % 10 < 10);
                }
                assert(all_digits(p)) by {
                    assert(forall|k: int| 0 <= k < p.len() ==> p[k] == s@[k]);
                }
                assert(overflow_reported(s@));
                if all_digits(s@) {
                    lemma_digits_value_prefix_le(s@, i + 1);
                    assert(!valid_amount(s@));
                } else {
                    assert(!valid_amount(s@));
                }
            }
            return Err(String::from_str("number too large to fit in target type"));
        }
        proof {
            let p = s@.subrange(0, i + 1);
            assert(p.drop_last() =~= s@.subrange(0, i as int));
            assert(p.last() == s@[i as int]);
            assert(acc <= (u64::MAX - d) / 10);
            assert(acc * 10 <= ((u64::MAX - d) / 10) * 10) by (nonlinear_arith)
                requires
                    acc <= (u64::MAX - d) / 10,
            ;
            assert(((u64::MAX - d) / 10) * 10 + (u64::MAX - d) % 10 == u64::MAX - d);
            assert(acc * 10 + d <= u64::MAX);
            assert(digits_value(p) == acc * 10 + d);
            assert(forall|k: int| 0 <= k < p.len() ==> p[k] == s@[k]);
            assert(all_digits(p));
            assert forall|j: int|
                0 < j <= i + 1 implies digits_value(#[trigger] s@.subrange(0, j)) <= u64::MAX by {
                if j == i + 1 {
                    assert(digits_value(s@.subrange(0, j)) == acc * 10 + d);
                }
            }
        }
        acc = acc * 10 + d;
        i = i + 1;
    }
    proof {
        assert(s@.subrange(0, n as int) =~= s@);
    }
    Ok(acc)
}

} // verus!
