//! Interpretation of the service's rate-limit headers.
//!
//! A response carries two headers of interest: how many seconds remain
//! until the window resets, and how many requests remain in it. Either may
//! be absent or malformed; a degraded header must never block progress, so
//! each falls back to a fixed documented default.

use vstd::prelude::*;

verus! {

/// Window length in seconds assumed when the reset header is absent or
/// unparseable.
pub const DEFAULT_RESET_SECS: u64 = 10;

/// Remaining request count assumed when the remaining header is absent or
/// unparseable.
pub const DEFAULT_REMAINING: u32 = 110;

/// Whether the byte is an ASCII decimal digit.
pub open spec fn is_digit(b: u8) -> bool {
    48 <= b <= 57
}

/// The numeric value of one digit byte (zero for anything else).
pub open spec fn digit_value(b: u8) -> nat {
    if is_digit(b) {
        (b - 48) as nat
    } else {
        0
    }
}

/// Whether every byte is a decimal digit.
pub open spec fn all_digits(s: Seq<u8>) -> bool {
    forall|i: int| 0 <= i < s.len() ==> is_digit(#[trigger] s[i])
}

/// The number a run of digit bytes denotes, most significant first.
pub open spec fn digits_value(s: Seq<u8>) -> nat
    decreases s.len(),
{
    if s.len() == 0 {
        0
    } else {
        digits_value(s.drop_last()) * 10 + digit_value(s.last())
    }
}

/// Whether the bytes are a well-formed decimal numeral: nonempty, digits
/// only, and denoting a value the given bound can hold.
pub open spec fn parses_up_to(s: Seq<u8>, bound: nat) -> bool {
    s.len() > 0 && all_digits(s) && digits_value(s) <= bound
}

/// A longer run of digits never denotes less: every extension multiplies
/// the prefix's value by ten before adding the new digit.
proof fn lemma_digits_value_prefix_le(s: Seq<u8>, i: int)
    requires
        0 <= i <= s.len(),
    ensures
        digits_value(s.take(i)) <= digits_value(s),
    decreases s.len() - i,
{
    if i < s.len() {
        assert(s.take(i + 1).drop_last() =~= s.take(i));
        assert(s.take(i + 1).last() == s[i]);
        lemma_digits_value_prefix_le(s, i + 1);
    } else {
        assert(s.take(i) =~= s);
    }
}

/// Parses a nonempty run of decimal digits. Anything else, and any value
/// that does not fit in the result type, is rejected.
pub fn parse_u64_digits(s: &[u8]) -> (r: Option<u64>)
    ensures
        r matches Some(v) ==> parses_up_to(s@, u64::MAX as nat) && v == digits_value(s@),
        r is None ==> !parses_up_to(s@, u64::MAX as nat),
{
    if s.len() == 0 {
        return None;
    }
    let mut acc: u64 = 0;
    let mut i: usize = 0;
    while i < s.len()
        invariant
            0 <= i <= s@.len(),
            all_digits(s@.take(i as int)),
            acc == digits_value(s@.take(i as int)),
        decreases s@.len() - i,
    {
        let b = s[i];
        if !(48 <= b && b <= 57) {
            assert(!all_digits(s@)) by {
                assert(!is_digit(s@[i as int]));
            }
            return None;
        }
        let digit = (b - 48) as u64;
        proof {
            assert(s@.take(i + 1).drop_last() =~= s@.take(i as int));
            assert(s@.take(i + 1).last() == s@[i as int]);
        }
        let shifted = match acc.checked_mul(10) {
            Some(m) => m,
            None => {
                proof {
                    lemma_digits_value_prefix_le(s@, i + 1);
                }
                return None;
            },
        };
        acc = match shifted.checked_add(digit) {
            Some(a) => a,
            None => {
                proof {
                    lemma_digits_value_prefix_le(s@, i + 1);
                }
                return None;
            },
        };
        i = i + 1;
    }
    proof {
        assert(s@.take(s@.len() as int) =~= s@);
    }
    Some(acc)
}

/// The value of a header: the parsed numeral when the header is present and
/// well formed, the caller's default otherwise.
pub open spec fn spec_header_u64(h: Option<Seq<u8>>, default: u64) -> u64 {
    match h {
        Some(s) => if parses_up_to(s, u64::MAX as nat) {
            digits_value(s) as u64
        } else {
            default
        },
        None => default,
    }
}

/// The value of a header that must fit in 32 bits; a wider numeral counts
/// as malformed and falls back to the default.
pub open spec fn spec_header_u32(h: Option<Seq<u8>>, default: u32) -> u32 {
    match h {
        Some(s) => if parses_up_to(s, u32::MAX as nat) {
            digits_value(s) as u32
        } else {
            default
        },
        None => default,
    }
}

/// Reads a header's raw bytes as a number, recovering with the default when
/// the header is absent or malformed.
pub fn header_u64_or_default(h: Option<&[u8]>, default: u64) -> (r: u64)
    ensures
        h matches Some(s) ==> r == spec_header_u64(Some(s@), default),
        h is None ==> r == default,
{
    match h {
        Some(s) => match parse_u64_digits(s) {
            Some(v) => v,
            None => default,
        },
        None => default,
    }
}

/// Reads a header's raw bytes as a 32-bit number, recovering with the
/// default when the header is absent or malformed.
pub fn header_u32_or_default(h: Option<&[u8]>, default: u32) -> (r: u32)
    ensures
        h matches Some(s) ==> r == spec_header_u32(Some(s@), default),
        h is None ==> r == default,
{
    match h {
        Some(s) => match parse_u64_digits(s) {
            Some(v) => if v <= u32::MAX as u64 {
                v as u32
            } else {
                default
            },
            None => default,
        },
        None => default,
    }
}

} // verus!
