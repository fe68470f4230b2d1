//! Deriving the optional total-size hint from a response header value.
//!
//! A missing or malformed header is a normal case: it degrades the size hint
//! to `None` instead of being an error.

use vstd::prelude::*;

verus! {

/// Metadata derived once from the response headers: the server-declared
/// total payload size in bytes, when one was declared.
#[derive(Clone, Copy, PartialEq, Eq, Debug)]
pub struct ResponseMetadata {
    pub total_size: Option<u64>,
}

/// An ASCII decimal digit.
pub open spec fn is_ascii_digit(c: char) -> bool {
    '0' <= c && c <= '9'
}

/// The numeric value of one ASCII digit.
pub open spec fn digit_value(c: char) -> int {
    c as int - '0' as int
}

/// Every character of `s` is an ASCII digit.
pub open spec fn all_digits(s: Seq<char>) -> bool {
    forall|i: int| 0 <= i < s.len() ==> is_ascii_digit(#[trigger] s[i])
}

/// The value of `s` read as a base-10 numeral.
pub open spec fn decimal_value(s: Seq<char>) -> int
    decreases s.len(),
{
    if s.len() == 0 {
        0
    } else {
        10 * decimal_value(s.drop_last()) + digit_value(s.last())
    }
}

/// A header value that declares a usable total size: one or more ASCII
/// digits whose value fits in a `u64`.
pub open spec fn is_declared_size(s: Seq<char>) -> bool {
    s.len() >= 1 && all_digits(s) && decimal_value(s) <= u64::MAX
}

/// A digit string never reads as a negative value.
proof fn lemma_decimal_value_nonneg(s: Seq<char>)
    requires
        all_digits(s),
    ensures
        decimal_value(s) >= 0,
    decreases s.len(),
{
    if s.len() > 0 {
        assert(all_digits(s.drop_last()));
        lemma_decimal_value_nonneg(s.drop_last());
        assert(digit_value(s.last()) >= 0);
    }
}

/// Reading a longer prefix of a digit string never decreases the value.
proof fn lemma_decimal_value_prefix_le(s: Seq<char>, i: int, j: int)
    requires
        all_digits(s),
        0 <= i <= j <= s.len(),
    ensures
        decimal_value(s.take(i)) <= decimal_value(s.take(j)),
    decreases j - i,
{
    if i < j {
        lemma_decimal_value_prefix_le(s, i, j - 1);
        assert(s.take(j).drop_last() =~= s.take(j - 1));
        assert(all_digits(s.take(j - 1)));
        lemma_decimal_value_nonneg(s.take(j - 1));
        assert(is_ascii_digit(s[j - 1]));
        assert(s.take(j).last() == s[j - 1]);
    }
}

/// Parse a string as a base-10 `u64`. Returns the value exactly when the
/// string is one or more ASCII digits and the value fits; anything else
/// (empty, a stray character, a value past `u64::MAX`) yields `None`.
pub fn parse_decimal(s: &str) -> (r: Option<u64>)
    ensures
        is_declared_size(s@) ==> r == Some(decimal_value(s@) as u64),
        !is_declared_size(s@) ==> r is None,
{
    let n = s.unicode_len();
    if n == 0 {
        return None;
    }
    let mut val: u64 = 0;
    let mut i: usize = 0;
    while i < n
        invariant
            n as nat == s@.len(),
            i <= n,
            all_digits(s@.take(i as int)),
            val as int == decimal_value(s@.take(i as int)),
        decreases n - i,
    {
        let c = s.get_char(i);
        let u = c as u32;
        if u < 48 || u > 57 {
            assert(!is_ascii_digit(s@[i as int]));
            return None;
        }
        let d: u64 = (u - 48) as u64;
        assert(d as int == digit_value(s@[i as int]));
        let wide: u128 = (val as u128) * 10 + (d as u128);
        proof {
            assert(s@.take(i + 1).drop_last() =~= s@.take(i as int));
            assert(s@.take(i + 1).last() == s@[i as int]);
            assert(decimal_value(s@.take(i + 1)) == wide as int);
        }
        if wide > u64::MAX as u128 {
            proof {
                if is_declared_size(s@) {
                    lemma_decimal_value_prefix_le(s@, i + 1, s@.len() as int);
                    assert(s@.take(s@.len() as int) =~= s@);
                }
            }
            return None;
        }
        val = wide as u64;
        i = i + 1;
    }
    proof {
        assert(s@.take(n as int) =~= s@);
        lemma_decimal_value_nonneg(s@);
    }
    Some(val)
}

/// Derive the size hint from the content-length-style header value, if any.
/// Absence or a malformed value degrades gracefully to no hint.
pub fn parse_size_hint(header: Option<&str>) -> (m: ResponseMetadata)
    ensures
        m.total_size == (match header {
            Some(h) => if is_declared_size(h@) {
                Some(decimal_value(h@) as u64)
            } else {
                None
            },
            None => None::<u64>,
        }),
{
    match header {
        Some(h) => ResponseMetadata { total_size: parse_decimal(h) },
        None => ResponseMetadata { total_size: None },
    }
}

} // verus!
