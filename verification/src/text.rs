//! Comparisons of text, and reading integers written in decimal.
use vstd::prelude::*;
use vstd::string::StringSliceAdditionalSpecFns;

verus! {

/// Whether two texts hold the same characters.
pub fn str_eq(a: &str, b: &str) -> (r: bool)
    ensures
        r == (a@ == b@),
{
    let n = a.unicode_len();
    let m = b.unicode_len();
    if n != m {
        return false;
    }
    for i in 0..n
        invariant
            n == a@.len(),
            m == b@.len(),
            n == m,
            forall|k: int| 0 <= k < i ==> a@[k] == b@[k],
    {
        if a.get_char(i) != b.get_char(i) {
            return false;
        }
    }
    assert(a@ =~= b@);
    true
}

/// An ASCII decimal digit.
pub open spec fn is_digit(b: u8) -> bool {
    48 <= b <= 57
}

/// Every byte is an ASCII decimal digit.
pub open spec fn all_digits(s: Seq<u8>) -> bool {
    forall|i: int| 0 <= i < s.len() ==> is_digit(#[trigger] s[i])
}

/// The number that a string of ASCII decimal digits writes.
pub open spec fn digits_value(s: Seq<u8>) -> nat
    decreases s.len(),
{
    if s.len() == 0 {
        0
    } else {
        digits_value(s.drop_last()) * 10 + (s.last() - 48) as nat
    }
}

/// The integer that the bytes `b` write in the form Rust's integer parsing
/// accepts: an optional `+` (or `-` where `signed`) followed by at least one
/// decimal digit and nothing else; `None` for any other bytes.
pub open spec fn decimal_value(b: Seq<u8>, signed: bool) -> Option<int> {
    if b.len() == 0 {
        None
    } else {
        let neg = signed && b[0] == 45;
        let ds = if b[0] == 43 || neg {
            b.drop_first()
        } else {
            b
        };
        if ds.len() == 0 || !all_digits(ds) {
            None
        } else if neg {
            Some(-(digits_value(ds) as int))
        } else {
            Some(digits_value(ds) as int)
        }
    }
}

/// What `str::parse::<i64>` gives for the text `s`.
pub open spec fn spec_parse_i64(s: Seq<u8>) -> Option<i64> {
    match decimal_value(s, true) {
        Some(v) => if i64::MIN <= v <= i64::MAX {
            Some(v as i64)
        } else {
            None
        },
        None => None,
    }
}

/// What `str::parse::<u128>` gives for the text `s`.
pub open spec fn spec_parse_u128(s: Seq<u8>) -> Option<u128> {
    match decimal_value(s, false) {
        Some(v) => if 0 <= v <= u128::MAX {
            Some(v as u128)
        } else {
            None
        },
        None => None,
    }
}

/// What `str::parse::<u32>` gives for the text `s`.
pub open spec fn spec_parse_u32(s: Seq<u8>) -> Option<u32> {
    match decimal_value(s, false) {
        Some(v) => if 0 <= v <= u32::MAX {
            Some(v as u32)
        } else {
            None
        },
        None => None,
    }
}

/// A prefix of digits writes no more than the whole.
proof fn lemma_digits_value_prefix(s: Seq<u8>, k: int)
    requires
        0 <= k <= s.len(),
        all_digits(s),
    ensures
        digits_value(s.take(k)) <= digits_value(s),
    decreases s.len(),
{
    if k < s.len() {
        let p = s.drop_last();
        assert(all_digits(p)) by {
            assert forall|i: int| 0 <= i < p.len() implies is_digit(#[trigger] p[i]) by {
                assert(p[i] == s[i]);
            }
        }
        lemma_digits_value_prefix(p, k);
        assert(p.take(k) =~= s.take(k));
    } else {
        assert(s.take(k) =~= s);
    }
}

/// The value of the digits `b[start..]`, where they are all digits, there is at
/// least one, and the value is at most `limit`.
fn parse_digits(b: &[u8], start: usize, limit: u128) -> (r: Option<u128>)
    requires
        start <= b@.len(),
        limit >= 9,
    ensures
        match r {
            Some(v) => start < b@.len() && all_digits(b@.skip(start as int)) && v == digits_value(
                b@.skip(start as int),
            ) && v <= limit,
            None => !(start < b@.len() && all_digits(b@.skip(start as int)) && digits_value(
                b@.skip(start as int),
            ) <= limit),
        },
{
    let n = b.len();
    if start == n {
        return None;
    }
    let ghost ds = b@.skip(start as int);
    let mut v: u128 = 0;
    let mut i = start;
    while i < n
        invariant
            start <= i <= n,
            n == b@.len(),
            ds == b@.skip(start as int),
            limit >= 9,
            all_digits(ds.take(i - start)),
            v == digits_value(ds.take(i - start)),
            v <= limit,
        decreases n - i,
    {
        let c = b[i];
        if c < 48 || c > 57 {
            assert(!all_digits(ds)) by {
                assert(ds[i - start] == c);
            }
            return None;
        }
        let d = (c - 48) as u128;
        let ghost pre = ds.take(i - start);
        let ghost next = ds.take(i - start + 1);
        assert(next.drop_last() =~= pre);
        assert(next.last() == c);
        if v > (limit - d) / 10 {
            assert(v * 10 + d > limit) by (nonlinear_arith)
                requires
                    v > (limit - d) / 10,
                    d <= 9,
                    limit >= 9,
            ;
            proof {
                if all_digits(ds) {
                    lemma_digits_value_prefix(ds, i - start + 1);
                }
            }
            return None;
        }
        assert(v * 10 + d <= limit) by (nonlinear_arith)
            requires
                v <= (limit - d) / 10,
                d <= 9,
                limit >= 9,
        ;
        v = v * 10 + d;
        assert(all_digits(next)) by {
            assert forall|k: int| 0 <= k < next.len() implies is_digit(#[trigger] next[k]) by {
                if k < pre.len() {
                    assert(next[k] == pre[k]);
                }
            }
        }
        i = i + 1;
    }
    assert(ds.take(n - start) =~= ds);
    Some(v)
}

/// Parses a signed decimal integer as `str::parse::<i64>` does.
pub fn parse_i64(s: &str) -> (r: Option<i64>)
    ensures
        r == spec_parse_i64(s.spec_bytes()),
{
    let b = s.as_bytes();
    let n = b.len();
    if n == 0 {
        return None;
    }
    let neg = b[0] == 45;
    let start: usize = if b[0] == 43 || neg {
        1
    } else {
        0
    };
    assert(b@.skip(start as int) =~= if b@[0] == 43 || neg {
        b@.drop_first()
    } else {
        b@
    });
    let limit: u128 = if neg {
        0x8000_0000_0000_0000
    } else {
        0x7fff_ffff_ffff_ffff
    };
    match parse_digits(b, start, limit) {
        Some(m) => {
            if neg {
                if m == 0x8000_0000_0000_0000 {
                    Some(i64::MIN)
                } else {
                    Some(-(m as i64))
                }
            } else {
                Some(m as i64)
            }
        },
        None => None,
    }
}

/// Parses an unsigned decimal integer as `str::parse::<u128>` does.
pub fn parse_u128(s: &str) -> (r: Option<u128>)
    ensures
        r == spec_parse_u128(s.spec_bytes()),
{
    let b = s.as_bytes();
    let n = b.len();
    if n == 0 {
        return None;
    }
    let start: usize = if b[0] == 43 {
        1
    } else {
        0
    };
    assert(b@.skip(start as int) =~= if b@[0] == 43 {
        b@.drop_first()
    } else {
        b@
    });
    parse_digits(b, start, u128::MAX)
}

/// Parses an unsigned decimal integer as `str::parse::<u32>` does.
pub fn parse_u32(s: &str) -> (r: Option<u32>)
    ensures
        r == spec_parse_u32(s.spec_bytes()),
{
    let b = s.as_bytes();
    let n = b.len();
    if n == 0 {
        return None;
    }
    let start: usize = if b[0] == 43 {
        1
    } else {
        0
    };
    assert(b@.skip(start as int) =~= if b@[0] == 43 {
        b@.drop_first()
    } else {
        b@
    });
    match parse_digits(b, start, 0xffff_ffff) {
        Some(m) => Some(m as u32),
        None => None,
    }
}

} // verus!
