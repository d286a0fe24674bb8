//! Verified decimal formatting and parsing for the integer fields that the
//! browser renders (durations, popularity, track counts).

use vstd::prelude::*;

use crate::text::push_char;

verus! {

/// The decimal digit character for a value between 0 and 9.
pub open spec fn digit_char(d: int) -> char {
    if d == 0 {
        '0'
    } else if d == 1 {
        '1'
    } else if d == 2 {
        '2'
    } else if d == 3 {
        '3'
    } else if d == 4 {
        '4'
    } else if d == 5 {
        '5'
    } else if d == 6 {
        '6'
    } else if d == 7 {
        '7'
    } else if d == 8 {
        '8'
    } else {
        '9'
    }
}

/// The decimal digits of a non-negative number, most significant first.
pub open spec fn dec_nat(n: nat) -> Seq<char>
    decreases n,
{
    if n < 10 {
        seq![digit_char(n as int)]
    } else {
        dec_nat(n / 10) + seq![digit_char((n % 10) as int)]
    }
}

/// The decimal rendering of an integer, with a leading minus sign when
/// negative.
pub open spec fn dec_int(n: int) -> Seq<char> {
    if n < 0 {
        seq!['-'] + dec_nat((-n) as nat)
    } else {
        dec_nat(n as nat)
    }
}

/// An integer rendered at width two with zero padding, as the `{:02}`
/// format does it: one leading zero for a single digit, no padding
/// otherwise (a minus sign already fills the width).
pub open spec fn pad2_int(n: int) -> Seq<char> {
    if 0 <= n <= 9 {
        seq!['0', digit_char(n)]
    } else {
        dec_int(n)
    }
}

/// `s` in reverse order.
pub open spec fn rev_chars(s: Seq<char>) -> Seq<char> {
    Seq::new(s.len(), |i: int| s[s.len() - 1 - i])
}

/// The digit character for a machine digit.
fn digit_to_char(d: u64) -> (c: char)
    requires
        d < 10,
    ensures
        c == digit_char(d as int),
{
    if d == 0 {
        '0'
    } else if d == 1 {
        '1'
    } else if d == 2 {
        '2'
    } else if d == 3 {
        '3'
    } else if d == 4 {
        '4'
    } else if d == 5 {
        '5'
    } else if d == 6 {
        '6'
    } else if d == 7 {
        '7'
    } else if d == 8 {
        '8'
    } else {
        '9'
    }
}

/// The decimal rendering of a non-negative machine number.
pub fn u64_to_string(n: u64) -> (r: String)
    ensures
        r@ == dec_nat(n as nat),
{
    let mut digits: Vec<char> = Vec::new();
    let mut m = n;
    while m >= 10
        invariant
            dec_nat(n as nat) =~= dec_nat(m as nat) + rev_chars(digits@),
        decreases m,
    {
        let d = m % 10;
        let ghost before = digits@;
        digits.push(digit_to_char(d));
        proof {
            assert(rev_chars(digits@) =~= seq![digit_char(d as int)] + rev_chars(before));
            assert(dec_nat(m as nat) =~= dec_nat((m / 10) as nat) + seq![
                digit_char((m % 10) as int),
            ]);
        }
        m = m / 10;
    }
    let ghost before = digits@;
    digits.push(digit_to_char(m));
    proof {
        assert(rev_chars(digits@) =~= seq![digit_char(m as int)] + rev_chars(before));
        assert(dec_nat(n as nat) =~= rev_chars(digits@));
    }
    let count = digits.len();
    let mut r = String::new();
    let mut i: usize = 0;
    while i < count
        invariant
            count == digits@.len(),
            i <= count,
            r@ =~= rev_chars(digits@).subrange(0, i as int),
        decreases count - i,
    {
        push_char(&mut r, digits[count - 1 - i]);
        assert(r@ =~= rev_chars(digits@).subrange(0, i + 1));
        i += 1;
    }
    assert(r@ =~= rev_chars(digits@));
    r
}

/// The decimal rendering of a signed machine number.
pub fn i64_to_string(n: i64) -> (r: String)
    ensures
        r@ == dec_int(n as int),
{
    if n >= 0 {
        u64_to_string(n as u64)
    } else {
        let mag: u64 = if n == i64::MIN {
            0x8000_0000_0000_0000
        } else {
            (-n) as u64
        };
        let mut r = String::new();
        push_char(&mut r, '-');
        let tail = u64_to_string(mag);
        r.append(tail.as_str());
        assert(r@ =~= dec_int(n as int));
        r
    }
}

/// A signed machine number at width two with zero padding.
pub fn i64_to_string_pad2(n: i64) -> (r: String)
    ensures
        r@ == pad2_int(n as int),
{
    if 0 <= n && n <= 9 {
        let mut r = String::new();
        push_char(&mut r, '0');
        push_char(&mut r, digit_to_char(n as u64));
        assert(r@ =~= pad2_int(n as int));
        r
    } else {
        i64_to_string(n)
    }
}

/// The decimal rendering of a length.
pub fn usize_to_string(n: usize) -> (r: String)
    ensures
        r@ == dec_nat(n as nat),
{
    u64_to_string(n as u64)
}

// ---------------------------------------------------------------------------
// Parsing, with the standard library's `i64` grammar.
// ---------------------------------------------------------------------------

/// Whether `c` is one of the ten ASCII decimal digits.
pub open spec fn is_dec_digit(c: char) -> bool {
    48 <= c as u32 <= 57
}

/// The value of an ASCII decimal digit.
pub open spec fn digit_val(c: char) -> int {
    c as u32 - 48
}

/// Whether every character of `s` is an ASCII decimal digit.
pub open spec fn all_dec_digits(s: Seq<char>) -> bool {
    forall|i: int| 0 <= i < s.len() ==> is_dec_digit(s[i])
}

/// The value of a digit string, most significant digit first.
pub open spec fn digits_val(s: Seq<char>) -> int
    decreases s.len(),
{
    if s.len() == 0 {
        0
    } else {
        digits_val(s.drop_last()) * 10 + digit_val(s.last())
    }
}

/// What `str::parse::<i64>` makes of `s`, with 0 for anything it rejects:
/// an optional sign, then at least one digit, and a value within the
/// signed 64-bit range.
pub open spec fn parse_i64_or_zero_spec(s: Seq<char>) -> int {
    let signed = s.len() > 0 && (s[0] == '-' || s[0] == '+');
    let neg = s.len() > 0 && s[0] == '-';
    let ds = if signed {
        s.drop_first()
    } else {
        s
    };
    if ds.len() > 0 && all_dec_digits(ds) && (if neg {
        digits_val(ds) <= 0x8000_0000_0000_0000
    } else {
        digits_val(ds) <= 0x7fff_ffff_ffff_ffff
    }) {
        if neg {
            -digits_val(ds)
        } else {
            digits_val(ds)
        }
    } else {
        0
    }
}

/// A digit string's value never goes down as digits are appended.
proof fn lemma_digits_val_bounds(s: Seq<char>, j: int)
    requires
        all_dec_digits(s),
        0 <= j <= s.len(),
    ensures
        digits_val(s) >= digits_val(s.take(j)),
        digits_val(s.take(j)) >= 0,
    decreases s.len() - j,
{
    if j == s.len() {
        assert(s.take(j) =~= s);
        lemma_digits_val_nonneg(s);
    } else {
        lemma_digits_val_bounds(s, j + 1);
        assert(s.take(j + 1).drop_last() =~= s.take(j));
        assert(s.take(j + 1).last() == s[j]);
        lemma_digits_val_nonneg(s.take(j));
    }
}

/// A digit string's value is never negative.
proof fn lemma_digits_val_nonneg(s: Seq<char>)
    requires
        all_dec_digits(s),
    ensures
        digits_val(s) >= 0,
    decreases s.len(),
{
    if s.len() > 0 {
        assert(all_dec_digits(s.drop_last()));
        lemma_digits_val_nonneg(s.drop_last());
    }
}

/// What `str::parse::<i64>().unwrap_or(0)` returns for `s`.
pub fn parse_i64_or_zero(s: &str) -> (r: i64)
    ensures
        r as int == parse_i64_or_zero_spec(s@),
{
    let len = s.unicode_len();
    if len == 0 {
        return 0;
    }
    let first = s.get_char(0);
    let neg = first == '-';
    let signed = neg || first == '+';
    let start: usize = if signed {
        1
    } else {
        0
    };
    if start >= len {
        return 0;
    }
    let limit: u64 = if neg {
        0x8000_0000_0000_0000
    } else {
        0x7fff_ffff_ffff_ffff
    };
    let ghost ds = if signed {
        s@.drop_first()
    } else {
        s@
    };
    assert(ds.len() == len - start);
    assert(forall|k: int| 0 <= k < ds.len() ==> ds[k] == s@[start + k]);
    let mut acc: u64 = 0;
    let mut i = start;
    while i < len
        invariant
            len == s@.len(),
            start <= i <= len,
            start == (if signed {
                1int
            } else {
                0int
            }),
            neg == (s@.len() > 0 && s@[0] == '-'),
            signed == (s@.len() > 0 && (s@[0] == '-' || s@[0] == '+')),
            ds == (if signed {
                s@.drop_first()
            } else {
                s@
            }),
            ds.len() == len - start,
            forall|k: int| 0 <= k < ds.len() ==> ds[k] == s@[start + k],
            limit == (if neg {
                0x8000_0000_0000_0000u64
            } else {
                0x7fff_ffff_ffff_ffffu64
            }),
            all_dec_digits(ds.take(i - start)),
            acc as int == digits_val(ds.take(i - start)),
            acc <= limit,
        decreases len - i,
    {
        let c = s.get_char(i);
        let cv = c as u32;
        if cv < 48 || cv > 57 {
            assert(!is_dec_digit(ds[i - start]));
            assert(!all_dec_digits(ds));
            return 0;
        }
        let d = (cv - 48) as u64;
        if acc > limit / 10 || (acc == limit / 10 && d > limit % 10) {
            proof {
                assert(ds.take(i - start + 1).drop_last() =~= ds.take(i - start));
                assert(ds.take(i - start + 1).last() == ds[i - start]);
                assert(digits_val(ds.take(i - start + 1)) > limit);
                if all_dec_digits(ds) {
                    lemma_digits_val_bounds(ds, i - start + 1);
                    assert(digits_val(ds) > limit);
                }
            }
            return 0;
        }
        proof {
            assert(ds.take(i - start + 1).drop_last() =~= ds.take(i - start));
            assert(ds.take(i - start + 1).last() == ds[i - start]);
        }
        acc = acc * 10 + d;
        i += 1;
    }
    assert(ds.take(i - start) =~= ds);
    if neg {
        if acc == 0x8000_0000_0000_0000 {
            i64::MIN
        } else {
            -(acc as i64)
        }
    } else {
        acc as i64
    }
}

} // verus!
