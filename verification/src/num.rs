//! Decimal formatting and parsing of integers.
use vstd::prelude::*;
use crate::text::{char_from_ascii, char_is_ascii_digit, extend_chars, is_ascii_digit};

verus! {

/// The character of the decimal digit `d`.
pub open spec fn digit_char(d: int) -> char {
    (48 + d) as char
}

/// Decimal digits of a natural number, without leading zeros.
pub open spec fn nat_decimal(n: nat) -> Seq<char>
    decreases n,
{
    if n < 10 {
        seq![digit_char(n as int)]
    } else {
        nat_decimal(n / 10).push(digit_char((n % 10) as int))
    }
}

/// How `Display` writes an integer.
pub open spec fn int_decimal(i: int) -> Seq<char> {
    if i < 0 {
        seq!['-'] + nat_decimal((-i) as nat)
    } else {
        nat_decimal(i as nat)
    }
}

/// Decimal digits of `n`, at least `width` of them, padded with leading zeros
/// (`format!("{n:0width$}")` for a non-negative `n`).
pub open spec fn zero_padded(n: nat, width: nat) -> Seq<char> {
    let d = nat_decimal(n);
    if d.len() >= width {
        d
    } else {
        Seq::new((width - d.len()) as nat, |_i: int| '0') + d
    }
}

fn digit(d: u64) -> (c: char)
    requires
        d < 10,
    ensures
        c == digit_char(d as int),
{
    let c = char_from_code((d + 48) as u32);
    c
}

/// Turns a code point below 0x80 into its character.
pub fn char_from_code(u: u32) -> (c: char)
    requires
        u < 0x80,
    ensures
        c as u32 == u,
        c == u as char,
{
    char_from_ascii(u)
}

/// Appends the decimal digits of `n`.
pub fn push_decimal(v: &mut Vec<char>, n: u64)
    ensures
        final(v)@ == old(v)@ + nat_decimal(n as nat),
    decreases n,
{
    if n >= 10 {
        push_decimal(v, n / 10);
    }
    v.push(digit(n % 10));
}

/// Appends `i` written in decimal.
pub fn push_i64(v: &mut Vec<char>, i: i64)
    ensures
        final(v)@ == old(v)@ + int_decimal(i as int),
{
    if i < 0 {
        v.push('-');
        let m: u64 = ((-(i + 1)) as u64) + 1;
        push_decimal(v, m);
        assert(seq!['-'] + nat_decimal((-i) as nat) == seq!['-'] + nat_decimal(m as nat));
    } else {
        push_decimal(v, i as u64);
    }
}

/// `i.to_string()` as characters.
pub fn i64_chars(i: i64) -> (r: Vec<char>)
    ensures
        r@ == int_decimal(i as int),
{
    let mut v: Vec<char> = Vec::new();
    push_i64(&mut v, i);
    v
}

proof fn lemma_nat_decimal_len(n: nat)
    ensures
        nat_decimal(n).len() >= 1,
        n < 10 <==> nat_decimal(n).len() == 1,
    decreases n,
{
    if n >= 10 {
        lemma_nat_decimal_len(n / 10);
    }
}

/// Appends `n` in decimal, padded with zeros to at least `width` digits.
pub fn push_zero_padded(v: &mut Vec<char>, n: u64, width: usize)
    ensures
        final(v)@ == old(v)@ + zero_padded(n as nat, width as nat),
{
    let mut d: Vec<char> = Vec::new();
    push_decimal(&mut d, n);
    assert(d@ == nat_decimal(n as nat));
    let mut k: usize = d.len();
    let ghost start = v@;
    while k < width
        invariant
            d.len() <= k <= width || width < d.len() == k,
            v@ == start + Seq::new((k - d.len()) as nat, |_i: int| '0'),
        decreases width - k,
    {
        v.push('0');
        k += 1;
        assert(Seq::new((k - d.len()) as nat, |_i: int| '0') == Seq::new(
            (k - 1 - d.len()) as nat,
            |_i: int| '0',
        ).push('0'));
    }
    extend_chars(v, &d);
    proof {
        if d.len() >= width {
            assert(Seq::new((k - d.len()) as nat, |_i: int| '0') == Seq::<char>::empty());
        }
    }
}

// ---------------------------------------------------------------------------
// Parsing
// ---------------------------------------------------------------------------

pub open spec fn all_digits(s: Seq<char>) -> bool {
    forall|i: int| 0 <= i < s.len() ==> is_ascii_digit(#[trigger] s[i])
}

/// Value of a string of decimal digits.
pub open spec fn digits_value(s: Seq<char>) -> int
    decreases s.len(),
{
    if s.len() == 0 {
        0
    } else {
        digits_value(s.drop_last()) * 10 + ((s.last() as int) - 48)
    }
}

/// What `str::parse` of a signed integer type reads, before the range check:
/// an optional `+` or `-`, then one or more ASCII digits.
pub open spec fn parse_int(s: Seq<char>) -> Option<int> {
    if s.len() == 0 {
        None
    } else if s[0] == '+' || s[0] == '-' {
        let d = s.drop_first();
        if d.len() > 0 && all_digits(d) {
            Some(
                if s[0] == '-' {
                    -digits_value(d)
                } else {
                    digits_value(d)
                },
            )
        } else {
            None
        }
    } else if all_digits(s) {
        Some(digits_value(s))
    } else {
        None
    }
}

/// What `str::parse::<i64>().ok()` gives back.
pub open spec fn parse_i64_spec(s: Seq<char>) -> Option<i64> {
    match parse_int(s) {
        Some(v) => if i64::MIN <= v <= i64::MAX {
            Some(v as i64)
        } else {
            None
        },
        None => None,
    }
}

/// What `str::parse::<i32>().ok()` gives back.
pub open spec fn parse_i32_spec(s: Seq<char>) -> Option<i32> {
    match parse_int(s) {
        Some(v) => if i32::MIN <= v <= i32::MAX {
            Some(v as i32)
        } else {
            None
        },
        None => None,
    }
}

proof fn lemma_digits_value_nonneg(s: Seq<char>)
    requires
        all_digits(s),
    ensures
        digits_value(s) >= 0,
    decreases s.len(),
{
    if s.len() > 0 {
        assert(all_digits(s.drop_last()));
        lemma_digits_value_nonneg(s.drop_last());
        assert(is_ascii_digit(s[s.len() - 1]));
    }
}

const CAP: u128 = 0x8000_0000_0000_0001;

/// Reads the digits `v[from..]`, giving their value capped at `CAP`, or
/// `None` where some character is not a digit.
fn capped_digits(v: &Vec<char>, from: usize) -> (r: Option<u128>)
    requires
        from <= v.len(),
    ensures
        r is Some <==> all_digits(v@.skip(from as int)),
        r matches Some(x) ==> x == if digits_value(v@.skip(from as int)) < CAP {
            digits_value(v@.skip(from as int))
        } else {
            CAP as int
        },
{
    let ghost d = v@.skip(from as int);
    let mut val: u128 = 0;
    let mut i: usize = from;
    while i < v.len()
        invariant
            from <= i <= v.len(),
            d == v@.skip(from as int),
            all_digits(d.take(i - from)),
            digits_value(d.take(i - from)) >= 0,
            val == if digits_value(d.take(i - from)) < CAP {
                digits_value(d.take(i - from))
            } else {
                CAP as int
            },
        decreases v.len() - i,
    {
        let c = v[i];
        if !char_is_ascii_digit(c) {
            assert(d[i - from] == c);
            assert(!all_digits(d));
            return None;
        }
        let dig = (c as u32 - 48) as u128;
        let ghost prev = d.take(i - from);
        let ghost next = d.take(i + 1 - from);
        assert(next.drop_last() == prev);
        assert(next.last() == c);
        assert(digits_value(next) == digits_value(prev) * 10 + dig);
        if val >= CAP {
            assert(digits_value(prev) >= CAP);
            assert(digits_value(prev) * 10 + dig >= CAP) by (nonlinear_arith)
                requires
                    digits_value(prev) >= CAP,
                    dig >= 0,
            ;
            val = CAP;
        } else {
            assert(val * 10 + dig <= CAP * 10 + 9) by (nonlinear_arith)
                requires
                    val < CAP,
                    dig <= 9,
            ;
            let nv = val * 10 + dig;
            val = if nv >= CAP {
                CAP
            } else {
                nv
            };
        }
        assert(all_digits(next));
        i += 1;
    }
    assert(d.take(v.len() - from) == d);
    Some(val)
}

/// `str::parse::<i64>().ok()` on a character vector.
pub fn parse_i64_chars(v: &Vec<char>) -> (r: Option<i64>)
    ensures
        r == parse_i64_spec(v@),
{
    if v.len() == 0 {
        return None;
    }
    let first = v[0];
    if first == '+' || first == '-' {
        if v.len() == 1 {
            return None;
        }
        assert(v@.skip(1) == v@.drop_first());
        match capped_digits(v, 1) {
            None => None,
            Some(x) => {
                proof {
                    lemma_digits_value_nonneg(v@.drop_first());
                }
                if first == '-' {
                    if x <= 0x8000_0000_0000_0000 {
                        if x == 0x8000_0000_0000_0000 {
                            Some(i64::MIN)
                        } else {
                            Some(-(x as i64))
                        }
                    } else {
                        None
                    }
                } else if x <= 0x7fff_ffff_ffff_ffff {
                    Some(x as i64)
                } else {
                    None
                }
            },
        }
    } else {
        assert(v@.skip(0) == v@);
        match capped_digits(v, 0) {
            None => None,
            Some(x) => {
                proof {
                    lemma_digits_value_nonneg(v@);
                }
                if x <= 0x7fff_ffff_ffff_ffff {
                    Some(x as i64)
                } else {
                    None
                }
            },
        }
    }
}

/// `str::parse::<i32>().ok()` on a character vector.
pub fn parse_i32_chars(v: &Vec<char>) -> (r: Option<i32>)
    ensures
        r == parse_i32_spec(v@),
{
    match parse_i64_chars(v) {
        Some(x) => if -0x8000_0000 <= x && x <= 0x7fff_ffff {
            Some(x as i32)
        } else {
            None
        },
        None => {
            proof {
                if parse_int(v@) is Some {
                    let w = parse_int(v@).unwrap();
                    assert(!(i64::MIN <= w <= i64::MAX));
                }
            }
            None
        },
    }
}

proof fn lemma_nat_decimal_digits(n: nat)
    ensures
        nat_decimal(n).len() >= 1,
        all_digits(nat_decimal(n)),
        digits_value(nat_decimal(n)) == n,
    decreases n,
{
    if n >= 10 {
        lemma_nat_decimal_digits(n / 10);
        let d = nat_decimal(n);
        assert(d.drop_last() == nat_decimal(n / 10));
        assert(d.last() == digit_char((n % 10) as int));
        assert((digit_char((n % 10) as int) as int) - 48 == n % 10);
        assert(n == (n / 10) * 10 + n % 10);
        assert(digits_value(d) == digits_value(d.drop_last()) * 10 + ((d.last() as int) - 48));
        assert forall|i: int| 0 <= i < d.len() implies is_ascii_digit(#[trigger] d[i]) by {
            if i < d.len() - 1 {
                assert(d[i] == nat_decimal(n / 10)[i]);
            }
        }
    } else {
        let d = nat_decimal(n);
        assert(d.drop_last().len() == 0);
        assert(digits_value(d.drop_last()) == 0);
        assert((digit_char(n as int) as int) - 48 == n);
    }
}

/// Reading back what `Display` wrote for an `i64` gives the same number.
pub proof fn parse_decimal_round_trip(i: i64)
    ensures
        parse_i64_spec(int_decimal(i as int)) == Some(i),
{
    if i < 0 {
        let m = (-(i as int)) as nat;
        lemma_nat_decimal_digits(m);
        let s = int_decimal(i as int);
        assert(s.drop_first() == nat_decimal(m));
    } else {
        lemma_nat_decimal_digits(i as nat);
        let s = nat_decimal(i as nat);
        assert(is_ascii_digit(s[0]));
    }
}

/// `Display` writes an integer as one or more digits, after a minus sign
/// for a negative one.
pub proof fn lemma_int_decimal_chars(i: int)
    ensures
        int_decimal(i).len() >= 1,
        forall|k: int|
            0 <= k < int_decimal(i).len() ==> is_ascii_digit(#[trigger] int_decimal(i)[k])
                || int_decimal(i)[k] == '-',
{
    if i < 0 {
        lemma_nat_decimal_digits((-i) as nat);
        let d = nat_decimal((-i) as nat);
        assert forall|k: int| 0 <= k < int_decimal(i).len() implies is_ascii_digit(
            #[trigger] int_decimal(i)[k],
        ) || int_decimal(i)[k] == '-' by {
            if k > 0 {
                assert(int_decimal(i)[k] == d[k - 1]);
            }
        }
    } else {
        lemma_nat_decimal_digits(i as nat);
    }
}

} // verus!
