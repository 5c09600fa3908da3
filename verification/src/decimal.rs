//! Decimal numbers as text: reading them and writing them.

use vstd::prelude::*;
use vstd::string::*;

verus! {

pub open spec fn is_digit(c: char) -> bool {
    '0' <= c && c <= '9'
}

pub open spec fn digit_value(c: char) -> int {
    c as int - 48
}

pub open spec fn digit_char(d: int) -> char {
    (48 + d) as u8 as char
}

pub open spec fn all_digits(s: Seq<char>) -> bool {
    forall|i: int| 0 <= i < s.len() ==> is_digit(#[trigger] s[i])
}

/// The number that the decimal digits `s` write, most significant first.
pub open spec fn digits_value(s: Seq<char>) -> int
    decreases s.len(),
{
    if s.len() == 0 {
        0
    } else {
        digits_value(s.drop_last()) * 10 + digit_value(s.last())
    }
}

/// An unsigned decimal number: an optional `+`, then one digit or more.
pub open spec fn parse_nat(s: Seq<char>) -> Option<int> {
    let body = if s.len() > 0 && s[0] == '+' {
        s.drop_first()
    } else {
        s
    };
    if body.len() > 0 && all_digits(body) {
        Some(digits_value(body))
    } else {
        None
    }
}

/// A signed decimal number: an optional `+` or `-`, then one digit or more.
pub open spec fn parse_int(s: Seq<char>) -> Option<int> {
    if s.len() > 0 && s[0] == '-' {
        let body = s.drop_first();
        if body.len() > 0 && all_digits(body) {
            Some(-digits_value(body))
        } else {
            None
        }
    } else {
        parse_nat(s)
    }
}

/// `parse_int(s)` where it lies in `lo..=hi`.
pub open spec fn parse_int_in(s: Seq<char>, lo: int, hi: int) -> Option<int> {
    match parse_int(s) {
        Some(v) => if lo <= v <= hi {
            Some(v)
        } else {
            None
        },
        None => None,
    }
}

/// `parse_nat(s)` where it is at most `hi`.
pub open spec fn parse_nat_upto(s: Seq<char>, hi: int) -> Option<int> {
    match parse_nat(s) {
        Some(v) => if v <= hi {
            Some(v)
        } else {
            None
        },
        None => None,
    }
}

/// The decimal digits of `n`, without leading zeros.
pub open spec fn nat_to_decimal(n: nat) -> Seq<char>
    decreases n,
{
    if n < 10 {
        seq![digit_char(n as int)]
    } else {
        nat_to_decimal(n / 10).push(digit_char((n % 10) as int))
    }
}

/// The decimal text of `i`, with `-` in front where it is negative.
pub open spec fn int_to_decimal(i: int) -> Seq<char> {
    if i < 0 {
        seq!['-'] + nat_to_decimal((-i) as nat)
    } else {
        nat_to_decimal(i as nat)
    }
}

pub proof fn lemma_digits_value_bounds(s: Seq<char>)
    requires
        all_digits(s),
    ensures
        0 <= digits_value(s),
    decreases s.len(),
{
    if s.len() > 0 {
        let t = s.drop_last();
        assert forall|i: int| 0 <= i < t.len() implies is_digit(#[trigger] t[i]) by {
            assert(t[i] == s[i]);
        }
        lemma_digits_value_bounds(t);
        assert(is_digit(s[s.len() - 1]));
    }
}

/// A number is at least what any prefix of its digits writes.
pub proof fn lemma_digits_value_prefix(s: Seq<char>, k: int)
    requires
        all_digits(s),
        0 <= k <= s.len(),
    ensures
        digits_value(s.take(k)) <= digits_value(s),
    decreases s.len() - k,
{
    if k == s.len() {
        assert(s.take(k) == s);
    } else {
        let t = s.drop_last();
        assert forall|i: int| 0 <= i < t.len() implies is_digit(#[trigger] t[i]) by {
            assert(t[i] == s[i]);
        }
        lemma_digits_value_prefix(t, k);
        assert(t.take(k) == s.take(k));
        lemma_digits_value_bounds(t);
        assert(is_digit(s[s.len() - 1]));
    }
}

/// The digits `v[from..]`, read as a number no greater than `cap`.
pub fn parse_digits(v: &Vec<char>, from: usize, cap: u64) -> (r: Option<u64>)
    requires
        from <= v.len(),
    ensures
        r is Some <==> v@.skip(from as int).len() > 0 && all_digits(v@.skip(from as int))
            && digits_value(v@.skip(from as int)) <= cap,
        r is Some ==> r.unwrap() == digits_value(v@.skip(from as int)),
{
    let ghost body = v@.skip(from as int);
    if from == v.len() {
        return None;
    }
    let mut acc: u64 = 0;
    let mut i: usize = from;
    while i < v.len()
        invariant
            from <= i <= v.len(),
            body == v@.skip(from as int),
            all_digits(body.take(i - from)),
            acc == digits_value(body.take(i - from)),
            acc <= cap,
        decreases v.len() - i,
    {
        let c = v[i];
        proof {
            assert(body[i - from] == c);
            assert(body.take(i - from + 1).drop_last() == body.take(i - from));
            assert(body.take(i - from + 1).last() == c);
        }
        if !(c >= '0' && c <= '9') {
            return None;
        }
        let d: u64 = (c as u32 - 48) as u64;
        let next: u128 = acc as u128 * 10 + d as u128;
        proof {
            assert forall|k: int| 0 <= k < body.take(i - from + 1).len() implies is_digit(
                #[trigger] body.take(i - from + 1)[k],
            ) by {
                if k < i - from {
                    assert(body.take(i - from)[k] == body.take(i - from + 1)[k]);
                }
            }
            assert(next == digits_value(body.take(i - from + 1)));
        }
        if next > cap as u128 {
            proof {
                if all_digits(body) {
                    lemma_digits_value_prefix(body, i - from + 1);
                }
            }
            return None;
        }
        acc = next as u64;
        i += 1;
    }
    proof {
        assert(body.take(i - from) == body);
    }
    Some(acc)
}

/// Reads an unsigned decimal number, as `str::parse::<u64>` does.
pub fn parse_unsigned(v: &Vec<char>) -> (r: Option<u64>)
    ensures
        r is Some <==> parse_nat_upto(v@, u64::MAX as int) is Some,
        r is Some ==> r.unwrap() == parse_nat_upto(v@, u64::MAX as int).unwrap(),
{
    let from: usize = if v.len() > 0 && v[0] == '+' {
        1
    } else {
        0
    };
    proof {
        assert(v@.skip(0) == v@);
        assert(v@.skip(1) == v@.drop_first());
    }
    parse_digits(v, from, u64::MAX)
}

/// Reads a signed decimal number that lies in `lo..=hi`.
pub fn parse_signed(v: &Vec<char>, lo: i64, hi: i64) -> (r: Option<i64>)
    ensures
        r is Some <==> parse_int_in(v@, lo as int, hi as int) is Some,
        r is Some ==> r.unwrap() == parse_int_in(v@, lo as int, hi as int).unwrap(),
{
    let negative = v.len() > 0 && v[0] == '-';
    let from: usize = if v.len() > 0 && (v[0] == '-' || v[0] == '+') {
        1
    } else {
        0
    };
    proof {
        assert(v@.skip(0) == v@);
        assert(v@.skip(1) == v@.drop_first());
    }
    match parse_digits(v, from, 0x8000_0000_0000_0000u64) {
        None => None,
        Some(m) => {
            let value: i128 = if negative {
                -(m as i128)
            } else {
                m as i128
            };
            if lo as i128 <= value && value <= hi as i128 {
                Some(value as i64)
            } else {
                None
            }
        },
    }
}

/// Appends the decimal digits of `n` to `out`.
pub fn push_nat(out: &mut String, n: u64)
    ensures
        final(out)@ == old(out)@ + nat_to_decimal(n as nat),
    decreases n,
{
    if n >= 10 {
        push_nat(out, n / 10);
    }
    let d: u8 = (n % 10) as u8;
    let c: char = (48u8 + d) as char;
    out.push(c);
    proof {
        if n >= 10 {
            assert(old(out)@ + nat_to_decimal((n / 10) as nat).push(c) == (old(out)@
                + nat_to_decimal((n / 10) as nat)).push(c));
        } else {
            assert(old(out)@ + seq![c] == old(out)@.push(c));
        }
    }
}

/// Appends the decimal text of `i` to `out`.
pub fn push_int(out: &mut String, i: i64)
    ensures
        final(out)@ == old(out)@ + int_to_decimal(i as int),
{
    if i < 0 {
        out.push('-');
        let m: u64 = if i == i64::MIN {
            0x8000_0000_0000_0000u64
        } else {
            (-i) as u64
        };
        push_nat(out, m);
        proof {
            assert(old(out)@.push('-') + nat_to_decimal(m as nat) == old(out)@ + (seq!['-']
                + nat_to_decimal(m as nat)));
        }
    } else {
        push_nat(out, i as u64);
    }
}

/// What `nat_to_decimal` writes is made of digits and writes `n`.
pub proof fn lemma_decimal_digits(n: nat)
    ensures
        nat_to_decimal(n).len() > 0,
        all_digits(nat_to_decimal(n)),
        digits_value(nat_to_decimal(n)) == n,
    decreases n,
{
    let s = nat_to_decimal(n);
    if n < 10 {
        assert(s.drop_last() == Seq::<char>::empty());
        assert(digits_value(s.drop_last()) == 0);
    } else {
        lemma_decimal_digits(n / 10);
        let t = nat_to_decimal(n / 10);
        assert(s.drop_last() == t);
        assert forall|i: int| 0 <= i < s.len() implies is_digit(#[trigger] s[i]) by {
            if i < t.len() {
                assert(s[i] == t[i]);
            }
        }
    }
}

/// Reading what was written gives the number back.
pub proof fn lemma_parse_decimal(i: int)
    ensures
        parse_int(int_to_decimal(i)) == Some(i),
        i >= 0 ==> parse_nat(int_to_decimal(i)) == Some(i),
{
    if i < 0 {
        let m = (-i) as nat;
        lemma_decimal_digits(m);
        let s = int_to_decimal(i);
        assert(s[0] == '-');
        assert(s.drop_first() == nat_to_decimal(m));
    } else {
        lemma_decimal_digits(i as nat);
        let s = nat_to_decimal(i as nat);
        assert(is_digit(s[0]));
    }
}

} // verus!
