//! Decimal rendering of unsigned integers, as used in every label of the views.
use vstd::prelude::*;

verus! {

/// The ten decimal digits, in order of value.
pub open spec fn digit_chars() -> Seq<char> {
    seq!['0', '1', '2', '3', '4', '5', '6', '7', '8', '9']
}

/// The character of the digit `d` (for `d < 10`).
pub open spec fn digit_char(d: nat) -> char {
    digit_chars()[d as int]
}

/// Whether `c` is one of the ten decimal digits.
pub open spec fn is_digit(c: char) -> bool {
    digit_chars().contains(c)
}

/// The value of a decimal digit character.
pub open spec fn digit_value(c: char) -> nat {
    if c == '0' { 0 }
    else if c == '1' { 1 }
    else if c == '2' { 2 }
    else if c == '3' { 3 }
    else if c == '4' { 4 }
    else if c == '5' { 5 }
    else if c == '6' { 6 }
    else if c == '7' { 7 }
    else if c == '8' { 8 }
    else { 9 }
}

/// The number that a string of decimal digits denotes, most significant digit first.
pub open spec fn digits_value(s: Seq<char>) -> nat
    decreases s.len(),
{
    if s.len() == 0 {
        0
    } else {
        digits_value(s.drop_last()) * 10 + digit_value(s.last())
    }
}

/// The shortest decimal representation of `n`, as `Display` (and `Debug`) write it.
pub open spec fn decimal(n: nat) -> Seq<char>
    decreases n,
{
    if n < 10 {
        seq![digit_char(n)]
    } else {
        decimal(n / 10).push(digit_char(n % 10))
    }
}

/// The character of each digit denotes that digit.
proof fn lemma_digit_char_value(d: nat)
    requires
        d < 10,
    ensures
        digit_value(digit_char(d)) == d,
        is_digit(digit_char(d)),
{
    assert(digit_chars()[d as int] == digit_char(d));
    if d == 0 {} else if d == 1 {} else if d == 2 {} else if d == 3 {} else if d == 4 {}
    else if d == 5 {} else if d == 6 {} else if d == 7 {} else if d == 8 {} else {}
}

/// The decimal representation of a number is a non-empty string of digits, with no
/// leading zero unless the number is zero itself, and it denotes that number.
pub proof fn lemma_decimal_round_trip(n: nat)
    ensures
        decimal(n).len() >= 1,
        forall|i: int| 0 <= i < decimal(n).len() ==> is_digit(#[trigger] decimal(n)[i]),
        decimal(n)[0] == '0' <==> n == 0,
        digits_value(decimal(n)) == n,
    decreases n,
{
    lemma_digit_char_value(n % 10);
    if n < 10 {
        assert(decimal(n) =~= seq![digit_char(n)]);
        assert(decimal(n).drop_last() =~= Seq::<char>::empty());
        assert(n % 10 == n);
        assert(digits_value(decimal(n)) == digits_value(Seq::<char>::empty()) * 10 + digit_value(digit_char(n)));
    } else {
        lemma_decimal_round_trip(n / 10);
        let d = decimal(n);
        let p = decimal(n / 10);
        assert(d == p.push(digit_char(n % 10)));
        assert(d.drop_last() =~= p);
        assert forall|i: int| 0 <= i < d.len() implies is_digit(#[trigger] d[i]) by {
            if i < p.len() {
                assert(d[i] == p[i]);
            }
        }
        assert(d[0] == p[0]);
        assert(digits_value(d) == digits_value(p) * 10 + digit_value(digit_char(n % 10)));
        assert((n / 10) * 10 + n % 10 == n);
        assert(n / 10 != 0);
    }
}

/// Two numbers with the same decimal representation are equal.
pub proof fn lemma_decimal_injective(a: nat, b: nat)
    requires
        decimal(a) == decimal(b),
    ensures
        a == b,
{
    lemma_decimal_round_trip(a);
    lemma_decimal_round_trip(b);
}

/// A text made of `prefix` and then the decimal representation of `n` starts with
/// `prefix`, and what follows is a non-empty digit string without a leading zero (unless
/// `n` is zero) that denotes `n`.
pub proof fn lemma_prefixed_decimal(prefix: Seq<char>, n: nat)
    ensures
        ({
            let s = prefix + decimal(n);
            &&& s.len() == prefix.len() + decimal(n).len()
            &&& s.len() > prefix.len()
            &&& s.take(prefix.len() as int) == prefix
            &&& s.skip(prefix.len() as int) == decimal(n)
            &&& forall|i: int| prefix.len() <= i < s.len() ==> is_digit(#[trigger] s[i])
            &&& (s[prefix.len() as int] == '0' <==> n == 0)
            &&& digits_value(s.skip(prefix.len() as int)) == n
        }),
{
    lemma_decimal_round_trip(n);
    let s = prefix + decimal(n);
    assert(s.take(prefix.len() as int) =~= prefix);
    assert(s.skip(prefix.len() as int) =~= decimal(n));
    assert forall|i: int| prefix.len() <= i < s.len() implies is_digit(#[trigger] s[i]) by {
        assert(s[i] == decimal(n)[i - prefix.len()]);
    }
    assert(s[prefix.len() as int] == decimal(n)[0]);
}

/// The one-character string of the digit `d`.
fn digit_str(d: usize) -> (s: &'static str)
    requires
        d < 10,
    ensures
        s@ == seq![digit_char(d as nat)],
{
    if d == 0 {
        proof { reveal_strlit("0"); }
        "0"
    } else if d == 1 {
        proof { reveal_strlit("1"); }
        "1"
    } else if d == 2 {
        proof { reveal_strlit("2"); }
        "2"
    } else if d == 3 {
        proof { reveal_strlit("3"); }
        "3"
    } else if d == 4 {
        proof { reveal_strlit("4"); }
        "4"
    } else if d == 5 {
        proof { reveal_strlit("5"); }
        "5"
    } else if d == 6 {
        proof { reveal_strlit("6"); }
        "6"
    } else if d == 7 {
        proof { reveal_strlit("7"); }
        "7"
    } else if d == 8 {
        proof { reveal_strlit("8"); }
        "8"
    } else {
        proof { reveal_strlit("9"); }
        "9"
    }
}

/// Appends the decimal representation of `n` to `out`.
pub fn push_decimal(out: &mut String, n: usize)
    ensures
        final(out)@ == old(out)@ + decimal(n as nat),
    decreases n,
{
    if n >= 10 {
        push_decimal(out, n / 10);
    }
    let d = digit_str(n % 10);
    out.append(d);
    proof {
        if n >= 10 {
            assert(decimal(n as nat) == decimal((n / 10) as nat).push(digit_char((n % 10) as nat)));
        } else {
            assert(n % 10 == n);
        }
    }
}

/// The decimal representation of `n`, as `n.to_string()` gives it.
pub fn format_decimal(n: usize) -> (s: String)
    ensures
        s@ == decimal(n as nat),
        s@.len() >= 1,
        forall|i: int| 0 <= i < s@.len() ==> is_digit(#[trigger] s@[i]),
        s@[0] == '0' <==> n == 0,
        digits_value(s@) == n,
{
    let mut s = String::new();
    push_decimal(&mut s, n);
    proof { lemma_decimal_round_trip(n as nat); }
    s
}

} // verus!
