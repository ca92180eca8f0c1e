//! Decimal rendering of signed 64-bit identifiers, as the request URLs carry
//! them.

use vstd::prelude::*;

verus! {

/// The character for one decimal digit.
pub open spec fn spec_digit_char(d: int) -> char {
    if d == 0 {
        '0'
    } else if d == 1 {
        '1'
    } else if d == 2 {
        '2'
    } else if d == 3 {
        '3'
    } else if d == 4 {
        '4'
    } else if d == 5 {
        '5'
    } else if d == 6 {
        '6'
    } else if d == 7 {
        '7'
    } else if d == 8 {
        '8'
    } else {
        '9'
    }
}

/// The decimal digits of a non-negative integer, most significant first.
pub open spec fn spec_nat_dec(n: int) -> Seq<char>
    decreases n,
{
    if n < 10 {
        seq![spec_digit_char(n)]
    } else {
        spec_nat_dec(n / 10).push(spec_digit_char(n % 10))
    }
}

/// The decimal rendering of a signed value: a minus sign, where negative,
/// before the digits of its magnitude.
pub open spec fn spec_i64_dec(n: int) -> Seq<char> {
    if n < 0 {
        seq!['-'] + spec_nat_dec(-n)
    } else {
        spec_nat_dec(n)
    }
}

/// Every character of `spec_nat_dec` is a decimal digit.
pub open spec fn is_dec_char(c: char) -> bool {
    c == '0' || c == '1' || c == '2' || c == '3' || c == '4' || c == '5' || c == '6' || c == '7'
        || c == '8' || c == '9'
}

pub proof fn lemma_nat_dec_chars(n: int)
    ensures
        forall|i: int|
            0 <= i < spec_nat_dec(n).len() ==> is_dec_char(#[trigger] spec_nat_dec(n)[i]),
    decreases n,
{
    if n < 10 {
    } else {
        lemma_nat_dec_chars(n / 10);
        assert forall|i: int|
            0 <= i < spec_nat_dec(n).len() implies is_dec_char(
            #[trigger] spec_nat_dec(n)[i],
        ) by {
            if i < spec_nat_dec(n / 10).len() {
                assert(spec_nat_dec(n)[i] == spec_nat_dec(n / 10)[i]);
            } else {
                assert(spec_nat_dec(n)[i] == spec_digit_char(n % 10));
            }
        }
    }
}

/// Every character of `spec_i64_dec` is a decimal digit or the minus sign.
pub proof fn lemma_i64_dec_chars(n: int)
    ensures
        forall|i: int|
            0 <= i < spec_i64_dec(n).len() ==> is_dec_char(#[trigger] spec_i64_dec(n)[i])
                || spec_i64_dec(n)[i] == '-',
{
    lemma_nat_dec_chars(n);
    lemma_nat_dec_chars(-n);
}

fn append_digit(s: &mut String, d: u64)
    requires
        d < 10,
    ensures
        final(s)@ == old(s)@ + seq![spec_digit_char(d as int)],
{
    proof {
        reveal_strlit("0");
        reveal_strlit("1");
        reveal_strlit("2");
        reveal_strlit("3");
        reveal_strlit("4");
        reveal_strlit("5");
        reveal_strlit("6");
        reveal_strlit("7");
        reveal_strlit("8");
        reveal_strlit("9");
    }
    if d == 0 {
        s.append("0");
        assert(("0")@ =~= seq![spec_digit_char(0)]);
    } else if d == 1 {
        s.append("1");
        assert(("1")@ =~= seq![spec_digit_char(1)]);
    } else if d == 2 {
        s.append("2");
        assert(("2")@ =~= seq![spec_digit_char(2)]);
    } else if d == 3 {
        s.append("3");
        assert(("3")@ =~= seq![spec_digit_char(3)]);
    } else if d == 4 {
        s.append("4");
        assert(("4")@ =~= seq![spec_digit_char(4)]);
    } else if d == 5 {
        s.append("5");
        assert(("5")@ =~= seq![spec_digit_char(5)]);
    } else if d == 6 {
        s.append("6");
        assert(("6")@ =~= seq![spec_digit_char(6)]);
    } else if d == 7 {
        s.append("7");
        assert(("7")@ =~= seq![spec_digit_char(7)]);
    } else if d == 8 {
        s.append("8");
        assert(("8")@ =~= seq![spec_digit_char(8)]);
    } else {
        s.append("9");
        assert(("9")@ =~= seq![spec_digit_char(9)]);
    }
}

fn append_u64_dec(s: &mut String, m: u64)
    ensures
        final(s)@ == old(s)@ + spec_nat_dec(m as int),
    decreases m,
{
    if m >= 10 {
        append_u64_dec(s, m / 10);
        append_digit(s, m % 10);
        assert(s@ =~= old(s)@ + spec_nat_dec(m as int));
    } else {
        append_digit(s, m);
    }
}

/// Appends the decimal rendering of `n` to `s`.
pub fn append_i64_dec(s: &mut String, n: i64)
    ensures
        final(s)@ == old(s)@ + spec_i64_dec(n as int),
{
    if n >= 0 {
        append_u64_dec(s, n as u64);
    } else {
        s.append("-");
        let m: u64 = ((-(n + 1)) as u64) + 1;
        assert(m as int == -(n as int));
        append_u64_dec(s, m);
        proof {
            reveal_strlit("-");
        }
        assert(s@ =~= old(s)@ + spec_i64_dec(n as int));
    }
}

} // verus!
