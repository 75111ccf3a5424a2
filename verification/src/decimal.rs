//! Decimal text of integers, as it is spliced into SQL text.

use vstd::prelude::*;
use vstd::string::StringExecFns;

verus! {

/// The character of one decimal digit.
pub open spec fn digit_char(d: int) -> char
    recommends
        0 <= d < 10,
{
    seq!['0', '1', '2', '3', '4', '5', '6', '7', '8', '9'][d]
}

/// The decimal digits of a natural number, most significant first, without
/// leading zeros.
pub open spec fn natural_text(n: nat) -> Seq<char>
    decreases n,
{
    if n < 10 {
        seq![digit_char(n as int)]
    } else {
        natural_text(n / 10).push(digit_char((n % 10) as int))
    }
}

/// The decimal text of an integer: a minus sign for a negative number, then
/// the digits of its magnitude.
pub open spec fn decimal_text(n: int) -> Seq<char> {
    if n < 0 {
        seq!['-'] + natural_text((-n) as nat)
    } else {
        natural_text(n as nat)
    }
}

/// Whether a character is a decimal digit.
pub open spec fn is_digit(c: char) -> bool {
    exists|d: int| 0 <= d < 10 && c == digit_char(d)
}

/// Every character of the digits of a natural number is a decimal digit.
pub proof fn lemma_natural_text_digits(n: nat)
    ensures
        natural_text(n).len() >= 1,
        forall|i: int| 0 <= i < natural_text(n).len() ==> is_digit(#[trigger] natural_text(n)[i]),
    decreases n,
{
    if n < 10 {
        assert(is_digit(digit_char(n as int)));
    } else {
        lemma_natural_text_digits(n / 10);
        assert(is_digit(digit_char((n % 10) as int)));
    }
}

/// Different natural numbers have different digits.
pub proof fn lemma_natural_text_injective(a: nat, b: nat)
    requires
        natural_text(a) == natural_text(b),
    ensures
        a == b,
    decreases a,
{
    lemma_natural_text_digits(a / 10);
    lemma_natural_text_digits(b / 10);
    if a < 10 && b < 10 {
        assert(natural_text(a)[0] == digit_char(a as int));
        assert(natural_text(b)[0] == digit_char(b as int));
    } else if a >= 10 && b >= 10 {
        let high_a = natural_text(a / 10);
        let high_b = natural_text(b / 10);
        assert(high_a.push(digit_char((a % 10) as int)).last() == high_b.push(
            digit_char((b % 10) as int),
        ).last());
        assert(high_a =~= natural_text(a).drop_last());
        assert(high_b =~= natural_text(b).drop_last());
        lemma_natural_text_injective(a / 10, b / 10);
    } else if a < 10 {
        assert(natural_text(a).len() == 1);
        assert(natural_text(b).len() == natural_text(b / 10).len() + 1);
    } else {
        assert(natural_text(b).len() == 1);
        assert(natural_text(a).len() == natural_text(a / 10).len() + 1);
    }
}

/// Different integers have different decimal texts: an id in a statement
/// stands for itself and for no other id.
pub proof fn lemma_decimal_text_injective(a: int, b: int)
    requires
        decimal_text(a) == decimal_text(b),
    ensures
        a == b,
{
    let magnitude_a = (if a < 0 { -a } else { a }) as nat;
    let magnitude_b = (if b < 0 { -b } else { b }) as nat;
    lemma_natural_text_digits(magnitude_a);
    lemma_natural_text_digits(magnitude_b);
    if a < 0 && b < 0 {
        assert(natural_text(magnitude_a) =~= decimal_text(a).subrange(1, decimal_text(a).len() as int));
        assert(natural_text(magnitude_b) =~= decimal_text(b).subrange(1, decimal_text(b).len() as int));
        lemma_natural_text_injective(magnitude_a, magnitude_b);
    } else if a >= 0 && b >= 0 {
        lemma_natural_text_injective(magnitude_a, magnitude_b);
    } else if a < 0 {
        assert(decimal_text(a)[0] == '-');
        assert(is_digit(natural_text(magnitude_b)[0]));
    } else {
        assert(decimal_text(b)[0] == '-');
        assert(is_digit(natural_text(magnitude_a)[0]));
    }
}

/// The text of one digit.
fn digit_text(d: u32) -> (s: &'static str)
    requires
        d < 10,
    ensures
        s@ == seq![digit_char(d as int)],
{
    proof {
        reveal_strlit("0");
        reveal_strlit("1");
        reveal_strlit("2");
        reveal_strlit("3");
        reveal_strlit("4");
        reveal_strlit("5");
        reveal_strlit("6");
        reveal_strlit("7");
        reveal_strlit("8");
        reveal_strlit("9");
    }
    let s = if d == 0 {
        "0"
    } else if d == 1 {
        "1"
    } else if d == 2 {
        "2"
    } else if d == 3 {
        "3"
    } else if d == 4 {
        "4"
    } else if d == 5 {
        "5"
    } else if d == 6 {
        "6"
    } else if d == 7 {
        "7"
    } else if d == 8 {
        "8"
    } else {
        "9"
    };
    assert(s@ =~= seq![digit_char(d as int)]);
    s
}

/// Appends the digits of `n` to `out`.
pub fn append_natural(out: &mut String, n: u32)
    ensures
        final(out)@ == old(out)@ + natural_text(n as nat),
    decreases n,
{
    if n >= 10 {
        append_natural(out, n / 10);
    }
    out.append(digit_text(n % 10));
    assert(out@ =~= old(out)@ + natural_text(n as nat));
}

/// Appends the decimal text of `n` to `out`.
pub fn append_decimal(out: &mut String, n: i32)
    ensures
        final(out)@ == old(out)@ + decimal_text(n as int),
{
    if n < 0 {
        proof {
            reveal_strlit("-");
        }
        out.append("-");
        let magnitude: i64 = -(n as i64);
        append_natural(out, magnitude as u32);
        assert(out@ =~= old(out)@ + decimal_text(n as int));
    } else {
        append_natural(out, n as u32);
    }
}

} // verus!
