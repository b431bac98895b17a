//! Numbers as text.
use vstd::arithmetic::div_mod::lemma_div_denominator;
use vstd::arithmetic::power::{lemma_pow_positive, pow};
use vstd::prelude::*;
use vstd::string::*;

verus! {

/// The decimal digit `d`, for `d` below ten.
pub open spec fn decimal_digit(d: nat) -> char {
    ('0' as u32 + d) as char
}

/// `n` in decimal, most significant digit first, without leading zeros.
pub open spec fn decimal(n: nat) -> Seq<char>
    decreases n,
{
    if n < 10 {
        seq![decimal_digit(n)]
    } else {
        decimal(n / 10).push(decimal_digit(n % 10))
    }
}

fn digit_text(d: u64) -> (r: &'static str)
    requires
        d < 10,
    ensures
        r@ == seq![decimal_digit(d as nat)],
{
    proof {
        reveal_strlit("0");
        reveal_strlit("1");
        reveal_strlit("2");
        reveal_strlit("3");
        reveal_strlit("4");
        reveal_strlit("5");
        reveal_strlit("6");
        reveal_strlit("7");
        reveal_strlit("8");
        reveal_strlit("9");
    }
    match d {
        0 => "0",
        1 => "1",
        2 => "2",
        3 => "3",
        4 => "4",
        5 => "5",
        6 => "6",
        7 => "7",
        8 => "8",
        _ => "9",
    }
}

/// `n` in decimal.
pub fn decimal_text(n: u64) -> (r: String)
    ensures
        r@ == decimal(n as nat),
    decreases n,
{
    if n < 10 {
        digit_text(n).to_owned()
    } else {
        let mut r = decimal_text(n / 10);
        r.append(digit_text(n % 10));
        r
    }
}

/// Different numbers have different decimal texts.
pub proof fn decimal_is_injective(a: nat, b: nat)
    requires
        decimal(a) == decimal(b),
    ensures
        a == b,
    decreases a,
{
    lemma_decimal_not_empty(a / 10);
    lemma_decimal_not_empty(b / 10);
    assert(decimal(a).last() == decimal_digit(a % 10));
    assert(decimal(b).last() == decimal_digit(b % 10));
    assert(decimal_digit(a % 10) as nat == 48 + a % 10);
    assert(decimal_digit(b % 10) as nat == 48 + b % 10);
    if a < 10 {
        assert(decimal(a).len() == 1);
        assert(b < 10);
    } else {
        assert(decimal(a).len() > 1);
        assert(b >= 10);
        assert(decimal(a).drop_last() =~= decimal(a / 10));
        assert(decimal(b).drop_last() =~= decimal(b / 10));
        decimal_is_injective(a / 10, b / 10);
    }
}

proof fn lemma_decimal_not_empty(n: nat)
    ensures
        decimal(n).len() > 0,
    decreases n,
{
    if n >= 10 {
        lemma_decimal_not_empty(n / 10);
    }
}

/// The decimal text of a number is what everybody reads as that number: the digit at each place
/// is the one that the power of ten of that place calls for, and there are as many places as
/// the number needs.
pub proof fn decimal_digits_are_right(n: nat)
    ensures
        decimal(n).len() >= 1,
        n < pow(10, decimal(n).len()),
        decimal(n).len() > 1 ==> pow(10, (decimal(n).len() - 1) as nat) <= n,
        forall|i: int|
            0 <= i < decimal(n).len() ==> (#[trigger] decimal(n)[i]) as int == 48 + (n as int
                / pow(10, (decimal(n).len() - 1 - i) as nat)) % 10,
    decreases n,
{
    reveal(pow);
    let len = decimal(n).len();
    assert(pow(10, 0) == 1);
    assert(pow(10, 1) == 10 * pow(10, 0));
    if n >= 10 {
        let front = decimal(n / 10);
        decimal_digits_are_right(n / 10);
        assert(decimal(n) == front.push(decimal_digit(n % 10)));
        assert(pow(10, len) == 10 * pow(10, (len - 1) as nat));
        if front.len() > 1 {
            assert(pow(10, (len - 1) as nat) == 10 * pow(10, (len - 2) as nat));
        }
        assert forall|i: int| 0 <= i < len implies (#[trigger] decimal(n)[i]) as int == 48 + (
        n as int / pow(10, (len - 1 - i) as nat)) % 10 by {
            if i == len - 1 {
                assert(decimal(n)[i] as nat == 48 + n % 10);
            } else {
                let k = (len - 2 - i) as nat;
                assert(decimal(n)[i] == front[i]);
                assert((front.len() - 1 - i) as nat == k);
                lemma_pow_positive(10, k);
                lemma_div_denominator(n as int, 10, pow(10, k));
                assert(pow(10, (len - 1 - i) as nat) == 10 * pow(10, k));
            }
        }
    } else {
        assert(decimal(n)[0] as nat == 48 + n);
        assert forall|i: int| 0 <= i < len implies (#[trigger] decimal(n)[i]) as int == 48 + (
        n as int / pow(10, (len - 1 - i) as nat)) % 10 by {
            assert((len - 1 - i) as nat == 0);
        }
    }
}

} // verus!
