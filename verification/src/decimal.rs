//! Decimal numerals.

use vstd::prelude::*;

verus! {

/// The ten digits, least first.
pub open spec fn digits() -> Seq<char> {
    seq!['0', '1', '2', '3', '4', '5', '6', '7', '8', '9']
}

/// The decimal numeral of `n`: its digits, most significant first, with no
/// leading zero but for zero itself.
pub open spec fn decimal(n: nat) -> Seq<char>
    decreases n,
{
    if n < 10 {
        seq![digits()[n as int]]
    } else {
        decimal(n / 10).push(digits()[(n % 10) as int])
    }
}

/// A numeral has at least one digit, and only a number below ten has
/// exactly one.
pub proof fn decimal_len(n: nat)
    ensures
        decimal(n).len() >= 1,
        decimal(n).len() == 1 <==> n < 10,
    decreases n,
{
    if n >= 10 {
        decimal_len(n / 10);
    }
}

/// Different numbers have different numerals.
pub proof fn decimal_injective(n: nat, m: nat)
    ensures
        decimal(n) == decimal(m) <==> n == m,
    decreases n,
{
    if decimal(n) == decimal(m) {
        decimal_len(n);
        decimal_len(m);
        if n < 10 {
            assert(decimal(n)[0] == decimal(m)[0]);
        } else {
            let high = decimal(n / 10);
            let low = digits()[(n % 10) as int];
            assert(high.push(low).drop_last() =~= high);
            assert(high.push(low).last() == low);
            let other_high = decimal(m / 10);
            let other_low = digits()[(m % 10) as int];
            assert(other_high.push(other_low).drop_last() =~= other_high);
            assert(other_high.push(other_low).last() == other_low);
            decimal_injective(n / 10, m / 10);
        }
    }
}

} // verus!
