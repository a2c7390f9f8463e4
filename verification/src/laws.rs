//! Proofs that the closed-form rules in [`crate::ops`] compute the parity of
//! the actual arithmetic results, stated over unbounded mathematical
//! integers.

use vstd::prelude::*;
use vstd::arithmetic::power::lemma_pow1;
use vstd::arithmetic::power::pow;

use crate::ops::arrow_even;
use crate::ops::product_even;
use crate::ops::sum_even;
use crate::ops::tower_even;
use crate::parity::even_int;

verus! {

/// The sum rule is the parity of the sum: `a + b` is even exactly when the
/// parities of `a` and `b` agree.
pub proof fn lemma_sum_parity(a: int, b: int)
    ensures
        even_int(a + b) == sum_even(even_int(a), even_int(b)),
{
}

/// The difference has the same parity as the sum: `a - b` is even exactly
/// when the parities of `a` and `b` agree. This is why subtraction shares
/// the sum rule.
pub proof fn lemma_difference_parity(a: int, b: int)
    ensures
        even_int(a - b) == sum_even(even_int(a), even_int(b)),
{
}

/// The product rule is the parity of the product: `a * b` is even exactly
/// when at least one factor is even.
pub proof fn lemma_product_parity(a: int, b: int)
    ensures
        even_int(a * b) == product_even(even_int(a), even_int(b)),
{
    vstd::arithmetic::div_mod::lemma_mul_mod_noop(a, b, 2);
}

/// The tower rule is the parity of the power: for any exponent `e >= 1`,
/// `a^e` is even exactly when `a` is even. An even base keeps a factor of 2;
/// odd numbers are closed under multiplication.
pub proof fn lemma_tower_parity(a: int, e: nat)
    requires
        e >= 1,
    ensures
        even_int(pow(a, e)) == tower_even(even_int(a)),
    decreases e,
{
    if e == 1 {
        lemma_pow1(a);
    } else {
        lemma_tower_parity(a, (e - 1) as nat);
        reveal(pow);
        lemma_product_parity(a, pow(a, (e - 1) as nat));
    }
}

/// The dispatcher at order 0 is exactly the multiplication rule.
pub proof fn lemma_arrow_zero(p: bool, q: bool)
    ensures
        arrow_even(p, 0, q) == product_even(p, q),
{
}

/// The hierarchy collapses: at every order `n >= 1` — exponentiation,
/// tetration, pentation, ... — the dispatcher is exactly the tower rule.
pub proof fn lemma_arrow_collapses(p: bool, n: nat, q: bool)
    requires
        n >= 1,
    ensures
        arrow_even(p, n, q) == tower_even(p),
{
}

} // verus!
