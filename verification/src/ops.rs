//! The closed-form parity rules: one for addition and subtraction, one for
//! multiplication, one for the whole exponentiation tower, and the dispatcher
//! that selects among them by hyperoperation order.

use vstd::prelude::*;

use crate::parity::Parity;

verus! {

/// Parity of a sum or difference: even exactly when the operands' parities
/// agree (`a + b` and `a - b` always have the same parity).
pub open spec fn sum_even(p: bool, q: bool) -> bool {
    p == q
}

/// Parity of a product: even exactly when at least one operand is even.
pub open spec fn product_even(p: bool, q: bool) -> bool {
    p || q
}

/// Parity of an exponentiation tower of height >= 1: the parity of the base
/// alone. The height is deliberately not consulted, so a height of 0 — whose
/// value is conventionally the multiplicative identity, which is odd — is
/// answered with the base's parity as well; see the crate documentation.
pub open spec fn tower_even(p: bool) -> bool {
    p
}

/// Parity of the order-`n` hyperoperation: the multiplication rule for
/// `n == 0`, the tower rule for every `n >= 1`.
pub open spec fn arrow_even(p: bool, n: nat, q: bool) -> bool {
    if n == 0 {
        product_even(p, q)
    } else {
        tower_even(p)
    }
}

/// Parity of `v + w`: even exactly when `v` and `w` have equal parity.
pub fn add<V: Parity, W: Parity>(v: V, w: W) -> (r: bool)
    ensures
        r == sum_even(v.even(), w.even()),
{
    v.is_even() == w.is_even()
}

/// Parity of `v - w`: identical to the parity of `v + w`.
pub fn subtract<V: Parity, W: Parity>(v: V, w: W) -> (r: bool)
    ensures
        r == sum_even(v.even(), w.even()),
{
    v.is_even() == w.is_even()
}

/// Parity of `v * w`: even exactly when at least one operand is even.
pub fn multiply<V: Parity, W: Parity>(v: V, w: W) -> (r: bool)
    ensures
        r == product_even(v.even(), w.even()),
{
    v.is_even() || w.is_even()
}

/// Parity of `v` raised to the power `w`, for `w >= 1`: the parity of the
/// base `v`, whatever `w` is. The exponent is never consulted, so `w == 0`
/// also yields `v`'s parity, although the value is then 1, which is odd.
pub fn power<V: Parity, W: Parity>(v: V, _w: W) -> (r: bool)
    ensures
        r == tower_even(v.even()),
{
    v.is_even()
}

/// Parity of the tetration `v` tower `w`, for height `w >= 1`: the same as
/// [`power`], since a tower of odd numbers stays odd and a tower on an even
/// base stays even.
pub fn tetration<V: Parity, W: Parity>(v: V, w: W) -> (r: bool)
    ensures
        r == tower_even(v.even()),
{
    power(v, w)
}

/// Parity of the order-`n` up-arrow hyperoperation of `v` and `w`:
///
/// - `n = 0` : `v w` (multiplication)
/// - `n = 1` : `v ↑ w` (exponentiation)
/// - `n = 2` : `v ↑↑ w` (tetration)
/// - `n = 3` : `v ↑↑↑ w`
/// - `n = k` : `v ↑ᵏ w`
///
/// Every order above 0 collapses to the tower rule.
pub fn arrow<V: Parity, W: Parity>(v: V, n: usize, w: W) -> (r: bool)
    ensures
        r == arrow_even(v.even(), n as nat, w.even()),
{
    match n {
        0 => multiply(v, w),
        _ => power(v, w),
    }
}

} // verus!
