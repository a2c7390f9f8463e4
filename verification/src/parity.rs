//! The parity capability: a two-valued parity bit read from any supported
//! integer width, or from a boolean that already is such a bit.

use vstd::prelude::*;

verus! {

/// True exactly when the mathematical integer `x` is even.
pub open spec fn even_int(x: int) -> bool {
    x % 2 == 0
}

/// A value whose parity can be read in constant time.
///
/// Every fixed-width integer type implements it, and so does `bool`: a
/// boolean operand is treated as an already-reduced parity bit (`true` =
/// even), which lets the result of one operation feed another directly.
pub trait Parity {
    /// The parity of the value, as a specification-level bit: `true` = even.
    spec fn even(&self) -> bool;

    /// Returns `true` exactly when the value is even.
    fn is_even(&self) -> (r: bool)
        ensures
            r == self.even(),
    ;

    /// Returns `true` exactly when the value is odd; by construction always
    /// the complement of `is_even`.
    fn is_odd(&self) -> (r: bool)
        ensures
            r == !self.even(),
    {
        !self.is_even()
    }
}

impl Parity for bool {
    open spec fn even(&self) -> bool {
        *self
    }

    fn is_even(&self) -> (r: bool) {
        *self
    }
}

impl Parity for u8 {
    open spec fn even(&self) -> bool {
        even_int(*self as int)
    }

    fn is_even(&self) -> (r: bool) {
        *self % 2 == 0
    }
}

impl Parity for u16 {
    open spec fn even(&self) -> bool {
        even_int(*self as int)
    }

    fn is_even(&self) -> (r: bool) {
        *self % 2 == 0
    }
}

impl Parity for u32 {
    open spec fn even(&self) -> bool {
        even_int(*self as int)
    }

    fn is_even(&self) -> (r: bool) {
        *self % 2 == 0
    }
}

impl Parity for u64 {
    open spec fn even(&self) -> bool {
        even_int(*self as int)
    }

    fn is_even(&self) -> (r: bool) {
        *self % 2 == 0
    }
}

impl Parity for u128 {
    open spec fn even(&self) -> bool {
        even_int(*self as int)
    }

    fn is_even(&self) -> (r: bool) {
        *self % 2 == 0
    }
}

impl Parity for usize {
    open spec fn even(&self) -> bool {
        even_int(*self as int)
    }

    fn is_even(&self) -> (r: bool) {
        *self % 2 == 0
    }
}

impl Parity for i8 {
    open spec fn even(&self) -> bool {
        even_int(*self as int)
    }

    fn is_even(&self) -> (r: bool) {
        *self % 2 == 0
    }
}

impl Parity for i16 {
    open spec fn even(&self) -> bool {
        even_int(*self as int)
    }

    fn is_even(&self) -> (r: bool) {
        *self % 2 == 0
    }
}

impl Parity for i32 {
    open spec fn even(&self) -> bool {
        even_int(*self as int)
    }

    fn is_even(&self) -> (r: bool) {
        *self % 2 == 0
    }
}

impl Parity for i64 {
    open spec fn even(&self) -> bool {
        even_int(*self as int)
    }

    fn is_even(&self) -> (r: bool) {
        *self % 2 == 0
    }
}

impl Parity for i128 {
    open spec fn even(&self) -> bool {
        even_int(*self as int)
    }

    fn is_even(&self) -> (r: bool) {
        *self % 2 == 0
    }
}

impl Parity for isize {
    open spec fn even(&self) -> bool {
        even_int(*self as int)
    }

    fn is_even(&self) -> (r: bool) {
        *self % 2 == 0
    }
}

} // verus!
