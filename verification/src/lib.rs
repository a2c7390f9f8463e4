//! Parity of arithmetic and hyperoperation results, computed from the
//! operands' parities alone, without materializing the numeric result.
//!
//! The parity of `a + b`, `a - b`, `a * b`, `a ^ b` (for exponent >= 1) and of
//! every higher hyperoperation (tetration, pentation, ...) depends only on
//! whether `a` and `b` are even, never on their magnitudes. Each operation
//! here therefore runs in constant time and returns a boolean, `true` meaning
//! "the result is even", even for expressions whose literal value could never
//! be represented. The lemmas in [`laws`] prove the closed-form rules against
//! ordinary integer arithmetic.
//!
//! One deliberate boundary: the tower rule never inspects the exponent or
//! tower height, so a height of 0 — whose value is by mathematical convention
//! the multiplicative identity, 1, which is odd — is still answered with the
//! base's parity. Callers are expected to pass heights of at least 1; the
//! rule is silent about the convention at 0 rather than wrong about any
//! height it is meant for.

pub mod laws;
pub mod ops;
pub mod parity;

pub use ops::add;
pub use ops::arrow;
pub use ops::multiply;
pub use ops::power;
pub use ops::subtract;
pub use ops::tetration;
pub use parity::Parity;
