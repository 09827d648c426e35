//! The error taxonomy of the pool engine.
//!
//! Every failure of validation, arithmetic or payload decoding maps to
//! exactly one of these kinds; the first violation aborts the operation
//! before any value movement is requested.

use vstd::prelude::*;

verus! {

/// Why an instruction was rejected.
#[derive(Debug, Clone, Copy, PartialEq, Eq, Structural)]
pub enum AmmError {
    /// A configuration value is out of range (a fee of 100% or more).
    ConfigError,
    /// A supplied address does not match its re-derivation, or a record is
    /// not owned by this program.
    AddressMismatch,
    /// The initiator did not sign, or is not the pool's authority.
    Unauthorized,
    /// The pool's lock state forbids trading.
    PoolLocked,
    /// The pool was revoked; revocation is terminal.
    AlreadyRevoked,
    /// The caller-declared deadline has passed.
    ExpiredRequest,
    /// A computed amount fell outside the caller's declared bounds.
    SlippageExceeded,
    /// An overflow, underflow or division by zero in the curve arithmetic.
    ArithmeticOverflow,
    /// The instruction payload has the wrong shape.
    MalformedPayload,
}

} // verus!
