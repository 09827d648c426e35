//! A two-asset liquidity pool engine under the constant-product
//! invariant `x * y = k`: proportional share issue and redemption,
//! fee-adjusted swaps, and an instruction-driven pool lifecycle.
//!
//! The engine is pure decision logic. Each instruction processor runs a
//! fixed validation chain — signer, value-transfer-service identity,
//! expiration, record ownership, lock state, address re-derivation,
//! slippage — then the curve arithmetic, and returns either the exact
//! value movements for the external custodian to execute or the first
//! error, in which case nothing moves. Addresses are never trusted:
//! every vault, liquidity-mint and pool-record address is recomputed
//! from its seeds and compared byte for byte.

pub mod codec;
pub mod curve;
pub mod deposit;
pub mod derivation;
pub mod error;
pub mod initialize;
pub mod instructions;
pub mod lock;
pub mod state;
pub mod swap;
pub mod utils;
pub mod withdraw;

pub use curve::CurveError;
pub use error::AmmError;
