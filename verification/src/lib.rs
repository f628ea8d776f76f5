//! Checked arithmetic on 128-bit unsigned quantities.
//!
//! Every operation either returns the exact mathematical result or reports
//! why that result does not exist in the 128-bit unsigned domain. Nothing
//! wraps, truncates or panics.

pub mod address;
pub mod error;
pub mod laws;
pub mod model;
pub mod safe_math;

pub use address::Address;
pub use error::{MathError, Operation};
pub use safe_math::SafeMath;
