//! Namespace reserved for value-transfer targets.

use vstd::prelude::*;

verus! {

/// Namespace for operations on value-transfer targets. It has no operations
/// so far: the arithmetic in this crate never needs to know who receives a
/// quantity.
pub struct Address;

} // verus!
