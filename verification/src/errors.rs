//! The error taxonomy of the bridge.

use vstd::prelude::*;

verus! {

/// Every way a bridge operation can fail.  Each failure is terminal for the
/// operation and leaves the bridge state untouched.
#[derive(Clone, Copy, Debug, PartialEq, Eq, Structural)]
pub enum BridgeError {
    /// The bridge is currently paused.
    BridgePaused,
    /// Only the bridge authority can perform this action.
    Unauthorized,
    /// The amount must be greater than 0.
    InvalidAmount,
    /// The destination address is not a well-formed ZEC address.
    InvalidZecAddress,
    /// An arithmetic step would overflow 64 bits.
    Overflow,
}

} // verus!
