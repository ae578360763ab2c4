//! The one way in which an operation of this crate fails.
use vstd::prelude::*;

verus! {

/// A control transfer that the device refused or could not carry out.
///
/// The crate checks nothing itself, so this is the only error there is. It
/// carries the system error number as the device reported it, and reaches the
/// caller as it came.
#[derive(Debug, Clone, Copy, Hash, PartialEq, Eq, Structural)]
pub struct Error {
    /// The system error number of the failed transfer.
    pub errno: i32,
}

} // verus!
