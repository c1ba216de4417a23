//! Platform marker types. The platform integrations themselves — launch
//! agents, trays, notification daemons — are operating-system calls made by
//! the shell; the marker carries which platform's rules apply.

use vstd::prelude::*;

verus! {

/// The macOS platform integration marker.
#[derive(Clone, Copy, Debug, PartialEq, Eq, Structural)]
pub struct MacosPlatform {}

impl MacosPlatform {
    /// The marker value.
    pub fn new() -> (r: Self) {
        MacosPlatform {  }
    }
}

} // verus!
