//! The server inside the network.

use vstd::prelude::*;

verus! {

/// Connects the network's server; there is nothing to set up.
pub fn connect() {
}

} // verus!
