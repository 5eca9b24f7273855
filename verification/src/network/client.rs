//! The client inside the network, distinct from the one at the top of the
//! crate.

use vstd::prelude::*;

verus! {

/// Connects the network's client; there is nothing to set up.
pub fn connect() {
}

} // verus!
