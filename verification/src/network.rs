//! The network, with a client and a server of its own.

use vstd::prelude::*;

pub mod client;
pub mod server;

verus! {

/// Connects the network; there is nothing to set up.
pub fn connect() {
}

} // verus!
