//! The client at the top of the crate.

use vstd::prelude::*;

verus! {

/// Connects the top-level client; there is nothing to set up.
pub fn connect() {
}

} // verus!
