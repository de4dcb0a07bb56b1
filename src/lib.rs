//! Client-side logic for a switch's management API: the configuration
//! translator, the address splitter, the reading of state answers and the
//! JSON bodies of configuration requests.

use vstd::prelude::*;

pub mod api;

verus! {

} // verus!
