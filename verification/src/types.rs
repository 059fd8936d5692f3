//! Types shared by every component on the bus.

use vstd::prelude::*;

verus! {

/// An address on the console's 16-bit bus.
pub type Address = u16;

} // verus!
