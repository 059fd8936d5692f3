//! Components that sit on the console side of the bus.

pub mod memory;
