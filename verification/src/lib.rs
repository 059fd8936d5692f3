//! Cartridge and memory-mapping core of a handheld-console emulator.
//!
//! A cartridge image is parsed into a [`cartridge::header::Header`], its
//! controller-type byte selects a memory bank controller, and
//! [`component::memory::Memory`] routes every 16-bit bus address either to the
//! cartridge or to the console's own work RAM.

pub mod cartridge;
pub mod component;
pub mod types;
