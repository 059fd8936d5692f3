//! The console's address space.
//!
//! Every address on the bus belongs to the cartridge, to the console's work
//! RAM, or to nothing that this crate holds.

use crate::cartridge::{Cartridge, OPEN_BUS, RAM_WINDOW_BASE, RAM_WINDOW_END, ROM_CEILING};
use crate::types::Address;
use vstd::prelude::*;

verus! {

/// Size of the work RAM buffer: eight banks of 4 KiB.
pub const MAX_WORK_RAM_SIZE: usize = 0x8000;

/// First address of the work RAM window.
pub const WORK_RAM_BASE: Address = 0xC000;

/// First address above the work RAM window, which shows the first two
/// banks of the buffer.
pub const WORK_RAM_END: Address = 0xE000;

/// An access to an address that neither the cartridge nor the work RAM
/// answers; it carries the address.
#[derive(Clone, Copy, Debug, PartialEq, Eq, Structural)]
pub struct AddressingError {
    pub address: Address,
}

/// Who answers an address.
#[derive(Clone, Copy, Debug, PartialEq, Eq, Structural)]
pub enum Route {
    /// The cartridge: the ROM windows and the cartridge RAM window.
    Cartridge,
    /// The work RAM, at this offset of its buffer.
    WorkRam(usize),
    /// Nobody.
    Unmapped,
}

/// Who answers `address`.
pub open spec fn route_of(address: Address) -> Route {
    if address < ROM_CEILING || RAM_WINDOW_BASE <= address < RAM_WINDOW_END {
        Route::Cartridge
    } else if WORK_RAM_BASE <= address < WORK_RAM_END {
        Route::WorkRam((address - WORK_RAM_BASE) as usize)
    } else {
        Route::Unmapped
    }
}

/// Finds who answers `address`. An offset into the work RAM is always
/// inside its buffer.
pub fn route(address: Address) -> (r: Route)
    ensures
        r == route_of(address),
        r matches Route::WorkRam(offset) ==> offset < MAX_WORK_RAM_SIZE,
{
    if address < ROM_CEILING {
        Route::Cartridge
    } else if address < RAM_WINDOW_BASE {
        Route::Unmapped
    } else if address < RAM_WINDOW_END {
        Route::Cartridge
    } else if address < WORK_RAM_END {
        Route::WorkRam((address - WORK_RAM_BASE) as usize)
    } else {
        Route::Unmapped
    }
}

/// The address space of the console: the work RAM and the cartridge in the
/// slot.
///
/// A lenient address space answers an unmapped address as the open bus
/// does; a strict one reports it.
pub struct Memory<C: Cartridge> {
    work_ram: [u8; MAX_WORK_RAM_SIZE],
    cartridge: C,
    lenient: bool,
}

/// An address space as plain mathematical values.
pub struct MemoryModel<C> {
    pub work_ram: Seq<u8>,
    pub cartridge: C,
    pub lenient: bool,
}

impl<C: Cartridge> MemoryModel<C> {
    /// What a read of `address` returns.
    pub open spec fn read(self, address: Address) -> Result<u8, AddressingError> {
        match route_of(address) {
            Route::Cartridge => Ok(self.cartridge.byte_at(address)),
            Route::WorkRam(offset) => Ok(self.work_ram[offset as int]),
            Route::Unmapped => if self.lenient {
                Ok(OPEN_BUS)
            } else {
                Err(AddressingError { address })
            },
        }
    }

    /// What a write to `address` returns.
    pub open spec fn write_result(self, address: Address) -> Result<(), AddressingError> {
        if route_of(address) is Unmapped && !self.lenient {
            Err(AddressingError { address })
        } else {
            Ok(())
        }
    }

    /// Whether `after` is the address space that a write of `value` to
    /// `address` leaves behind: the write reaches the one who answers the
    /// address and nobody else.
    pub open spec fn write_leaves(self, address: Address, value: u8, after: Self) -> bool {
        &&& after.lenient == self.lenient
        &&& match route_of(address) {
            Route::Cartridge => {
                &&& self.cartridge.write_leaves(address, value, &after.cartridge)
                &&& after.work_ram == self.work_ram
            },
            Route::WorkRam(offset) => {
                &&& after.cartridge == self.cartridge
                &&& after.work_ram == self.work_ram.update(offset as int, value)
            },
            Route::Unmapped => {
                &&& after.cartridge == self.cartridge
                &&& after.work_ram == self.work_ram
            },
        }
    }
}

impl<C> MemoryModel<C> {
    /// The work RAM has the size of its buffer.
    pub open spec fn wf(self) -> bool {
        self.work_ram.len() == MAX_WORK_RAM_SIZE
    }
}

impl<C: Cartridge> View for Memory<C> {
    type V = MemoryModel<C>;

    closed spec fn view(&self) -> MemoryModel<C> {
        MemoryModel { work_ram: self.work_ram@, cartridge: self.cartridge, lenient: self.lenient }
    }
}

impl<C: Cartridge> Memory<C> {
    /// An address space with `cartridge` in the slot and the work RAM
    /// zeroed.
    pub fn new(cartridge: C, lenient: bool) -> (memory: Self)
        ensures
            memory@.wf(),
            memory@.cartridge == cartridge,
            memory@.lenient == lenient,
            memory@.work_ram == Seq::new(MAX_WORK_RAM_SIZE as nat, |i: int| 0u8),
    {
        let memory = Memory { work_ram: [0u8; MAX_WORK_RAM_SIZE], cartridge, lenient };
        assert(memory.work_ram@ =~= Seq::new(MAX_WORK_RAM_SIZE as nat, |i: int| 0u8));
        memory
    }

    /// Reads one byte from whoever answers `address`.
    ///
    /// Fails only on an unmapped address, and only if the address space is
    /// strict.
    pub fn read(&self, address: Address) -> (r: Result<u8, AddressingError>)
        ensures
            r == self@.read(address),
    {
        match route(address) {
            Route::Cartridge => Ok(self.cartridge.read(address)),
            Route::WorkRam(offset) => Ok(self.work_ram[offset]),
            Route::Unmapped => {
                if self.lenient {
                    Ok(OPEN_BUS)
                } else {
                    Err(AddressingError { address })
                }
            },
        }
    }

    /// Writes one byte to whoever answers `address`.
    ///
    /// Fails only on an unmapped address, and only if the address space is
    /// strict; a lenient one drops the write. Either way nothing changes.
    pub fn write(&mut self, address: Address, value: u8) -> (r: Result<(), AddressingError>)
        ensures
            r == old(self)@.write_result(address),
            old(self)@.write_leaves(address, value, final(self)@),
            final(self)@.wf(),
    {
        match route(address) {
            Route::Cartridge => {
                self.cartridge.write(address, value);
                Ok(())
            },
            Route::WorkRam(offset) => {
                self.work_ram[offset] = value;
                Ok(())
            },
            Route::Unmapped => {
                if self.lenient {
                    Ok(())
                } else {
                    Err(AddressingError { address })
                }
            },
        }
    }

    /// Puts another cartridge into the slot and hands the one that was
    /// there back. The work RAM keeps its contents.
    pub fn swap_cartridge(&mut self, cartridge: C) -> (previous: C)
        ensures
            previous == old(self)@.cartridge,
            final(self)@ == (MemoryModel { cartridge, ..old(self)@ }),
            final(self)@.wf(),
    {
        let mut slot = cartridge;
        std::mem::swap(&mut self.cartridge, &mut slot);
        slot
    }

    /// The cartridge in the slot.
    pub fn cartridge(&self) -> (cartridge: &C)
        ensures
            *cartridge == self@.cartridge,
    {
        &self.cartridge
    }
}

/// A byte written to the work RAM is read back from the same address, and
/// the write is never refused.
pub proof fn lemma_work_ram_reads_back<C: Cartridge>(
    before: MemoryModel<C>,
    after: MemoryModel<C>,
    address: Address,
    value: u8,
)
    requires
        before.wf(),
        route_of(address) is WorkRam,
        before.write_leaves(address, value, after),
    ensures
        before.write_result(address) is Ok,
        after.read(address) == Ok::<u8, AddressingError>(value),
        after.wf(),
{
}

/// A write reaches one side only: a write to the work RAM leaves every read
/// from the cartridge as it was, a write to the cartridge leaves every read
/// from the work RAM as it was, and both leave the answer to an unmapped
/// address as it was.
pub proof fn lemma_write_stays_on_its_side<C: Cartridge>(
    before: MemoryModel<C>,
    after: MemoryModel<C>,
    address: Address,
    value: u8,
    probe: Address,
)
    requires
        before.write_leaves(address, value, after),
    ensures
        route_of(address) is WorkRam && route_of(probe) is Cartridge ==> after.read(probe)
            == before.read(probe),
        route_of(address) is Cartridge && route_of(probe) is WorkRam ==> after.read(probe)
            == before.read(probe),
        route_of(probe) is Unmapped ==> after.read(probe) == before.read(probe),
{
}

/// A write to an unmapped address changes nothing that a read can find,
/// whether it is refused or dropped; and it is refused exactly by a strict
/// address space.
pub proof fn lemma_unmapped_write_changes_nothing<C: Cartridge>(
    before: MemoryModel<C>,
    after: MemoryModel<C>,
    address: Address,
    value: u8,
    probe: Address,
)
    requires
        route_of(address) is Unmapped,
        before.write_leaves(address, value, after),
    ensures
        after == before,
        after.read(probe) == before.read(probe),
        before.write_result(address) is Err <==> !before.lenient,
        before.read(address) is Err <==> !before.lenient,
{
}

/// Every address has exactly one answer: the cartridge takes the two ROM
/// windows and its RAM window, the work RAM takes its own window with
/// offsets inside the buffer, and nobody takes the rest.
pub proof fn lemma_route_covers_the_bus(address: Address)
    ensures
        route_of(address) is Cartridge <==> address < ROM_CEILING || RAM_WINDOW_BASE <= address
            < RAM_WINDOW_END,
        route_of(address) is WorkRam <==> WORK_RAM_BASE <= address < WORK_RAM_END,
        route_of(address) matches Route::WorkRam(offset) ==> offset == address - WORK_RAM_BASE
            && offset < MAX_WORK_RAM_SIZE,
{
}

} // verus!
