//! Memory bank controllers: bank registers and address translation.
//!
//! A controller sits between the bus and the cartridge's storage. Writes
//! below `ROM_CEILING` never reach the ROM: they set the controller's
//! registers, which choose the ROM bank behind the switchable window and the
//! RAM bank behind the RAM window.

use crate::cartridge::controller::{ControllerType, Rumble, RAM};
use crate::cartridge::header::{Header, HeaderModel};
use crate::cartridge::{
    Cartridge, OPEN_BUS, RAM_BANK_SIZE, RAM_WINDOW_BASE, RAM_WINDOW_END, ROM_BANK_SIZE,
    ROM_CEILING, SWITCHABLE_ROM_BASE,
};
use crate::types::Address;
use vstd::prelude::*;

verus! {

/// What the secondary bank register of an MBC1 selects.
#[derive(Clone, Copy, Debug, PartialEq, Eq, Structural)]
pub enum BankingMode {
    /// It extends the ROM bank number; RAM stays on bank 0.
    Rom,
    /// It selects the RAM bank; the ROM bank number keeps its low bits only.
    Ram,
}

/// The registers of a controller.
#[derive(Clone, Copy, Debug, PartialEq, Eq, Structural)]
pub struct BankState {
    /// The ROM bank register, as written: zero already replaced where the
    /// family cannot select it, not yet reduced to the banks that exist.
    pub rom_bank: u16,
    /// The secondary bank register, as written. It selects the RAM bank; on
    /// an MBC1 in ROM banking mode it holds the upper bits of the ROM bank
    /// number instead.
    pub ram_bank: u8,
    /// The RAM enable latch.
    pub ram_enabled: bool,
    /// The banking mode; only an MBC1 ever leaves `Rom`.
    pub mode: BankingMode,
}

/// Whether a value written to the RAM enable register switches RAM on: its
/// low four bits must be 0xA.
pub open spec fn enables_ram(value: u8) -> bool {
    value % 16 == 0x0A
}

/// The bank that a family without access to bank 0 selects for `bank`.
pub open spec fn never_zero(bank: u8) -> u8 {
    if bank == 0 {
        1
    } else {
        bank
    }
}

/// Whether a write to `address` sets the ROM bank register of the
/// controller, or on an MBC5 its low eight bits.
pub open spec fn is_rom_bank_register(controller: ControllerType, address: Address) -> bool {
    match controller {
        ControllerType::RomOnly => false,
        ControllerType::MBC1 { .. } => 0x2000 <= address < 0x4000,
        ControllerType::MBC2 { .. } => address < 0x4000 && (address / 0x100) % 2 == 1,
        ControllerType::MBC3 { .. } => 0x2000 <= address < 0x4000,
        ControllerType::MBC5 { .. } => 0x2000 <= address < 0x3000,
    }
}

/// Whether the controller cannot put bank 0 behind the switchable window
/// and selects bank 1 in its place.
pub open spec fn aliases_bank_zero(controller: ControllerType) -> bool {
    controller is MBC1 || controller is MBC2 || controller is MBC3
}

impl BankState {
    /// The registers after power-on: bank 1 behind the switchable window,
    /// RAM bank 0, RAM disabled, ROM banking mode.
    pub open spec fn power_on() -> BankState {
        BankState { rom_bank: 1, ram_bank: 0, ram_enabled: false, mode: BankingMode::Rom }
    }

    /// The registers after a write of `value` to `address`, an address below
    /// `ROM_CEILING`, on a cartridge with the given controller.
    pub open spec fn after_write(
        self,
        controller: ControllerType,
        address: Address,
        value: u8,
    ) -> BankState {
        match controller {
            ControllerType::RomOnly => self,
            ControllerType::MBC1 { .. } => {
                if address < 0x2000 {
                    BankState { ram_enabled: enables_ram(value), ..self }
                } else if address < 0x4000 {
                    BankState { rom_bank: never_zero(value % 32) as u16, ..self }
                } else if address < 0x6000 {
                    BankState { ram_bank: value % 4, ..self }
                } else if address < 0x8000 {
                    BankState {
                        mode: if value % 2 == 1 {
                            BankingMode::Ram
                        } else {
                            BankingMode::Rom
                        },
                        ..self
                    }
                } else {
                    self
                }
            },
            ControllerType::MBC2 { .. } => {
                if address < 0x4000 {
                    if (address / 0x100) % 2 == 0 {
                        BankState { ram_enabled: enables_ram(value), ..self }
                    } else {
                        BankState { rom_bank: never_zero(value % 16) as u16, ..self }
                    }
                } else {
                    self
                }
            },
            ControllerType::MBC3 { .. } => {
                if address < 0x2000 {
                    BankState { ram_enabled: enables_ram(value), ..self }
                } else if address < 0x4000 {
                    BankState { rom_bank: never_zero(value % 128) as u16, ..self }
                } else if address < 0x6000 {
                    BankState { ram_bank: value % 16, ..self }
                } else {
                    self
                }
            },
            ControllerType::MBC5 { rumble, .. } => {
                if address < 0x2000 {
                    BankState { ram_enabled: enables_ram(value), ..self }
                } else if address < 0x3000 {
                    BankState { rom_bank: ((self.rom_bank / 256 % 2) * 256 + value) as u16, ..self }
                } else if address < 0x4000 {
                    BankState {
                        rom_bank: ((value % 2) * 256 + self.rom_bank % 256) as u16,
                        ..self
                    }
                } else if address < 0x6000 {
                    BankState {
                        ram_bank: if rumble is Present {
                            value % 8
                        } else {
                            value % 16
                        },
                        ..self
                    }
                } else {
                    self
                }
            },
        }
    }

    /// The ROM bank that the registers select for the switchable window,
    /// before it is reduced to the banks that exist. A cartridge without a
    /// controller has bank 1 there, whatever the registers hold.
    pub open spec fn selected_rom_bank(self, controller: ControllerType) -> nat {
        match controller {
            ControllerType::RomOnly => 1,
            ControllerType::MBC1 { .. } => match self.mode {
                BankingMode::Rom => (self.ram_bank % 4 * 32 + self.rom_bank) as nat,
                BankingMode::Ram => self.rom_bank as nat,
            },
            _ => self.rom_bank as nat,
        }
    }

    /// The RAM bank that the registers select, before it is reduced to the
    /// banks that exist; `None` where they select no RAM at all.
    pub open spec fn selected_ram_bank(self, controller: ControllerType) -> Option<nat> {
        match controller {
            ControllerType::RomOnly => None,
            ControllerType::MBC1 { .. } => match self.mode {
                BankingMode::Rom => Some(0),
                BankingMode::Ram => Some(self.ram_bank as nat),
            },
            ControllerType::MBC2 { .. } => None,
            ControllerType::MBC3 { .. } => if self.ram_bank % 16 >= 8 {
                None
            } else {
                Some((self.ram_bank % 4) as nat)
            },
            ControllerType::MBC5 { .. } => Some(self.ram_bank as nat),
        }
    }

    /// The registers after power-on.
    pub fn new() -> (state: BankState)
        ensures
            state == BankState::power_on(),
    {
        BankState { rom_bank: 1, ram_bank: 0, ram_enabled: false, mode: BankingMode::Rom }
    }

    /// Applies a write below `ROM_CEILING` to the registers.
    pub fn write_register(self, controller: &ControllerType, address: Address, value: u8) -> (next:
        BankState)
        ensures
            next == self.after_write(*controller, address, value),
    {
        let mut next = self;
        let enables = value & 0x0F == 0x0A;
        assert(enables == enables_ram(value)) by {
            assert(value & 0x0F == value % 16) by (bit_vector);
        }
        match controller {
            ControllerType::RomOnly => {},
            ControllerType::MBC1 { .. } => {
                if address < 0x2000 {
                    next.ram_enabled = enables;
                } else if address < 0x4000 {
                    assert(value & 0x1F == value % 32) by (bit_vector);
                    next.rom_bank = nonzero(value & 0x1F) as u16;
                } else if address < 0x6000 {
                    assert(value & 0x03 == value % 4) by (bit_vector);
                    next.ram_bank = value & 0x03;
                } else if address < 0x8000 {
                    assert(value & 0x01 == value % 2) by (bit_vector);
                    next.mode = if value & 0x01 == 0x01 {
                        BankingMode::Ram
                    } else {
                        BankingMode::Rom
                    };
                }
            },
            ControllerType::MBC2 { .. } => {
                if address < 0x4000 {
                    assert((address & 0x0100 == 0) <==> ((address / 0x100) % 2 == 0))
                        by (bit_vector);
                    if address & 0x0100 == 0 {
                        next.ram_enabled = enables;
                    } else {
                        assert(value & 0x0F == value % 16) by (bit_vector);
                        next.rom_bank = nonzero(value & 0x0F) as u16;
                    }
                }
            },
            ControllerType::MBC3 { .. } => {
                if address < 0x2000 {
                    next.ram_enabled = enables;
                } else if address < 0x4000 {
                    assert(value & 0x7F == value % 128) by (bit_vector);
                    next.rom_bank = nonzero(value & 0x7F) as u16;
                } else if address < 0x6000 {
                    assert(value & 0x0F == value % 16) by (bit_vector);
                    next.ram_bank = value & 0x0F;
                }
            },
            ControllerType::MBC5 { rumble, .. } => {
                if address < 0x2000 {
                    next.ram_enabled = enables;
                } else if address < 0x3000 {
                    let bank: u16 = self.rom_bank;
                    let high: u16 = bank & 0x0100;
                    let low: u16 = value as u16;
                    assert(high | low == (bank / 256 % 2) * 256 + value) by (bit_vector)
                        requires
                            high == bank & 0x0100,
                            low == value as u16,
                    ;
                    next.rom_bank = high | low;
                } else if address < 0x4000 {
                    let bank: u16 = self.rom_bank;
                    let high: u16 = (value & 0x01) as u16;
                    let low: u16 = bank & 0x00FF;
                    assert((high << 8) | low == (value % 2) * 256 + bank % 256) by (bit_vector)
                        requires
                            high == (value & 0x01) as u16,
                            low == bank & 0x00FF,
                    ;
                    next.rom_bank = (high << 8) | low;
                } else if address < 0x6000 {
                    assert(value & 0x07 == value % 8) by (bit_vector);
                    assert(value & 0x0F == value % 16) by (bit_vector);
                    next.ram_bank = match rumble {
                        Rumble::Present => value & 0x07,
                        Rumble::Absent => value & 0x0F,
                    };
                }
            },
        }
        next
    }

    /// The ROM bank that the registers select, not yet reduced.
    pub fn rom_bank_select(&self, controller: &ControllerType) -> (bank: usize)
        ensures
            bank == self.selected_rom_bank(*controller),
    {
        match controller {
            ControllerType::RomOnly => 1,
            ControllerType::MBC1 { .. } => match self.mode {
                BankingMode::Rom => {
                    let upper: u8 = self.ram_bank;
                    assert(upper & 0x03 == upper % 4) by (bit_vector);
                    (upper & 0x03) as usize * 32 + self.rom_bank as usize
                },
                BankingMode::Ram => self.rom_bank as usize,
            },
            _ => self.rom_bank as usize,
        }
    }

    /// The RAM bank that the registers select, not yet reduced.
    pub fn ram_bank_select(&self, controller: &ControllerType) -> (bank: Option<usize>)
        ensures
            match bank {
                Some(b) => self.selected_ram_bank(*controller) == Some(b as nat),
                None => self.selected_ram_bank(*controller) is None,
            },
    {
        match controller {
            ControllerType::RomOnly | ControllerType::MBC2 { .. } => None,
            ControllerType::MBC1 { .. } => match self.mode {
                BankingMode::Rom => Some(0),
                BankingMode::Ram => Some(self.ram_bank as usize),
            },
            ControllerType::MBC3 { .. } => {
                let register: u8 = self.ram_bank;
                assert((register & 0x08 != 0) <==> (register % 16 >= 8)) by (bit_vector);
                assert(register & 0x03 == register % 4) by (bit_vector);
                if register & 0x08 != 0 {
                    None
                } else {
                    Some((register & 0x03) as usize)
                }
            },
            ControllerType::MBC5 { .. } => Some(self.ram_bank as usize),
        }
    }
}

fn nonzero(bank: u8) -> (selected: u8)
    ensures
        selected == never_zero(bank),
{
    if bank == 0 {
        1
    } else {
        bank
    }
}

/// The kind of a bus access.
#[derive(Clone, Copy, Debug, PartialEq, Eq, Structural)]
pub enum Access {
    Read,
    Write,
}

/// Where a bus access to a cartridge ends up.
#[derive(Clone, Copy, Debug, PartialEq, Eq, Structural)]
pub enum Target {
    /// The ROM byte at this offset of the image.
    Rom(usize),
    /// The RAM byte at this offset of the cartridge RAM.
    Ram(usize),
    /// The controller's registers.
    Register,
    /// Nothing: a read finds the open bus, a write is lost.
    Nothing,
}

/// A cartridge as plain mathematical values: its header, the image, the
/// cartridge RAM and the controller's registers.
pub struct MbcModel {
    pub header: HeaderModel,
    pub rom: Seq<u8>,
    pub ram: Seq<u8>,
    pub state: BankState,
}

impl MbcModel {
    /// The RAM banks that the cartridge has: those that the header
    /// declares, where the controller type has RAM at all.
    pub open spec fn ram_banks(self) -> nat {
        if self.header.controller_type.has_ram() {
            self.header.ram_banks
        } else {
            0
        }
    }

    /// The header is within its bounds and the RAM has the size of its
    /// banks.
    pub open spec fn wf(self) -> bool {
        &&& self.header.wf()
        &&& self.ram.len() == self.ram_banks() * RAM_BANK_SIZE
    }

    /// A cartridge fresh from its image: registers at power-on, RAM zeroed.
    pub open spec fn fresh(header: HeaderModel, image: Seq<u8>) -> MbcModel {
        let ram_banks: nat = if header.controller_type.has_ram() {
            header.ram_banks
        } else {
            0
        };
        MbcModel {
            header,
            rom: image,
            ram: Seq::new(ram_banks * RAM_BANK_SIZE as nat, |i: int| 0u8),
            state: BankState::power_on(),
        }
    }

    /// The ROM bank behind the switchable window: the selected bank,
    /// reduced modulo the banks that the cartridge has.
    pub open spec fn rom_bank(self) -> nat {
        self.state.selected_rom_bank(self.header.controller_type) % self.header.rom_banks
    }

    /// The RAM bank behind the RAM window, reduced likewise; `None` where
    /// the window is dead: no RAM, RAM disabled, or no RAM bank selected.
    pub open spec fn ram_bank(self) -> Option<nat> {
        if self.ram_banks() > 0 && self.state.ram_enabled {
            match self.state.selected_ram_bank(self.header.controller_type) {
                Some(bank) => Some(bank % self.ram_banks()),
                None => None,
            }
        } else {
            None
        }
    }

    /// Where an access ends up.
    ///
    /// Below `ROM_CEILING` a read goes to the ROM, to bank 0 in the fixed
    /// window and to `rom_bank` in the switchable one; a write goes to the
    /// registers, if the controller has any. In the RAM window both go to
    /// `ram_bank`, if there is one. Everything else goes nowhere.
    pub open spec fn translate(self, address: Address, access: Access) -> Target {
        if address < ROM_CEILING {
            match access {
                Access::Read => if address < SWITCHABLE_ROM_BASE {
                    Target::Rom(address as usize)
                } else {
                    let offset = address - SWITCHABLE_ROM_BASE;
                    Target::Rom((self.rom_bank() * ROM_BANK_SIZE + offset) as usize)
                },
                Access::Write => if self.header.controller_type is RomOnly {
                    Target::Nothing
                } else {
                    Target::Register
                },
            }
        } else if RAM_WINDOW_BASE <= address < RAM_WINDOW_END {
            match self.ram_bank() {
                Some(bank) => Target::Ram(
                    (bank * RAM_BANK_SIZE + (address - RAM_WINDOW_BASE)) as usize,
                ),
                None => Target::Nothing,
            }
        } else {
            Target::Nothing
        }
    }

    /// The byte that a read of `address` finds. An offset past the end of
    /// the image reads as the open bus.
    pub open spec fn read(self, address: Address) -> u8 {
        match self.translate(address, Access::Read) {
            Target::Rom(offset) => if offset < self.rom.len() {
                self.rom[offset as int]
            } else {
                OPEN_BUS
            },
            Target::Ram(offset) => self.ram[offset as int],
            _ => OPEN_BUS,
        }
    }

    /// The cartridge after a write of `value` to `address`.
    pub open spec fn write(self, address: Address, value: u8) -> MbcModel {
        match self.translate(address, Access::Write) {
            Target::Register => MbcModel {
                state: self.state.after_write(self.header.controller_type, address, value),
                ..self
            },
            Target::Ram(offset) => MbcModel { ram: self.ram.update(offset as int, value), ..self },
            _ => self,
        }
    }

    /// The cartridge after a sequence of writes, each an address and a
    /// value, first to last.
    pub open spec fn write_all(self, writes: Seq<(Address, u8)>) -> MbcModel
        decreases writes.len(),
    {
        if writes.len() == 0 {
            self
        } else {
            self.write_all(writes.drop_last()).write(writes.last().0, writes.last().1)
        }
    }
}

/// A loaded cartridge: the image behind its memory bank controller.
///
/// It always meets `MbcModel::wf`; `cartridge::load` is the way to make one.
#[derive(Debug)]
pub struct MemoryBankController {
    header: Header,
    rom: Vec<u8>,
    ram: Vec<u8>,
    state: BankState,
}

impl View for MemoryBankController {
    type V = MbcModel;

    closed spec fn view(&self) -> MbcModel {
        MbcModel { header: self.header@, rom: self.rom@, ram: self.ram@, state: self.state }
    }
}

impl MemoryBankController {
    #[verifier::type_invariant]
    spec fn inv(&self) -> bool {
        self@.wf()
    }

    /// Puts a parsed header and its image behind a controller at power-on.
    pub(crate) fn assemble(header: Header, rom: Vec<u8>) -> (cartridge: Self)
        requires
            header@.wf(),
        ensures
            cartridge@ == MbcModel::fresh(header@, rom@),
            cartridge@.wf(),
    {
        let ram_banks = match header.controller_type.ram() {
            RAM::Banks(_) => header.ram_banks,
            RAM::Absent => 0,
        };
        let ram = vec![0u8; ram_banks * RAM_BANK_SIZE];
        assert(ram@ =~= Seq::new(ram_banks as nat * RAM_BANK_SIZE as nat, |i: int| 0u8));
        MemoryBankController { header, rom, ram, state: BankState::new() }
    }

    /// Where an access ends up. An offset into the RAM is always inside it.
    pub fn translate(&self, address: Address, access: Access) -> (target: Target)
        ensures
            target == self@.translate(address, access),
            target matches Target::Ram(offset) ==> offset < self@.ram.len(),
    {
        proof {
            use_type_invariant(self);
        }
        if address < ROM_CEILING {
            match access {
                Access::Read => {
                    if address < SWITCHABLE_ROM_BASE {
                        Target::Rom(address as usize)
                    } else {
                        let selected = self.state.rom_bank_select(&self.header.controller_type);
                        let bank = selected % self.header.rom_banks;
                        Target::Rom(bank * ROM_BANK_SIZE + (address - SWITCHABLE_ROM_BASE) as usize)
                    }
                },
                Access::Write => match self.header.controller_type {
                    ControllerType::RomOnly => Target::Nothing,
                    _ => Target::Register,
                },
            }
        } else if RAM_WINDOW_BASE <= address && address < RAM_WINDOW_END {
            let ram_banks = self.ram.len() / RAM_BANK_SIZE;
            if ram_banks == 0 || !self.state.ram_enabled {
                return Target::Nothing;
            }
            match self.state.ram_bank_select(&self.header.controller_type) {
                Some(selected) => {
                    let bank = selected % ram_banks;
                    Target::Ram(bank * RAM_BANK_SIZE + (address - RAM_WINDOW_BASE) as usize)
                },
                None => Target::Nothing,
            }
        } else {
            Target::Nothing
        }
    }

    /// The header that the cartridge was loaded with.
    pub fn header(&self) -> (header: &Header)
        ensures
            header@ == self@.header,
    {
        &self.header
    }

    /// The controller's registers.
    pub fn state(&self) -> (state: BankState)
        ensures
            state == self@.state,
    {
        self.state
    }

    /// The cartridge RAM, all banks in order: what a host saves for a
    /// cartridge with a battery.
    pub fn ram(&self) -> (ram: &Vec<u8>)
        ensures
            ram@ == self@.ram,
    {
        &self.ram
    }

    /// Puts saved RAM contents back. They are taken only if they have the
    /// size of the cartridge RAM; the result says whether they were.
    pub fn restore_ram(&mut self, saved: &[u8]) -> (taken: bool)
        ensures
            taken == (saved@.len() == old(self)@.ram.len()),
            final(self)@ == (if taken {
                MbcModel { ram: saved@, ..old(self)@ }
            } else {
                old(self)@
            }),
    {
        proof {
            use_type_invariant(&*self);
        }
        if saved.len() != self.ram.len() {
            return false;
        }
        let mut i: usize = 0;
        while i < saved.len()
            invariant
                i <= saved@.len(),
                saved@.len() == self.ram@.len(),
                self.ram@.len() == old(self).ram@.len(),
                self.header == old(self).header,
                self.rom == old(self).rom,
                self.state == old(self).state,
                self@.wf(),
                forall|j: int| 0 <= j < i ==> self.ram@[j] == saved@[j],
            decreases saved@.len() - i,
        {
            self.ram[i] = saved[i];
            i = i + 1;
        }
        assert(self.ram@ =~= saved@);
        true
    }
}

impl Cartridge for MemoryBankController {
    open spec fn byte_at(&self, address: Address) -> u8 {
        self@.read(address)
    }

    open spec fn write_leaves(&self, address: Address, value: u8, after: &Self) -> bool {
        after@ == self@.write(address, value)
    }

    fn read(&self, address: Address) -> (value: u8) {
        match self.translate(address, Access::Read) {
            Target::Rom(offset) => {
                if offset < self.rom.len() {
                    self.rom[offset]
                } else {
                    OPEN_BUS
                }
            },
            Target::Ram(offset) => self.ram[offset],
            _ => OPEN_BUS,
        }
    }

    fn write(&mut self, address: Address, value: u8) {
        proof {
            use_type_invariant(&*self);
        }
        match self.translate(address, Access::Write) {
            Target::Register => {
                let controller = &self.header.controller_type;
                self.state = self.state.write_register(controller, address, value);
            },
            Target::Ram(offset) => {
                self.ram[offset] = value;
            },
            _ => {},
        }
    }
}

} // verus!
