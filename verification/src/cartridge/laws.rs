//! What holds of every cartridge, whatever its image and its registers.

use crate::cartridge::controller::ControllerType;
use crate::cartridge::header::HeaderModel;
use crate::cartridge::mbc::{
    aliases_bank_zero, is_rom_bank_register, Access, BankState, BankingMode, MbcModel, Target,
};
use crate::cartridge::{
    OPEN_BUS, RAM_WINDOW_BASE, RAM_WINDOW_END, ROM_BANK_SIZE, ROM_CEILING, SWITCHABLE_ROM_BASE,
};
use crate::types::Address;
use vstd::arithmetic::div_mod::{lemma_mod_bound, lemma_small_mod};
use vstd::prelude::*;

verus! {

/// The bank behind the switchable window is always one that the cartridge
/// has, and it is the selected bank itself wherever that one exists.
pub proof fn lemma_rom_bank_is_reduced(m: MbcModel)
    requires
        m.wf(),
    ensures
        m.rom_bank() < m.header.rom_banks,
        m.state.selected_rom_bank(m.header.controller_type) < m.header.rom_banks ==> m.rom_bank()
            == m.state.selected_rom_bank(m.header.controller_type),
{
    let selected = m.state.selected_rom_bank(m.header.controller_type);
    lemma_mod_bound(selected as int, m.header.rom_banks as int);
    if selected < m.header.rom_banks {
        lemma_small_mod(selected, m.header.rom_banks);
    }
}

/// Every offset that an access is translated to lies inside the banks of
/// the cartridge: a ROM offset below the end of the last ROM bank, a RAM
/// offset inside the RAM.
pub proof fn lemma_translated_offsets_are_in_bounds(m: MbcModel, address: Address, access: Access)
    requires
        m.wf(),
    ensures
        match m.translate(address, access) {
            Target::Rom(offset) => offset < m.header.rom_banks * ROM_BANK_SIZE,
            Target::Ram(offset) => offset < m.ram.len(),
            _ => true,
        },
{
    if address < ROM_CEILING {
        lemma_rom_bank_is_reduced(m);
    } else if RAM_WINDOW_BASE <= address < RAM_WINDOW_END {
        if let Some(bank) = m.ram_bank() {
            lemma_mod_bound(
                m.state.selected_ram_bank(m.header.controller_type).unwrap() as int,
                m.ram_banks() as int,
            );
            assert(bank < m.ram_banks());
            assert((bank + 1) * 0x2000 <= m.ram_banks() * 0x2000) by (nonlinear_arith)
                requires
                    bank < m.ram_banks(),
            ;
        }
    }
}

/// A write never changes the header or the image, and leaves a well-formed
/// cartridge well-formed.
pub proof fn lemma_write_keeps_header_and_image(m: MbcModel, address: Address, value: u8)
    ensures
        m.write(address, value).header == m.header,
        m.write(address, value).rom == m.rom,
        m.wf() ==> m.write(address, value).wf(),
{
    if m.wf() {
        lemma_translated_offsets_are_in_bounds(m, address, Access::Write);
    }
}

/// The fixed ROM window shows bank 0 whatever the registers hold: two
/// cartridges with the same image read alike there.
pub proof fn lemma_fixed_window_ignores_registers(a: MbcModel, b: MbcModel, address: Address)
    requires
        a.rom == b.rom,
        address < SWITCHABLE_ROM_BASE,
    ensures
        a.read(address) == b.read(address),
        a.read(address) == (if address < a.rom.len() {
            a.rom[address as int]
        } else {
            OPEN_BUS
        }),
{
}

/// The switchable ROM window depends on the registers through the reduced
/// bank alone: two cartridges with the same image and the same reduced bank
/// read alike there.
pub proof fn lemma_switchable_window_depends_on_reduced_bank(
    a: MbcModel,
    b: MbcModel,
    address: Address,
)
    requires
        a.rom == b.rom,
        a.rom_bank() == b.rom_bank(),
        SWITCHABLE_ROM_BASE <= address < ROM_CEILING,
    ensures
        a.read(address) == b.read(address),
{
}

/// A cartridge without a controller shows its image flat: every address
/// below `ROM_CEILING` reads the byte at that offset of the image, whatever
/// the registers hold, and every address above reads as the open bus.
pub proof fn lemma_rom_only_is_flat(m: MbcModel, address: Address)
    requires
        m.header.controller_type is RomOnly,
        m.header.rom_banks >= 2,
    ensures
        m.read(address) == (if address < ROM_CEILING && address < m.rom.len() {
            m.rom[address as int]
        } else {
            OPEN_BUS
        }),
{
    lemma_small_mod(1, m.header.rom_banks);
}

/// A cartridge without a controller ignores every write.
pub proof fn lemma_rom_only_ignores_writes(m: MbcModel, address: Address, value: u8)
    requires
        m.header.controller_type is RomOnly,
    ensures
        m.write(address, value) == m,
{
}

/// On a cartridge without a controller no sequence of writes changes what
/// any read finds.
pub proof fn lemma_rom_only_reads_never_change(
    m: MbcModel,
    writes: Seq<(Address, u8)>,
    probe: Address,
)
    requires
        m.header.controller_type is RomOnly,
    ensures
        m.write_all(writes) == m,
        m.write_all(writes).read(probe) == m.read(probe),
    decreases writes.len(),
{
    if writes.len() > 0 {
        lemma_rom_only_reads_never_change(m, writes.drop_last(), probe);
        lemma_rom_only_ignores_writes(m, writes.last().0, writes.last().1);
    }
}

/// Where the controller cannot select bank 0, writing 0 to the ROM bank
/// register is writing 1: the two cartridges are the same, so every read
/// finds the same byte.
pub proof fn lemma_bank_zero_selects_bank_one(m: MbcModel, register: Address, probe: Address)
    requires
        aliases_bank_zero(m.header.controller_type),
        is_rom_bank_register(m.header.controller_type, register),
    ensures
        m.write(register, 0) == m.write(register, 1),
        m.write(register, 0).read(probe) == m.write(register, 1).read(probe),
{
}

/// On an MBC1 whose secondary register does not reach the ROM bank number
/// (it holds zero, or the controller is in RAM banking mode), writing 0 to
/// the ROM bank register puts bank 1 behind the switchable window, provided
/// the cartridge has it: the window then shows the image from `ROM_BANK_SIZE`
/// on.
pub proof fn lemma_mbc1_bank_zero_shows_bank_one(m: MbcModel, register: Address, probe: Address)
    requires
        m.header.controller_type is MBC1,
        m.header.rom_banks >= 2,
        m.state.ram_bank % 4 == 0 || m.state.mode == BankingMode::Ram,
        0x2000 <= register < 0x4000,
        SWITCHABLE_ROM_BASE <= probe < ROM_CEILING,
    ensures
        m.write(register, 0).rom_bank() == 1,
        m.write(register, 0).read(probe) == (if probe < m.rom.len() {
            m.rom[probe as int]
        } else {
            OPEN_BUS
        }),
{
    let after = m.write(register, 0);
    assert(after.state.selected_rom_bank(after.header.controller_type) == 1);
    lemma_small_mod(1, m.header.rom_banks);
}

/// While RAM is disabled, the RAM window reads as the open bus and a write
/// into it changes nothing.
pub proof fn lemma_disabled_ram_is_open_bus(
    m: MbcModel,
    address: Address,
    value: u8,
    probe: Address,
)
    requires
        !m.state.ram_enabled,
        RAM_WINDOW_BASE <= address < RAM_WINDOW_END,
        RAM_WINDOW_BASE <= probe < RAM_WINDOW_END,
    ensures
        m.read(probe) == OPEN_BUS,
        m.write(address, value) == m,
        m.write(address, value).read(probe) == OPEN_BUS,
{
}

/// A byte written into a live RAM window is read back from the same
/// address.
pub proof fn lemma_ram_reads_back(m: MbcModel, address: Address, value: u8)
    requires
        m.wf(),
        m.translate(address, Access::Write) is Ram,
    ensures
        m.write(address, value).read(address) == value,
{
    lemma_translated_offsets_are_in_bounds(m, address, Access::Write);
}

/// Bank numbers wrap at the banks that the cartridge has: two values that
/// leave the same reduced bank behind the ROM bank register leave
/// cartridges that read alike everywhere.
pub proof fn lemma_bank_select_wraps(
    m: MbcModel,
    register: Address,
    first: u8,
    second: u8,
    probe: Address,
)
    requires
        is_rom_bank_register(m.header.controller_type, register),
        m.write(register, first).rom_bank() == m.write(register, second).rom_bank(),
    ensures
        m.write(register, first).read(probe) == m.write(register, second).read(probe),
{
}

/// On a cartridge with two ROM banks, selecting bank 5 is selecting bank 1.
pub proof fn lemma_two_banks_wrap_five_to_one(m: MbcModel, register: Address, probe: Address)
    requires
        m.header.rom_banks == 2,
        is_rom_bank_register(m.header.controller_type, register),
    ensures
        m.write(register, 5).rom_bank() == 1,
        m.write(register, 1).rom_bank() == 1,
        m.write(register, 5).read(probe) == m.write(register, 1).read(probe),
{
    let five = m.write(register, 5);
    let one = m.write(register, 1);
    let selected_five = five.state.selected_rom_bank(m.header.controller_type);
    let selected_one = one.state.selected_rom_bank(m.header.controller_type);
    assert(selected_five % 2 == 1 && selected_one % 2 == 1) by {
        match m.header.controller_type {
            ControllerType::MBC1 { .. } => {
                assert(five.state.rom_bank == 5 && one.state.rom_bank == 1);
            },
            ControllerType::MBC2 { .. } => {
                assert(five.state.rom_bank == 5 && one.state.rom_bank == 1);
            },
            ControllerType::MBC3 { .. } => {
                assert(five.state.rom_bank == 5 && one.state.rom_bank == 1);
            },
            ControllerType::MBC5 { .. } => {
                let high = m.state.rom_bank / 256 % 2;
                assert(five.state.rom_bank == high * 256 + 5);
                assert(one.state.rom_bank == high * 256 + 1);
            },
            ControllerType::RomOnly => {},
        }
    }
    lemma_bank_select_wraps(m, register, 5, 1, probe);
}

/// A cartridge fresh from a parsed header is well-formed and shows bank 1
/// behind the switchable window.
pub proof fn lemma_fresh_cartridge(header: HeaderModel, image: Seq<u8>)
    requires
        header.wf(),
    ensures
        MbcModel::fresh(header, image).wf(),
        MbcModel::fresh(header, image).state == BankState::power_on(),
        MbcModel::fresh(header, image).rom_bank() == 1,
{
    lemma_small_mod(1, header.rom_banks);
}

} // verus!
