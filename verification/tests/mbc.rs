use gameboy_core::cartridge::controller::{resolve, ControllerType};
use gameboy_core::cartridge::header::{LOGO, LOGO_SIZE};
use gameboy_core::cartridge::mbc::{Access, BankState, BankingMode, MemoryBankController, Target};
use gameboy_core::cartridge::{
    load, Cartridge, OPEN_BUS, RAM_BANK_SIZE, RAM_WINDOW_BASE, RAM_WINDOW_END, ROM_BANK_SIZE,
    ROM_CEILING, SWITCHABLE_ROM_BASE,
};

fn pattern(bank: usize, offset: usize) -> u8 {
    ((bank * 7 + offset * 3 + (offset >> 8)) % 251) as u8
}

fn image(controller: u8, rom_code: u8, ram_code: u8, banks: usize) -> Vec<u8> {
    let mut bytes = vec![0u8; banks * ROM_BANK_SIZE];
    for bank in 0..banks {
        for offset in 0..ROM_BANK_SIZE {
            bytes[bank * ROM_BANK_SIZE + offset] = pattern(bank, offset);
        }
    }
    for i in 0x100..0x150 {
        bytes[i] = 0;
    }
    bytes[0x104..0x104 + LOGO_SIZE].copy_from_slice(&LOGO);
    bytes[0x147] = controller;
    bytes[0x148] = rom_code;
    bytes[0x149] = ram_code;
    bytes
}

fn cartridge(controller: u8, rom_code: u8, ram_code: u8, banks: usize) -> MemoryBankController {
    match load(&image(controller, rom_code, ram_code, banks)) {
        Ok(cartridge) => cartridge,
        Err(e) => panic!("image does not load: {:?}", e),
    }
}

fn window(cartridge: &MemoryBankController) -> Vec<u8> {
    (SWITCHABLE_ROM_BASE..ROM_CEILING).map(|a| cartridge.read(a)).collect()
}

fn bank_bytes(cartridge: &MemoryBankController, bank: usize) -> Vec<u8> {
    if bank == 0 {
        (0..SWITCHABLE_ROM_BASE).map(|a| cartridge.read(a)).collect()
    } else {
        (0..ROM_BANK_SIZE).map(|offset| pattern(bank, offset)).collect()
    }
}

fn all_reads(cartridge: &MemoryBankController) -> Vec<u8> {
    (0..=0xFFFFu16).map(|a| cartridge.read(a)).collect()
}

#[test]
fn bus_constants() {
    assert_eq!(ROM_BANK_SIZE, 0x4000);
    assert_eq!(RAM_BANK_SIZE, 0x2000);
    assert_eq!(SWITCHABLE_ROM_BASE, 0x4000);
    assert_eq!(ROM_CEILING, 0x8000);
    assert_eq!(RAM_WINDOW_BASE, 0xA000);
    assert_eq!(RAM_WINDOW_END, 0xC000);
    assert_eq!(OPEN_BUS, 0xFF);
}

#[test]
fn power_on_state() {
    let state = BankState::new();
    assert_eq!(state.rom_bank, 1);
    assert_eq!(state.ram_bank, 0);
    assert!(!state.ram_enabled);
    assert_eq!(state.mode, BankingMode::Rom);
    assert_eq!(cartridge(0x01, 0x01, 0x00, 4).state(), state);
}

#[test]
fn rom_only_reads_the_image_directly() {
    let bytes = image(0x00, 0x00, 0x00, 2);
    let cartridge = load(&bytes).unwrap();
    for address in 0..0x8000u16 {
        assert_eq!(cartridge.read(address), bytes[address as usize]);
    }
}

#[test]
fn rom_only_ignores_every_write() {
    let mut cartridge = cartridge(0x00, 0x00, 0x00, 2);
    let before = all_reads(&cartridge);
    let state = cartridge.state();
    for address in (0..=0xFFFFu16).step_by(0x35) {
        cartridge.write(address, 0x0A);
        cartridge.write(address, 0x01);
        cartridge.write(address, address as u8);
    }
    let borders =
        [0x0000u16, 0x1FFF, 0x2000, 0x3FFF, 0x4000, 0x5FFF, 0x6000, 0x7FFF, 0xA000, 0xBFFF];
    for address in borders {
        for value in [0x00u8, 0x01, 0x0A, 0x1F, 0xFF] {
            cartridge.write(address, value);
        }
    }
    assert_eq!(cartridge.state(), state);
    assert_eq!(all_reads(&cartridge), before);
}

#[test]
fn rom_only_ram_window_is_open_bus_even_with_a_ram_size() {
    let mut cartridge = cartridge(0x00, 0x00, 0x03, 2);
    cartridge.write(0x0000, 0x0A);
    cartridge.write(0xA000, 0x12);
    assert_eq!(cartridge.read(0xA000), 0xFF);
    assert_eq!(cartridge.ram().len(), 0);
}

#[test]
fn fixed_window_shows_bank_zero_whatever_is_selected() {
    let bytes = image(0x01, 0x05, 0x00, 64);
    let mut cartridge = load(&bytes).unwrap();
    let fixed: Vec<u8> = (0..0x4000u16).map(|a| cartridge.read(a)).collect();
    assert_eq!(&fixed[..], &bytes[..0x4000]);
    let writes = [(0x2000u16, 7u8), (0x4000, 2), (0x6000, 1), (0x2000, 0x1F), (0x6000, 0)];
    for (register, value) in writes {
        cartridge.write(register, value);
        let now: Vec<u8> = (0..0x4000u16).map(|a| cartridge.read(a)).collect();
        assert_eq!(now, fixed);
    }
}

#[test]
fn switchable_window_shows_bank_one_after_load() {
    for controller in [0x00u8, 0x01, 0x05, 0x11, 0x19] {
        let cartridge = cartridge(controller, 0x01, 0x00, 4);
        let expected = bank_bytes(&cartridge, 1);
        assert_eq!(window(&cartridge), expected, "controller {:#04x}", controller);
    }
}

#[test]
fn mbc1_selects_each_bank() {
    let mut cartridge = cartridge(0x01, 0x01, 0x00, 4);
    for bank in 1..4u8 {
        cartridge.write(0x2000, bank);
        assert_eq!(window(&cartridge), bank_bytes(&cartridge, bank as usize));
    }
}

#[test]
fn mbc1_bank_register_spans_its_whole_range() {
    let mut cartridge = cartridge(0x01, 0x01, 0x00, 4);
    cartridge.write(0x2000, 2);
    assert_eq!(cartridge.read(0x4000), pattern(2, 0));
    cartridge.write(0x3FFF, 3);
    assert_eq!(cartridge.read(0x4000), pattern(3, 0));
    cartridge.write(0x1FFF, 2);
    assert_eq!(cartridge.read(0x4000), pattern(3, 0));
    cartridge.write(0x4000, 2);
    assert_eq!(cartridge.state().rom_bank, 3);
}

#[test]
fn mbc1_bank_zero_is_bank_one_with_four_banks() {
    let mut zero = cartridge(0x01, 0x01, 0x00, 4);
    let mut one = cartridge(0x01, 0x01, 0x00, 4);
    zero.write(0x2000, 3);
    one.write(0x2000, 3);
    zero.write(0x2000, 0);
    one.write(0x2000, 1);
    assert_eq!(window(&zero), window(&one));
    assert_eq!(window(&zero), bank_bytes(&zero, 1));
    assert_eq!(zero.state(), one.state());
    assert_eq!(zero.state().rom_bank, 1);
}

#[test]
fn mbc1_bank_zero_alias_looks_at_the_low_five_bits() {
    let mut cartridge = cartridge(0x01, 0x01, 0x00, 4);
    for value in [0x20u8, 0x40, 0x60, 0x80, 0xE0] {
        cartridge.write(0x2000, 3);
        cartridge.write(0x2000, value);
        assert_eq!(cartridge.state().rom_bank, 1, "value {:#04x}", value);
        assert_eq!(window(&cartridge), bank_bytes(&cartridge, 1));
    }
}

#[test]
fn mbc1_alias_comes_before_the_modulo() {
    let mut cartridge = cartridge(0x01, 0x01, 0x00, 4);
    cartridge.write(0x2000, 4);
    assert_eq!(cartridge.state().rom_bank, 4);
    assert_eq!(window(&cartridge), bank_bytes(&cartridge, 0));
    cartridge.write(0x2000, 8);
    assert_eq!(window(&cartridge), bank_bytes(&cartridge, 0));
    cartridge.write(0x2000, 0);
    assert_eq!(window(&cartridge), bank_bytes(&cartridge, 1));
}

#[test]
fn two_banks_wrap_five_to_one() {
    let registers = [(0x01u8, 0x2000u16), (0x05, 0x2100), (0x11, 0x2000), (0x19, 0x2000)];
    for (controller, register) in registers {
        let mut five = cartridge(controller, 0x00, 0x00, 2);
        let mut one = cartridge(controller, 0x00, 0x00, 2);
        five.write(register, 5);
        one.write(register, 1);
        assert_eq!(five.state().rom_bank, 5);
        assert_eq!(one.state().rom_bank, 1);
        assert_eq!(window(&five), window(&one), "controller {:#04x}", controller);
        assert_eq!(window(&five), bank_bytes(&five, 1));
        assert_eq!(all_reads(&five), all_reads(&one));
    }
}

#[test]
fn bank_numbers_wrap_at_the_declared_banks() {
    let mut cartridge = cartridge(0x01, 0x02, 0x00, 8);
    for value in 1..32u8 {
        cartridge.write(0x2000, value);
        let expected = bank_bytes(&cartridge, value as usize % 8);
        assert_eq!(window(&cartridge), expected, "value {}", value);
    }
}

#[test]
fn bank_numbers_wrap_at_a_size_that_is_no_power_of_two() {
    let mut cartridge = cartridge(0x11, 0x52, 0x00, 72);
    cartridge.write(0x2000, 71);
    assert_eq!(window(&cartridge), bank_bytes(&cartridge, 71));
    cartridge.write(0x2000, 72);
    assert_eq!(window(&cartridge), bank_bytes(&cartridge, 0));
    cartridge.write(0x2000, 100);
    assert_eq!(window(&cartridge), bank_bytes(&cartridge, 28));
}

#[test]
fn declared_banks_count_not_the_image_length() {
    let mut cartridge = cartridge(0x01, 0x00, 0x00, 4);
    cartridge.write(0x2000, 3);
    assert_eq!(window(&cartridge), bank_bytes(&cartridge, 1));
    cartridge.write(0x2000, 2);
    assert_eq!(window(&cartridge), bank_bytes(&cartridge, 0));
}

#[test]
fn reads_past_the_end_of_the_image_find_the_open_bus() {
    let mut cartridge = cartridge(0x01, 0x02, 0x00, 2);
    cartridge.write(0x2000, 2);
    assert!(window(&cartridge).iter().all(|b| *b == 0xFF));
    cartridge.write(0x2000, 1);
    assert_eq!(window(&cartridge), bank_bytes(&cartridge, 1));
}

#[test]
fn header_sized_image_reads_open_bus_behind_its_end() {
    let mut bytes = vec![0x11u8; 0x150];
    bytes[0x104..0x104 + LOGO_SIZE].copy_from_slice(&LOGO);
    bytes[0x147] = 0x00;
    bytes[0x148] = 0x00;
    bytes[0x149] = 0x00;
    let cartridge = load(&bytes).unwrap();
    assert_eq!(cartridge.read(0x0000), 0x11);
    assert_eq!(cartridge.read(0x014F), 0x11);
    assert_eq!(cartridge.read(0x0150), 0xFF);
    assert_eq!(cartridge.read(0x3FFF), 0xFF);
    assert_eq!(cartridge.read(0x4000), 0xFF);
    assert_eq!(cartridge.read(0x7FFF), 0xFF);
}

#[test]
fn mbc1_upper_bits_extend_the_rom_bank_in_rom_mode() {
    let mut cartridge = cartridge(0x01, 0x05, 0x00, 64);
    cartridge.write(0x2000, 0x01);
    cartridge.write(0x4000, 0x01);
    assert_eq!(window(&cartridge), bank_bytes(&cartridge, 33));
    cartridge.write(0x2000, 0x1F);
    assert_eq!(window(&cartridge), bank_bytes(&cartridge, 63));
    cartridge.write(0x5FFF, 0x00);
    assert_eq!(window(&cartridge), bank_bytes(&cartridge, 31));
    cartridge.write(0x4000, 0x02);
    assert_eq!(window(&cartridge), bank_bytes(&cartridge, (64 + 31) % 64));
}

#[test]
fn mbc1_upper_bits_leave_the_rom_bank_alone_in_ram_mode() {
    let mut cartridge = cartridge(0x01, 0x05, 0x00, 64);
    cartridge.write(0x2000, 0x05);
    cartridge.write(0x4000, 0x01);
    assert_eq!(window(&cartridge), bank_bytes(&cartridge, 37));
    cartridge.write(0x6000, 0x01);
    assert_eq!(cartridge.state().mode, BankingMode::Ram);
    assert_eq!(window(&cartridge), bank_bytes(&cartridge, 5));
    cartridge.write(0x7FFF, 0x00);
    assert_eq!(cartridge.state().mode, BankingMode::Rom);
    assert_eq!(window(&cartridge), bank_bytes(&cartridge, 37));
}

#[test]
fn mbc1_mode_is_the_low_bit() {
    let mut cartridge = cartridge(0x01, 0x01, 0x00, 4);
    cartridge.write(0x6000, 0xFE);
    assert_eq!(cartridge.state().mode, BankingMode::Rom);
    cartridge.write(0x6000, 0xFF);
    assert_eq!(cartridge.state().mode, BankingMode::Ram);
    cartridge.write(0x6000, 0x02);
    assert_eq!(cartridge.state().mode, BankingMode::Rom);
}

#[test]
fn mbc1_zero_alias_ignores_the_upper_bits() {
    let mut cartridge = cartridge(0x01, 0x05, 0x00, 64);
    cartridge.write(0x4000, 0x01);
    cartridge.write(0x2000, 0x00);
    assert_eq!(window(&cartridge), bank_bytes(&cartridge, 33));
}

#[test]
fn disabled_ram_reads_open_bus_and_drops_writes() {
    let mut cartridge = cartridge(0x03, 0x01, 0x03, 4);
    assert!(!cartridge.state().ram_enabled);
    let ram_before = cartridge.ram().clone();
    for address in (0xA000..0xC000u16).step_by(0x111) {
        assert_eq!(cartridge.read(address), 0xFF);
        cartridge.write(address, 0x42);
        assert_eq!(cartridge.read(address), 0xFF);
    }
    assert_eq!(cartridge.read(0xA000), 0xFF);
    assert_eq!(cartridge.read(0xBFFF), 0xFF);
    assert_eq!(cartridge.ram(), &ram_before);
    cartridge.write(0x0000, 0x0A);
    for address in (0xA000..0xC000u16).step_by(0x111) {
        assert_eq!(cartridge.read(address), 0x00);
    }
}

#[test]
fn ram_disabled_again_hides_what_was_written() {
    let mut cartridge = cartridge(0x03, 0x01, 0x02, 4);
    cartridge.write(0x0000, 0x0A);
    cartridge.write(0xA123, 0x55);
    assert_eq!(cartridge.read(0xA123), 0x55);
    cartridge.write(0x0000, 0x00);
    assert_eq!(cartridge.read(0xA123), 0xFF);
    cartridge.write(0xA123, 0x66);
    assert_eq!(cartridge.read(0xA123), 0xFF);
    cartridge.write(0x1FFF, 0x0A);
    assert_eq!(cartridge.read(0xA123), 0x55);
}

#[test]
fn ram_enable_looks_at_the_low_four_bits() {
    let mut cartridge = cartridge(0x03, 0x01, 0x02, 4);
    for value in 0..=255u8 {
        cartridge.write(0x0000, value);
        assert_eq!(cartridge.state().ram_enabled, value & 0x0F == 0x0A, "value {:#04x}", value);
    }
}

#[test]
fn ram_window_is_dead_without_ram() {
    let mut no_ram_chip = cartridge(0x01, 0x01, 0x03, 4);
    no_ram_chip.write(0x0000, 0x0A);
    no_ram_chip.write(0xA000, 0x12);
    assert_eq!(no_ram_chip.read(0xA000), 0xFF);
    assert_eq!(no_ram_chip.ram().len(), 0);

    let mut no_ram_banks = cartridge(0x03, 0x01, 0x00, 4);
    no_ram_banks.write(0x0000, 0x0A);
    no_ram_banks.write(0xA000, 0x12);
    assert_eq!(no_ram_banks.read(0xA000), 0xFF);
    assert_eq!(no_ram_banks.ram().len(), 0);
}

#[test]
fn ram_is_zeroed_and_sized_by_the_header() {
    for (ram_code, banks) in [(0x01u8, 1usize), (0x02, 1), (0x03, 4), (0x04, 16), (0x05, 8)] {
        let cartridge = cartridge(0x1B, 0x01, ram_code, 4);
        assert_eq!(cartridge.ram().len(), banks * 0x2000);
        assert!(cartridge.ram().iter().all(|b| *b == 0));
    }
}

#[test]
fn mbc1_ram_banks_in_ram_mode() {
    let mut cartridge = cartridge(0x03, 0x01, 0x03, 4);
    cartridge.write(0x0000, 0x0A);
    cartridge.write(0x6000, 0x01);
    for bank in 0..4u8 {
        cartridge.write(0x4000, bank);
        cartridge.write(0xA010, 0x10 + bank);
        cartridge.write(0xBFFF, 0x20 + bank);
    }
    for bank in 0..4u8 {
        cartridge.write(0x4000, bank);
        assert_eq!(cartridge.read(0xA010), 0x10 + bank);
        assert_eq!(cartridge.read(0xBFFF), 0x20 + bank);
        assert_eq!(cartridge.ram()[bank as usize * 0x2000 + 0x10], 0x10 + bank);
        assert_eq!(cartridge.ram()[bank as usize * 0x2000 + 0x1FFF], 0x20 + bank);
    }
}

#[test]
fn mbc1_ram_stays_on_bank_zero_in_rom_mode() {
    let mut cartridge = cartridge(0x03, 0x05, 0x03, 64);
    cartridge.write(0x0000, 0x0A);
    cartridge.write(0x4000, 0x02);
    cartridge.write(0xA000, 0x77);
    assert_eq!(cartridge.ram()[0], 0x77);
    assert_eq!(cartridge.ram()[2 * 0x2000], 0x00);
    cartridge.write(0x6000, 0x01);
    assert_eq!(cartridge.read(0xA000), 0x00);
    cartridge.write(0xA000, 0x88);
    assert_eq!(cartridge.ram()[2 * 0x2000], 0x88);
    cartridge.write(0x6000, 0x00);
    assert_eq!(cartridge.read(0xA000), 0x77);
}

#[test]
fn ram_bank_numbers_wrap_at_the_declared_banks() {
    let mut cartridge = cartridge(0x03, 0x01, 0x02, 4);
    cartridge.write(0x0000, 0x0A);
    cartridge.write(0x6000, 0x01);
    cartridge.write(0x4000, 0x00);
    cartridge.write(0xA005, 0x31);
    cartridge.write(0x4000, 0x03);
    assert_eq!(cartridge.read(0xA005), 0x31);
}

#[test]
fn writes_to_rom_never_change_the_image() {
    let bytes = image(0x03, 0x01, 0x03, 4);
    let mut cartridge = load(&bytes).unwrap();
    for address in (0..0x8000u16).step_by(0x101) {
        cartridge.write(address, 0x00);
        cartridge.write(address, 0x0A);
    }
    cartridge.write(0x6000, 0);
    cartridge.write(0x4000, 0);
    cartridge.write(0x2000, 1);
    for address in 0..0x8000u16 {
        assert_eq!(cartridge.read(address), bytes[address as usize]);
    }
}

#[test]
fn addresses_outside_the_cartridge_read_open_bus() {
    let mut cartridge = cartridge(0x03, 0x01, 0x03, 4);
    cartridge.write(0x0000, 0x0A);
    let state = cartridge.state();
    for address in (0x8000..0xA000u16).chain(0xC000..=0xFFFF) {
        assert_eq!(cartridge.read(address), 0xFF);
    }
    for address in [0x8000u16, 0x9FFF, 0xC000, 0xDFFF, 0xE000, 0xFFFF] {
        cartridge.write(address, 0x12);
        assert_eq!(cartridge.read(address), 0xFF);
    }
    assert_eq!(cartridge.state(), state);
    assert!(cartridge.ram().iter().all(|b| *b == 0));
}

#[test]
fn mbc2_register_is_chosen_by_address_bit_eight() {
    let mut cartridge = cartridge(0x05, 0x03, 0x00, 16);
    cartridge.write(0x0000, 0x0A);
    assert!(cartridge.state().ram_enabled);
    assert_eq!(cartridge.state().rom_bank, 1);
    cartridge.write(0x0100, 0x07);
    assert_eq!(cartridge.state().rom_bank, 7);
    assert!(cartridge.state().ram_enabled);
    assert_eq!(window(&cartridge), bank_bytes(&cartridge, 7));
    cartridge.write(0x3EFF, 0x00);
    assert!(!cartridge.state().ram_enabled);
    assert_eq!(cartridge.state().rom_bank, 7);
    cartridge.write(0x3FFF, 0x1C);
    assert_eq!(cartridge.state().rom_bank, 0x0C);
    cartridge.write(0x2100, 0x00);
    assert_eq!(cartridge.state().rom_bank, 1);
    cartridge.write(0x2100, 0xF0);
    assert_eq!(cartridge.state().rom_bank, 1);
}

#[test]
fn mbc2_ignores_writes_to_the_upper_rom_window() {
    let mut cartridge = cartridge(0x06, 0x03, 0x00, 16);
    cartridge.write(0x2100, 0x05);
    let state = cartridge.state();
    for address in [0x4000u16, 0x4100, 0x5FFF, 0x6000, 0x6100, 0x7FFF] {
        cartridge.write(address, 0x0A);
        cartridge.write(address, 0x03);
    }
    assert_eq!(cartridge.state(), state);
}

#[test]
fn mbc2_has_no_banked_ram() {
    let mut cartridge = cartridge(0x06, 0x03, 0x03, 16);
    cartridge.write(0x0000, 0x0A);
    cartridge.write(0xA000, 0x05);
    assert_eq!(cartridge.read(0xA000), 0xFF);
    assert_eq!(cartridge.ram().len(), 0);
}

#[test]
fn mbc3_selects_seven_bits_and_aliases_zero() {
    let mut cartridge = cartridge(0x11, 0x54, 0x00, 96);
    cartridge.write(0x2000, 0x5F);
    assert_eq!(cartridge.state().rom_bank, 0x5F);
    assert_eq!(window(&cartridge), bank_bytes(&cartridge, 0x5F));
    cartridge.write(0x2000, 0xDF);
    assert_eq!(cartridge.state().rom_bank, 0x5F);
    cartridge.write(0x2000, 0x20);
    assert_eq!(window(&cartridge), bank_bytes(&cartridge, 0x20));
    cartridge.write(0x2000, 0x00);
    assert_eq!(window(&cartridge), bank_bytes(&cartridge, 1));
    cartridge.write(0x2000, 0x80);
    assert_eq!(cartridge.state().rom_bank, 1);
}

#[test]
fn mbc3_ram_banks() {
    let mut cartridge = cartridge(0x13, 0x01, 0x03, 4);
    cartridge.write(0x0000, 0x0A);
    for bank in 0..4u8 {
        cartridge.write(0x4000, bank);
        cartridge.write(0xA001, 0x40 + bank);
    }
    for bank in 0..4u8 {
        cartridge.write(0x4000, bank);
        assert_eq!(cartridge.read(0xA001), 0x40 + bank);
    }
    cartridge.write(0x4000, 0x06);
    assert_eq!(cartridge.read(0xA001), 0x42);
}

#[test]
fn mbc3_clock_registers_leave_the_ram_alone() {
    let mut cartridge = cartridge(0x10, 0x01, 0x03, 4);
    cartridge.write(0x0000, 0x0A);
    cartridge.write(0x4000, 0x00);
    cartridge.write(0xA000, 0x3C);
    for register in 0x08..=0x0Fu8 {
        cartridge.write(0x4000, register);
        assert_eq!(cartridge.read(0xA000), 0xFF, "register {:#04x}", register);
        cartridge.write(0xA000, 0x99);
    }
    assert!(cartridge.ram().iter().skip(1).all(|b| *b == 0));
    cartridge.write(0x4000, 0x00);
    assert_eq!(cartridge.read(0xA000), 0x3C);
}

#[test]
fn mbc3_latch_writes_change_nothing() {
    let mut cartridge = cartridge(0x10, 0x01, 0x03, 4);
    cartridge.write(0x2000, 3);
    let state = cartridge.state();
    cartridge.write(0x6000, 0x00);
    cartridge.write(0x6000, 0x01);
    cartridge.write(0x7FFF, 0xFF);
    assert_eq!(cartridge.state(), state);
    assert_eq!(cartridge.state().mode, BankingMode::Rom);
}

#[test]
fn mbc5_can_select_bank_zero() {
    let mut cartridge = cartridge(0x19, 0x01, 0x00, 4);
    cartridge.write(0x2000, 0x00);
    assert_eq!(cartridge.state().rom_bank, 0);
    assert_eq!(window(&cartridge), bank_bytes(&cartridge, 0));
    cartridge.write(0x2000, 0x03);
    assert_eq!(window(&cartridge), bank_bytes(&cartridge, 3));
}

#[test]
fn mbc5_bank_number_has_nine_bits() {
    let mut cartridge = cartridge(0x19, 0x08, 0x00, 96);
    cartridge.write(0x2000, 0x5F);
    assert_eq!(window(&cartridge), bank_bytes(&cartridge, 95));
    cartridge.write(0x3000, 0x01);
    assert_eq!(cartridge.state().rom_bank, 0x15F);
    assert_eq!(window(&cartridge), bank_bytes(&cartridge, 0x15F % 96));
    cartridge.write(0x2FFF, 0x01);
    assert_eq!(cartridge.state().rom_bank, 0x101);
    assert_eq!(window(&cartridge), bank_bytes(&cartridge, 257 % 96));
    cartridge.write(0x3FFF, 0xFE);
    assert_eq!(cartridge.state().rom_bank, 0x001);
    assert_eq!(window(&cartridge), bank_bytes(&cartridge, 1));
    cartridge.write(0x2000, 0xFF);
    assert_eq!(cartridge.state().rom_bank, 0xFF);
    assert_eq!(window(&cartridge), bank_bytes(&cartridge, 255 % 96));
}

#[test]
fn mbc5_ram_banks() {
    let mut cartridge = cartridge(0x1B, 0x01, 0x04, 4);
    cartridge.write(0x0000, 0x0A);
    for bank in 0..16u8 {
        cartridge.write(0x4000, bank);
        cartridge.write(0xB000, 0x80 + bank);
    }
    for bank in 0..16u8 {
        cartridge.write(0x4000, 0xF0 | bank);
        assert_eq!(cartridge.state().ram_bank, bank);
        assert_eq!(cartridge.read(0xB000), 0x80 + bank);
        assert_eq!(cartridge.ram()[bank as usize * 0x2000 + 0x1000], 0x80 + bank);
    }
}

#[test]
fn mbc5_rumble_bit_is_no_ram_bank_bit() {
    let mut cartridge = cartridge(0x1E, 0x01, 0x04, 4);
    cartridge.write(0x0000, 0x0A);
    cartridge.write(0x4000, 0x02);
    cartridge.write(0xA000, 0x21);
    cartridge.write(0x4000, 0x0A);
    assert_eq!(cartridge.state().ram_bank, 0x02);
    assert_eq!(cartridge.read(0xA000), 0x21);

    let mut plain = cartridge_without_rumble();
    plain.write(0x0000, 0x0A);
    plain.write(0x4000, 0x0A);
    assert_eq!(plain.state().ram_bank, 0x0A);
}

fn cartridge_without_rumble() -> MemoryBankController {
    cartridge(0x1B, 0x01, 0x04, 4)
}

#[test]
fn mbc5_writes_to_the_top_of_the_rom_change_nothing() {
    let mut cartridge = cartridge(0x1B, 0x01, 0x04, 4);
    let state = cartridge.state();
    cartridge.write(0x6000, 0x01);
    cartridge.write(0x7FFF, 0xFF);
    assert_eq!(cartridge.state(), state);
}

#[test]
fn translate_rom_reads() {
    let mut cartridge = cartridge(0x01, 0x01, 0x00, 4);
    assert_eq!(cartridge.translate(0x0000, Access::Read), Target::Rom(0));
    assert_eq!(cartridge.translate(0x3FFF, Access::Read), Target::Rom(0x3FFF));
    assert_eq!(cartridge.translate(0x4000, Access::Read), Target::Rom(0x4000));
    assert_eq!(cartridge.translate(0x7FFF, Access::Read), Target::Rom(0x7FFF));
    cartridge.write(0x2000, 3);
    assert_eq!(cartridge.translate(0x1234, Access::Read), Target::Rom(0x1234));
    assert_eq!(cartridge.translate(0x5234, Access::Read), Target::Rom(3 * 0x4000 + 0x1234));
    assert_eq!(cartridge.translate(0x7FFF, Access::Read), Target::Rom(0xFFFF));
    cartridge.write(0x2000, 6);
    assert_eq!(cartridge.translate(0x4001, Access::Read), Target::Rom(2 * 0x4000 + 1));
}

#[test]
fn translate_rom_writes() {
    let banked = cartridge(0x01, 0x01, 0x00, 4);
    for address in [0x0000u16, 0x1FFF, 0x2000, 0x4000, 0x6000, 0x7FFF] {
        assert_eq!(banked.translate(address, Access::Write), Target::Register);
    }
    let plain = cartridge(0x00, 0x00, 0x00, 2);
    for address in [0x0000u16, 0x1FFF, 0x2000, 0x4000, 0x6000, 0x7FFF] {
        assert_eq!(plain.translate(address, Access::Write), Target::Nothing);
    }
}

#[test]
fn translate_ram_window() {
    let mut cartridge = cartridge(0x1B, 0x01, 0x03, 4);
    for access in [Access::Read, Access::Write] {
        assert_eq!(cartridge.translate(0xA000, access), Target::Nothing);
    }
    cartridge.write(0x0000, 0x0A);
    for access in [Access::Read, Access::Write] {
        assert_eq!(cartridge.translate(0xA000, access), Target::Ram(0));
        assert_eq!(cartridge.translate(0xBFFF, access), Target::Ram(0x1FFF));
    }
    cartridge.write(0x4000, 2);
    for access in [Access::Read, Access::Write] {
        assert_eq!(cartridge.translate(0xA123, access), Target::Ram(2 * 0x2000 + 0x123));
    }
    cartridge.write(0x4000, 7);
    assert_eq!(cartridge.translate(0xA123, Access::Read), Target::Ram(3 * 0x2000 + 0x123));
}

#[test]
fn translate_elsewhere_is_nothing() {
    let mut cartridge = cartridge(0x1B, 0x01, 0x03, 4);
    cartridge.write(0x0000, 0x0A);
    for address in [0x8000u16, 0x9FFF, 0xC000, 0xDFFF, 0xE000, 0xFE00, 0xFFFF] {
        for access in [Access::Read, Access::Write] {
            assert_eq!(cartridge.translate(address, access), Target::Nothing);
        }
    }
}

#[test]
fn write_register_on_given_states() {
    let start = BankState::new();
    let mbc1 = resolve(0x03).unwrap();
    let mbc5 = resolve(0x1E).unwrap();
    assert_eq!(
        start.write_register(&mbc1, 0x2000, 0x27),
        BankState { rom_bank: 7, ..start }
    );
    assert_eq!(
        start.write_register(&mbc1, 0x4000, 0xFE),
        BankState { ram_bank: 2, ..start }
    );
    assert_eq!(
        start.write_register(&mbc1, 0x0000, 0x3A),
        BankState { ram_enabled: true, ..start }
    );
    assert_eq!(
        start.write_register(&mbc1, 0x6000, 0x01),
        BankState { mode: BankingMode::Ram, ..start }
    );
    assert_eq!(start.write_register(&mbc1, 0x8000, 0x01), start);
    assert_eq!(start.write_register(&ControllerType::RomOnly, 0x2000, 0x05), start);
    let high = BankState { rom_bank: 0x1AB, ..start };
    assert_eq!(
        high.write_register(&mbc5, 0x2000, 0xCD),
        BankState { rom_bank: 0x1CD, ..start }
    );
    assert_eq!(
        high.write_register(&mbc5, 0x3000, 0x00),
        BankState { rom_bank: 0x0AB, ..start }
    );
    let wild = BankState { rom_bank: 0xFFFF, ram_bank: 0xFF, ..start };
    assert_eq!(
        wild.write_register(&mbc5, 0x2000, 0x01),
        BankState { rom_bank: 0x101, ram_bank: 0xFF, ..start }
    );
    assert_eq!(
        wild.write_register(&mbc5, 0x3000, 0x00),
        BankState { rom_bank: 0x0FF, ram_bank: 0xFF, ..start }
    );
}

#[test]
fn bank_selection_on_given_states() {
    let start = BankState::new();
    let mbc1 = resolve(0x03).unwrap();
    let mbc3 = resolve(0x13).unwrap();
    let mbc5 = resolve(0x1B).unwrap();
    let state = BankState { rom_bank: 0x12, ram_bank: 0x03, ..start };
    assert_eq!(state.rom_bank_select(&mbc1), 3 * 32 + 0x12);
    assert_eq!(state.ram_bank_select(&mbc1), Some(0));
    let ram_mode = BankState { mode: BankingMode::Ram, ..state };
    assert_eq!(ram_mode.rom_bank_select(&mbc1), 0x12);
    assert_eq!(ram_mode.ram_bank_select(&mbc1), Some(3));
    assert_eq!(state.rom_bank_select(&mbc3), 0x12);
    assert_eq!(state.ram_bank_select(&mbc3), Some(3));
    assert_eq!(BankState { ram_bank: 0x08, ..state }.ram_bank_select(&mbc3), None);
    assert_eq!(BankState { ram_bank: 0x0C, ..state }.ram_bank_select(&mbc3), None);
    assert_eq!(BankState { ram_bank: 0x0F, ..state }.ram_bank_select(&mbc5), Some(15));
    assert_eq!(state.ram_bank_select(&ControllerType::RomOnly), None);
    assert_eq!(state.ram_bank_select(&resolve(0x06).unwrap()), None);
    assert_eq!(BankState { rom_bank: 0x1FF, ..state }.rom_bank_select(&mbc5), 0x1FF);
}

#[test]
fn restore_ram_takes_contents_of_the_right_size() {
    let mut cartridge = cartridge(0x03, 0x01, 0x03, 4);
    let saved: Vec<u8> = (0..4 * 0x2000).map(|i| (i % 253) as u8).collect();
    assert!(cartridge.restore_ram(&saved));
    assert_eq!(cartridge.ram(), &saved);
    cartridge.write(0x0000, 0x0A);
    cartridge.write(0x6000, 0x01);
    cartridge.write(0x4000, 0x02);
    assert_eq!(cartridge.read(0xA007), saved[2 * 0x2000 + 7]);
    assert_eq!(cartridge.state().rom_bank, 1);
}

#[test]
fn restore_ram_refuses_contents_of_another_size() {
    let mut cartridge = cartridge(0x03, 0x01, 0x02, 4);
    cartridge.write(0x0000, 0x0A);
    cartridge.write(0xA000, 0x5A);
    let before = cartridge.ram().clone();
    assert!(!cartridge.restore_ram(&vec![1u8; 0x2000 - 1]));
    assert!(!cartridge.restore_ram(&vec![1u8; 0x2000 + 1]));
    assert!(!cartridge.restore_ram(&[]));
    assert_eq!(cartridge.ram(), &before);
    assert_eq!(cartridge.read(0xA000), 0x5A);
}

#[test]
fn restore_ram_on_a_cartridge_without_ram() {
    let mut cartridge = cartridge(0x00, 0x00, 0x00, 2);
    assert!(cartridge.restore_ram(&[]));
    assert!(!cartridge.restore_ram(&[0u8; 1]));
}

#[test]
fn header_of_a_loaded_cartridge() {
    let cartridge = cartridge(0x13, 0x02, 0x03, 8);
    assert_eq!(cartridge.header().rom_banks, 8);
    assert_eq!(cartridge.header().ram_banks, 4);
    assert_eq!(cartridge.header().controller_type, resolve(0x13).unwrap());
    assert!(cartridge.header().logo_matches());
}
