//! Resolution of the controller-type byte of a cartridge header.
//!
//! The byte names a controller family together with the extras soldered next
//! to it. Codes outside the table below are rejected: an unknown controller is
//! never treated as a plain ROM.

use vstd::prelude::*;

verus! {

/// ROM size class of a controller family.
#[derive(Clone, Copy, Debug, PartialEq, Eq, Structural)]
pub enum ROM {
    /// Two fixed 16 KiB banks and no bank switching.
    RomOnly,
    /// Bank switching; the family's registers can select this many banks.
    Banks(u16),
}

/// Cartridge RAM next to the controller.
#[derive(Clone, Copy, Debug, PartialEq, Eq, Structural)]
pub enum RAM {
    Absent,
    /// RAM is fitted; the family's registers can select this many 8 KiB banks.
    Banks(u8),
}

/// Battery that keeps cartridge RAM alive while the console is off.
#[derive(Clone, Copy, Debug, PartialEq, Eq, Structural)]
pub enum Battery {
    Absent,
    Present,
}

/// Real-time clock.
#[derive(Clone, Copy, Debug, PartialEq, Eq, Structural)]
pub enum Timer {
    Absent,
    Present,
}

/// Rumble motor.
#[derive(Clone, Copy, Debug, PartialEq, Eq, Structural)]
pub enum Rumble {
    Absent,
    Present,
}

/// The memory bank controller a cartridge carries, with its extras.
#[derive(Clone, Copy, Debug, PartialEq, Eq, Structural)]
pub enum ControllerType {
    RomOnly,
    MBC1 { rom: ROM, ram: RAM, battery: Battery },
    MBC2 { rom: ROM, battery: Battery },
    MBC3 { rom: ROM, ram: RAM, battery: Battery, timer: Timer },
    MBC5 { rom: ROM, ram: RAM, battery: Battery, rumble: Rumble },
}

/// A controller-type byte that is not in the table; it carries the byte.
#[derive(Clone, Copy, Debug, PartialEq, Eq, Structural)]
pub struct UnsupportedType(pub u8);

/// ROM banks that the registers of each family can select.
pub const MBC1_ROM_BANKS: u16 = 128;

pub const MBC2_ROM_BANKS: u16 = 16;

pub const MBC3_ROM_BANKS: u16 = 128;

pub const MBC5_ROM_BANKS: u16 = 512;

/// RAM banks that the registers of each family can select.
pub const MBC1_RAM_BANKS: u8 = 4;

pub const MBC3_RAM_BANKS: u8 = 4;

pub const MBC5_RAM_BANKS: u8 = 16;

/// The controller-type bytes that `resolve` accepts.
pub open spec fn supported_codes() -> Set<u8> {
    set![
        0x00u8, 0x01u8, 0x02u8, 0x03u8, 0x05u8, 0x06u8, 0x0Fu8, 0x10u8, 0x11u8, 0x12u8, 0x13u8,
        0x19u8, 0x1Au8, 0x1Bu8, 0x1Cu8, 0x1Du8, 0x1Eu8,
    ]
}

pub open spec fn ram_if(fitted: bool, banks: u8) -> RAM {
    if fitted {
        RAM::Banks(banks)
    } else {
        RAM::Absent
    }
}

pub open spec fn battery_if(fitted: bool) -> Battery {
    if fitted {
        Battery::Present
    } else {
        Battery::Absent
    }
}

/// What each controller-type byte stands for: the family by the range the
/// byte falls in, each extra by the bytes of that range that have it.
pub open spec fn resolve_spec(type_byte: u8) -> Result<ControllerType, UnsupportedType> {
    let b = type_byte;
    if b == 0x00 {
        Ok(ControllerType::RomOnly)
    } else if 0x01 <= b <= 0x03 {
        Ok(
            ControllerType::MBC1 {
                rom: ROM::Banks(MBC1_ROM_BANKS),
                ram: ram_if(b >= 0x02, MBC1_RAM_BANKS),
                battery: battery_if(b == 0x03),
            },
        )
    } else if 0x05 <= b <= 0x06 {
        Ok(ControllerType::MBC2 { rom: ROM::Banks(MBC2_ROM_BANKS), battery: battery_if(b == 0x06) })
    } else if 0x0F <= b <= 0x13 {
        Ok(
            ControllerType::MBC3 {
                rom: ROM::Banks(MBC3_ROM_BANKS),
                ram: ram_if(b == 0x10 || b >= 0x12, MBC3_RAM_BANKS),
                battery: battery_if(b <= 0x10 || b == 0x13),
                timer: if b <= 0x10 {
                    Timer::Present
                } else {
                    Timer::Absent
                },
            },
        )
    } else if 0x19 <= b <= 0x1E {
        Ok(
            ControllerType::MBC5 {
                rom: ROM::Banks(MBC5_ROM_BANKS),
                ram: ram_if(b != 0x19 && b != 0x1C, MBC5_RAM_BANKS),
                battery: battery_if(b == 0x1B || b == 0x1E),
                rumble: if b >= 0x1C {
                    Rumble::Present
                } else {
                    Rumble::Absent
                },
            },
        )
    } else {
        Err(UnsupportedType(b))
    }
}

/// Maps a controller-type byte to the controller it names.
///
/// Succeeds exactly on the bytes of `supported_codes`; every other byte comes
/// back inside the error.
pub fn resolve(type_byte: u8) -> (r: Result<ControllerType, UnsupportedType>)
    ensures
        r == resolve_spec(type_byte),
        r is Ok <==> supported_codes().contains(type_byte),
        !supported_codes().contains(type_byte) ==> r == Err::<ControllerType, UnsupportedType>(
            UnsupportedType(type_byte),
        ),
{
    let rom1 = ROM::Banks(MBC1_ROM_BANKS);
    let rom2 = ROM::Banks(MBC2_ROM_BANKS);
    let rom3 = ROM::Banks(MBC3_ROM_BANKS);
    let rom5 = ROM::Banks(MBC5_ROM_BANKS);
    let ram1 = RAM::Banks(MBC1_RAM_BANKS);
    let ram3 = RAM::Banks(MBC3_RAM_BANKS);
    let ram5 = RAM::Banks(MBC5_RAM_BANKS);
    let controller = match type_byte {
        0x00 => ControllerType::RomOnly,
        0x01 => ControllerType::MBC1 { rom: rom1, ram: RAM::Absent, battery: Battery::Absent },
        0x02 => ControllerType::MBC1 { rom: rom1, ram: ram1, battery: Battery::Absent },
        0x03 => ControllerType::MBC1 { rom: rom1, ram: ram1, battery: Battery::Present },
        0x05 => ControllerType::MBC2 { rom: rom2, battery: Battery::Absent },
        0x06 => ControllerType::MBC2 { rom: rom2, battery: Battery::Present },
        0x0F => ControllerType::MBC3 {
            rom: rom3,
            ram: RAM::Absent,
            battery: Battery::Present,
            timer: Timer::Present,
        },
        0x10 => ControllerType::MBC3 {
            rom: rom3,
            ram: ram3,
            battery: Battery::Present,
            timer: Timer::Present,
        },
        0x11 => ControllerType::MBC3 {
            rom: rom3,
            ram: RAM::Absent,
            battery: Battery::Absent,
            timer: Timer::Absent,
        },
        0x12 => ControllerType::MBC3 {
            rom: rom3,
            ram: ram3,
            battery: Battery::Absent,
            timer: Timer::Absent,
        },
        0x13 => ControllerType::MBC3 {
            rom: rom3,
            ram: ram3,
            battery: Battery::Present,
            timer: Timer::Absent,
        },
        0x19 => ControllerType::MBC5 {
            rom: rom5,
            ram: RAM::Absent,
            battery: Battery::Absent,
            rumble: Rumble::Absent,
        },
        0x1A => ControllerType::MBC5 {
            rom: rom5,
            ram: ram5,
            battery: Battery::Absent,
            rumble: Rumble::Absent,
        },
        0x1B => ControllerType::MBC5 {
            rom: rom5,
            ram: ram5,
            battery: Battery::Present,
            rumble: Rumble::Absent,
        },
        0x1C => ControllerType::MBC5 {
            rom: rom5,
            ram: RAM::Absent,
            battery: Battery::Absent,
            rumble: Rumble::Present,
        },
        0x1D => ControllerType::MBC5 {
            rom: rom5,
            ram: ram5,
            battery: Battery::Absent,
            rumble: Rumble::Present,
        },
        0x1E => ControllerType::MBC5 {
            rom: rom5,
            ram: ram5,
            battery: Battery::Present,
            rumble: Rumble::Present,
        },
        _ => {
            return Err(UnsupportedType(type_byte));
        },
    };
    Ok(controller)
}

impl TryFrom<u8> for ControllerType {
    type Error = UnsupportedType;

    fn try_from(value: u8) -> (r: Result<Self, UnsupportedType>) {
        resolve(value)
    }
}

impl vstd::std_specs::convert::TryFromSpecImpl<u8> for ControllerType {
    open spec fn obeys_try_from_spec() -> bool {
        true
    }

    open spec fn try_from_spec(value: u8) -> Result<Self, UnsupportedType> {
        resolve_spec(value)
    }
}

impl ControllerType {
    /// The ROM size class of the controller.
    pub open spec fn spec_rom(&self) -> ROM {
        match *self {
            ControllerType::RomOnly => ROM::RomOnly,
            ControllerType::MBC1 { rom, .. } => rom,
            ControllerType::MBC2 { rom, .. } => rom,
            ControllerType::MBC3 { rom, .. } => rom,
            ControllerType::MBC5 { rom, .. } => rom,
        }
    }

    /// The cartridge RAM next to the controller. The families without a RAM
    /// field have none.
    pub open spec fn spec_ram(&self) -> RAM {
        match *self {
            ControllerType::RomOnly => RAM::Absent,
            ControllerType::MBC1 { ram, .. } => ram,
            ControllerType::MBC2 { .. } => RAM::Absent,
            ControllerType::MBC3 { ram, .. } => ram,
            ControllerType::MBC5 { ram, .. } => ram,
        }
    }

    /// The battery next to the controller.
    pub open spec fn spec_battery(&self) -> Battery {
        match *self {
            ControllerType::RomOnly => Battery::Absent,
            ControllerType::MBC1 { battery, .. } => battery,
            ControllerType::MBC2 { battery, .. } => battery,
            ControllerType::MBC3 { battery, .. } => battery,
            ControllerType::MBC5 { battery, .. } => battery,
        }
    }

    /// Whether a cartridge RAM region exists.
    pub open spec fn has_ram(&self) -> bool {
        self.spec_ram() is Banks
    }

    #[verifier::when_used_as_spec(spec_rom)]
    pub fn rom(&self) -> (r: ROM)
        ensures
            r == self.spec_rom(),
    {
        match *self {
            ControllerType::RomOnly => ROM::RomOnly,
            ControllerType::MBC1 { rom, .. }
            | ControllerType::MBC2 { rom, .. }
            | ControllerType::MBC3 { rom, .. }
            | ControllerType::MBC5 { rom, .. } => rom,
        }
    }

    #[verifier::when_used_as_spec(spec_ram)]
    pub fn ram(&self) -> (r: RAM)
        ensures
            r == self.spec_ram(),
    {
        match *self {
            ControllerType::MBC1 { ram, .. }
            | ControllerType::MBC3 { ram, .. }
            | ControllerType::MBC5 { ram, .. } => ram,
            ControllerType::RomOnly | ControllerType::MBC2 { .. } => RAM::Absent,
        }
    }

    #[verifier::when_used_as_spec(spec_battery)]
    pub fn battery(&self) -> (r: Battery)
        ensures
            r == self.spec_battery(),
    {
        match *self {
            ControllerType::RomOnly => Battery::Absent,
            ControllerType::MBC1 { battery, .. }
            | ControllerType::MBC2 { battery, .. }
            | ControllerType::MBC3 { battery, .. }
            | ControllerType::MBC5 { battery, .. } => battery,
        }
    }
}

/// An unknown controller-type byte is never taken for a plain ROM: only the
/// byte zero resolves to `RomOnly`, and every byte outside the table is
/// rejected with itself as the payload.
pub proof fn lemma_resolve_fails_closed(type_byte: u8)
    ensures
        resolve_spec(type_byte) is Ok <==> supported_codes().contains(type_byte),
        !supported_codes().contains(type_byte) ==> resolve_spec(type_byte) == Err::<
            ControllerType,
            UnsupportedType,
        >(UnsupportedType(type_byte)),
        resolve_spec(type_byte) == Ok::<ControllerType, UnsupportedType>(ControllerType::RomOnly)
            <==> type_byte == 0,
{
}

} // verus!
