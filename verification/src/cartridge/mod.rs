//! Cartridge images: header, controller type and bank switching.

pub mod controller;
pub mod header;
pub mod laws;
pub mod mbc;

use crate::cartridge::controller::supported_codes;
use crate::cartridge::header::{
    lemma_parse_outcomes, lemma_parsed_header_is_bounded, logo_of, parse, parse_spec, Header,
    HeaderError, HeaderModel, HEADER_SIZE, LOGO, TYPE_OFFSET,
};
use crate::cartridge::mbc::{MbcModel, MemoryBankController};
use crate::types::Address;
use vstd::prelude::*;
use vstd::slice::slice_to_vec;

verus! {

/// Size of one ROM bank.
pub const ROM_BANK_SIZE: usize = 0x4000;

/// Size of one RAM bank.
pub const RAM_BANK_SIZE: usize = 0x2000;

/// First address of the switchable ROM window; the fixed window lies below.
pub const SWITCHABLE_ROM_BASE: Address = 0x4000;

/// First address above the two ROM windows.
pub const ROM_CEILING: Address = 0x8000;

/// First address of the cartridge RAM window.
pub const RAM_WINDOW_BASE: Address = 0xA000;

/// First address above the cartridge RAM window.
pub const RAM_WINDOW_END: Address = 0xC000;

/// What a read finds where nothing answers.
pub const OPEN_BUS: u8 = 0xFF;

/// The bus side of a cartridge: one byte in or out per access.
///
/// An implementation says, through `byte_at` and `write_leaves`, what its
/// state shows at each address and how a write changes that state.
pub trait Cartridge {
    /// The byte that a read of `address` finds.
    spec fn byte_at(&self, address: Address) -> u8;

    /// Whether `after` is the cartridge that a write of `value` to
    /// `address` leaves behind.
    spec fn write_leaves(&self, address: Address, value: u8, after: &Self) -> bool;

    /// Reads one byte. Every address has an answer: `byte_at`.
    fn read(&self, address: Address) -> (value: u8)
        ensures
            value == self.byte_at(address),
    ;

    /// Writes one byte. Every write is taken; what it changes, if
    /// anything, `write_leaves` says.
    fn write(&mut self, address: Address, value: u8)
        ensures
            old(self).write_leaves(address, value, final(self)),
    ;

    /// Decodes the header region of an image, as `header::parse` does.
    fn read_header(bytes: &Vec<u8>) -> (r: Result<Header, HeaderError>)
        ensures
            match r {
                Ok(h) => parse_spec(bytes@) == Ok::<HeaderModel, HeaderError>(h@) && h@.wf(),
                Err(e) => parse_spec(bytes@) == Err::<HeaderModel, HeaderError>(e),
            },
            bytes@.len() < HEADER_SIZE ==> r == Err::<Header, HeaderError>(HeaderError::TooShort),
            r is Ok <==> bytes@.len() >= HEADER_SIZE && supported_codes().contains(
                bytes@[TYPE_OFFSET as int],
            ),
    {
        parse(bytes.as_slice())
    }
}

/// Why an image could not be loaded.
#[derive(Clone, Copy, Debug, PartialEq, Eq, Structural)]
pub enum LoadError {
    /// The image is shorter than the header region.
    HeaderTooShort,
    /// The controller-type byte, carried here, is not in the table.
    UnsupportedControllerType(u8),
    /// The header's logo is not the bitmap that the console expects.
    LogoMismatch,
}

/// The load error that a header error becomes.
pub open spec fn load_error_of(e: HeaderError) -> LoadError {
    match e {
        HeaderError::TooShort => LoadError::HeaderTooShort,
        HeaderError::UnsupportedType(code) => LoadError::UnsupportedControllerType(code),
    }
}

impl From<HeaderError> for LoadError {
    fn from(e: HeaderError) -> (err: Self) {
        match e {
            HeaderError::TooShort => LoadError::HeaderTooShort,
            HeaderError::UnsupportedType(code) => LoadError::UnsupportedControllerType(code),
        }
    }
}

impl vstd::std_specs::convert::FromSpecImpl<HeaderError> for LoadError {
    open spec fn obeys_from_spec() -> bool {
        true
    }

    open spec fn from_spec(e: HeaderError) -> Self {
        load_error_of(e)
    }
}

/// The cartridge that an image loads as, or why it does not load.
///
/// The header is judged first, then, if `check_logo` asks for it, the logo.
/// A cartridge that loads starts at power-on with its RAM zeroed.
pub open spec fn load_spec(bytes: Seq<u8>, check_logo: bool) -> Result<MbcModel, LoadError> {
    match parse_spec(bytes) {
        Err(e) => Err(load_error_of(e)),
        Ok(header) => if check_logo && header.logo != LOGO@ {
            Err(LoadError::LogoMismatch)
        } else {
            Ok(MbcModel::fresh(header, bytes))
        },
    }
}

/// When each outcome of loading comes: the header's errors as parsing has
/// them, `LogoMismatch` exactly on an image with a header whose logo is
/// asked for and is not the expected bitmap, a cartridge in every other
/// case.
pub proof fn lemma_load_outcomes(bytes: Seq<u8>, check_logo: bool)
    ensures
        load_spec(bytes, check_logo) == Err::<MbcModel, LoadError>(LoadError::HeaderTooShort)
            <==> bytes.len() < HEADER_SIZE,
        forall|code: u8|
            load_spec(bytes, check_logo) == Err::<MbcModel, LoadError>(
                LoadError::UnsupportedControllerType(code),
            ) <==> bytes.len() >= HEADER_SIZE && code == bytes[TYPE_OFFSET as int]
                && !supported_codes().contains(code),
        load_spec(bytes, check_logo) == Err::<MbcModel, LoadError>(LoadError::LogoMismatch)
            <==> bytes.len() >= HEADER_SIZE && supported_codes().contains(
            bytes[TYPE_OFFSET as int],
        ) && check_logo && logo_of(bytes) != LOGO@,
        load_spec(bytes, check_logo) is Ok <==> bytes.len() >= HEADER_SIZE
            && supported_codes().contains(bytes[TYPE_OFFSET as int]) && (check_logo ==> logo_of(
            bytes,
        ) == LOGO@),
        load_spec(bytes, check_logo) matches Ok(cartridge) ==> cartridge.wf(),
{
    lemma_parse_outcomes(bytes);
    lemma_parsed_header_is_bounded(bytes);
}

fn load_image(bytes: &[u8], check_logo: bool) -> (r: Result<MemoryBankController, LoadError>)
    ensures
        match r {
            Ok(cartridge) => load_spec(bytes@, check_logo) == Ok::<MbcModel, LoadError>(cartridge@)
                && cartridge@.wf(),
            Err(e) => load_spec(bytes@, check_logo) == Err::<MbcModel, LoadError>(e),
        },
{
    let header = match parse(bytes) {
        Ok(header) => header,
        Err(HeaderError::TooShort) => {
            return Err(LoadError::HeaderTooShort);
        },
        Err(HeaderError::UnsupportedType(code)) => {
            return Err(LoadError::UnsupportedControllerType(code));
        },
    };
    if check_logo && !header.logo_matches() {
        return Err(LoadError::LogoMismatch);
    }
    Ok(MemoryBankController::assemble(header, slice_to_vec(bytes)))
}

/// Loads a cartridge image and insists on the logo.
///
/// Fails with `HeaderTooShort` on an image shorter than the header region,
/// else with `UnsupportedControllerType` on a controller-type byte outside
/// the table, else with `LogoMismatch` on a logo that is not the expected
/// bitmap. Every other image loads. Nothing is built before all three
/// tests have passed.
pub fn load(bytes: &[u8]) -> (r: Result<MemoryBankController, LoadError>)
    ensures
        match r {
            Ok(cartridge) => load_spec(bytes@, true) == Ok::<MbcModel, LoadError>(cartridge@)
                && cartridge@.wf(),
            Err(e) => load_spec(bytes@, true) == Err::<MbcModel, LoadError>(e),
        },
        r is Ok <==> bytes@.len() >= HEADER_SIZE && supported_codes().contains(
            bytes@[TYPE_OFFSET as int],
        ) && logo_of(bytes@) == LOGO@,
        bytes@.len() < HEADER_SIZE ==> r is Err && r->Err_0 == LoadError::HeaderTooShort,
{
    load_image(bytes, true)
}

/// Loads a cartridge image without judging the logo: the image of a
/// cartridge that the console itself would refuse to boot still loads.
///
/// Fails with `HeaderTooShort` and `UnsupportedControllerType` as `load`
/// does, and never with `LogoMismatch`.
pub fn load_permissive(bytes: &[u8]) -> (r: Result<MemoryBankController, LoadError>)
    ensures
        match r {
            Ok(cartridge) => load_spec(bytes@, false) == Ok::<MbcModel, LoadError>(cartridge@)
                && cartridge@.wf(),
            Err(e) => load_spec(bytes@, false) == Err::<MbcModel, LoadError>(e),
        },
        r is Ok <==> bytes@.len() >= HEADER_SIZE && supported_codes().contains(
            bytes@[TYPE_OFFSET as int],
        ),
        bytes@.len() < HEADER_SIZE ==> r is Err && r->Err_0 == LoadError::HeaderTooShort,
{
    load_image(bytes, false)
}

} // verus!
