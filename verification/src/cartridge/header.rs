//! The header region of a cartridge image.
//!
//! The first `HEADER_SIZE` bytes of an image hold, at fixed offsets, the logo
//! bitmap, the title, two console-support flags, the controller type and the
//! size codes for ROM and RAM.

use crate::cartridge::controller::{
    lemma_resolve_fails_closed, resolve, resolve_spec, supported_codes, ControllerType,
    UnsupportedType,
};
use vstd::arithmetic::power2::{lemma2_to64, pow2};
use vstd::prelude::*;

verus! {

/// Length of the header region; a shorter image has no header.
pub const HEADER_SIZE: usize = 0x150;

/// Length of the logo bitmap.
pub const LOGO_SIZE: usize = 0x30;

/// Most ROM banks a header can declare.
pub const MAX_ROM_BANKS: usize = 96;

/// Most RAM banks a header can declare.
pub const MAX_RAM_BANKS: usize = 16;

/// Offset of the logo bitmap.
pub const LOGO_OFFSET: usize = 0x104;

/// Offset of the title.
pub const TITLE_OFFSET: usize = 0x134;

/// Length of the title field, padding included.
pub const TITLE_SIZE: usize = 15;

/// The byte that pads a title shorter than its field.
pub const TITLE_FILL: u8 = 0x00;

/// Offset of the color-support flag.
pub const COLOR_FLAG_OFFSET: usize = 0x143;

/// Offset of the super-console flag.
pub const SUPER_FLAG_OFFSET: usize = 0x146;

/// The value of the super-console flag that announces support.
pub const SUPER_FLAG_SUPPORTED: u8 = 0x03;

/// Offset of the controller-type byte.
pub const TYPE_OFFSET: usize = 0x147;

/// Offset of the ROM size code.
pub const ROM_SIZE_OFFSET: usize = 0x148;

/// Offset of the RAM size code.
pub const RAM_SIZE_OFFSET: usize = 0x149;

/// The bitmap that the console's boot program compares the header's logo to.
pub const LOGO: [u8; LOGO_SIZE] = [
    0xCE, 0xED, 0x66, 0x66, 0xCC, 0x0D, 0x00, 0x0B, 0x03, 0x73, 0x00, 0x83, 0x00, 0x0C, 0x00, 0x0D,
    0x00, 0x08, 0x11, 0x1F, 0x88, 0x89, 0x00, 0x0E, 0xDC, 0xCC, 0x6E, 0xE6, 0xDD, 0xDD, 0xD9, 0x99,
    0xBB, 0xBB, 0x67, 0x63, 0x6E, 0x0E, 0xEC, 0xCC, 0xDD, 0xDC, 0x99, 0x9F, 0xBB, 0xB9, 0x33, 0x3E,
];

/// Which console generation the cartridge was written for.
#[derive(Clone, Copy, Debug, PartialEq, Eq, Structural)]
pub enum GameboyMode {
    /// The monochrome console only.
    GameBoy,
    /// The cartridge can use the color console.
    GameBoyColor,
}

/// Whether the cartridge talks to the super-console adapter.
#[derive(Clone, Copy, Debug, PartialEq, Eq, Structural)]
pub enum SuperGameboy {
    NotSupported,
    Supported,
}

/// Why a byte sequence is not a header.
#[derive(Clone, Copy, Debug, PartialEq, Eq, Structural)]
pub enum HeaderError {
    /// The sequence is shorter than `HEADER_SIZE`.
    TooShort,
    /// The controller-type byte, carried here, is not in the table.
    UnsupportedType(u8),
}

/// The console generation that a color-support flag announces: color where
/// the flag's high bit is set.
pub open spec fn gameboy_mode_of(flag: u8) -> GameboyMode {
    if flag >= 0x80 {
        GameboyMode::GameBoyColor
    } else {
        GameboyMode::GameBoy
    }
}

/// The adapter support that a super-console flag announces.
pub open spec fn super_gameboy_of(flag: u8) -> SuperGameboy {
    if flag == SUPER_FLAG_SUPPORTED {
        SuperGameboy::Supported
    } else {
        SuperGameboy::NotSupported
    }
}

impl GameboyMode {
    /// Reads the color-support flag: its high bit announces color support.
    pub fn from_flag(flag: u8) -> (mode: Self)
        ensures
            mode == gameboy_mode_of(flag),
    {
        assert(flag & 0x80 == 0x80 <==> flag >= 0x80) by (bit_vector);
        match flag & 0x80 {
            0x80 => GameboyMode::GameBoyColor,
            _ => GameboyMode::GameBoy,
        }
    }
}

impl SuperGameboy {
    /// Reads the super-console flag: one value announces support.
    pub fn from_flag(flag: u8) -> (support: Self)
        ensures
            support == super_gameboy_of(flag),
    {
        if flag == SUPER_FLAG_SUPPORTED {
            SuperGameboy::Supported
        } else {
            SuperGameboy::NotSupported
        }
    }
}

impl From<u8> for GameboyMode {
    fn from(byte: u8) -> (mode: Self) {
        GameboyMode::from_flag(byte)
    }
}

impl vstd::std_specs::convert::FromSpecImpl<u8> for GameboyMode {
    open spec fn obeys_from_spec() -> bool {
        true
    }

    open spec fn from_spec(byte: u8) -> Self {
        gameboy_mode_of(byte)
    }
}

impl From<u8> for SuperGameboy {
    fn from(byte: u8) -> (support: Self) {
        SuperGameboy::from_flag(byte)
    }
}

impl vstd::std_specs::convert::FromSpecImpl<u8> for SuperGameboy {
    open spec fn obeys_from_spec() -> bool {
        true
    }

    open spec fn from_spec(byte: u8) -> Self {
        super_gameboy_of(byte)
    }
}

impl From<UnsupportedType> for HeaderError {
    fn from(e: UnsupportedType) -> (err: Self) {
        HeaderError::UnsupportedType(e.0)
    }
}

impl vstd::std_specs::convert::FromSpecImpl<UnsupportedType> for HeaderError {
    open spec fn obeys_from_spec() -> bool {
        true
    }

    open spec fn from_spec(e: UnsupportedType) -> Self {
        HeaderError::UnsupportedType(e.0)
    }
}

/// ROM banks that a ROM size code declares, capped at `MAX_ROM_BANKS`.
///
/// The codes up to 8 double from two banks on; three more codes name sizes
/// in between. A code outside both groups declares the smallest size.
pub open spec fn rom_banks_for(code: u8) -> nat {
    if code == 0x00 {
        2
    } else if code == 0x01 {
        4
    } else if code == 0x02 {
        8
    } else if code == 0x03 {
        16
    } else if code == 0x04 {
        32
    } else if code == 0x05 {
        64
    } else if code <= 0x08 {
        MAX_ROM_BANKS as nat
    } else if code == 0x52 {
        72
    } else if code == 0x53 {
        80
    } else if code == 0x54 {
        96
    } else {
        2
    }
}

/// RAM banks that a RAM size code declares. A code outside the table
/// declares none.
pub open spec fn ram_banks_for(code: u8) -> nat {
    if code == 0x01 || code == 0x02 {
        1
    } else if code == 0x03 {
        4
    } else if code == 0x04 {
        16
    } else if code == 0x05 {
        8
    } else {
        0
    }
}

/// RAM banks by RAM size code, for the codes that the table knows.
pub const RAM_BANKS_BY_CODE: [usize; 6] = [0, 1, 1, 4, 16, 8];

/// Looks a ROM size code up: for a doubling code it shifts and caps what
/// comes out, for the three codes in between it picks their size.
pub fn rom_bank_count(code: u8) -> (banks: usize)
    ensures
        banks == rom_banks_for(code),
        2 <= banks <= MAX_ROM_BANKS,
{
    if code <= 0x08 {
        let declared: u32 = 2u32 << (code as u32);
        assert((code == 0 ==> declared == 2) && (code == 1 ==> declared == 4) && (code == 2
            ==> declared == 8) && (code == 3 ==> declared == 16) && (code == 4 ==> declared == 32)
            && (code == 5 ==> declared == 64) && (code == 6 ==> declared == 128) && (code == 7
            ==> declared == 256) && (code == 8 ==> declared == 512)) by (bit_vector)
            requires
                declared == 2u32 << (code as u32),
        ;
        if declared as usize > MAX_ROM_BANKS {
            MAX_ROM_BANKS
        } else {
            declared as usize
        }
    } else {
        match code {
            0x52 => 72,
            0x53 => 80,
            0x54 => 96,
            _ => 2,
        }
    }
}

/// Looks a RAM size code up.
pub fn ram_bank_count(code: u8) -> (banks: usize)
    ensures
        banks == ram_banks_for(code),
        banks <= MAX_RAM_BANKS,
{
    if (code as usize) < RAM_BANKS_BY_CODE.len() {
        RAM_BANKS_BY_CODE[code as usize]
    } else {
        0
    }
}

/// The doubling size codes declare two banks times two to the code, as far
/// as the cap allows; no code declares fewer than two banks or more than the
/// cap.
pub proof fn lemma_rom_banks_double(code: u8)
    ensures
        2 <= rom_banks_for(code) <= MAX_ROM_BANKS,
        code <= 0x08 ==> rom_banks_for(code) == (if 2 * pow2(code as nat) <= MAX_ROM_BANKS {
            2 * pow2(code as nat)
        } else {
            MAX_ROM_BANKS as nat
        }),
{
    lemma2_to64();
}

/// Length of `field` without the fill bytes at its end.
pub open spec fn trimmed_len(field: Seq<u8>) -> nat
    decreases field.len(),
{
    if field.len() > 0 && field.last() == TITLE_FILL {
        trimmed_len(field.drop_last())
    } else {
        field.len()
    }
}

/// The title field of an image, padding included.
pub open spec fn title_field(bytes: Seq<u8>) -> Seq<u8> {
    bytes.subrange(TITLE_OFFSET as int, TITLE_OFFSET + TITLE_SIZE)
}

/// The title of an image: the title field without its padding, each byte
/// taken as the character with that code.
pub open spec fn title_of(bytes: Seq<u8>) -> Seq<char> {
    let field = title_field(bytes);
    Seq::new(trimmed_len(field), |i: int| field[i] as char)
}

/// The logo bitmap of an image.
pub open spec fn logo_of(bytes: Seq<u8>) -> Seq<u8> {
    bytes.subrange(LOGO_OFFSET as int, LOGO_OFFSET + LOGO_SIZE)
}

/// What trimming means: only fill bytes are cut, and what is left does not
/// end in one.
pub proof fn lemma_trimmed_len(field: Seq<u8>)
    ensures
        trimmed_len(field) <= field.len(),
        forall|i: int| trimmed_len(field) <= i < field.len() ==> field[i] == TITLE_FILL,
        trimmed_len(field) > 0 ==> field[trimmed_len(field) - 1] != TITLE_FILL,
    decreases field.len(),
{
    if field.len() > 0 && field.last() == TITLE_FILL {
        let rest = field.drop_last();
        lemma_trimmed_len(rest);
        assert forall|i: int| trimmed_len(field) <= i < field.len() implies field[i]
            == TITLE_FILL by {
            if i < rest.len() {
                assert(field[i] == rest[i]);
            }
        }
    }
}

/// A snapshot of an image's header. `parse` is the way to make one.
#[derive(Debug, PartialEq, Eq)]
pub struct Header {
    pub logo: [u8; LOGO_SIZE],
    pub title: String,
    pub gameboy_mode: GameboyMode,
    pub super_gameboy: SuperGameboy,
    pub controller_type: ControllerType,
    pub rom_banks: usize,
    pub ram_banks: usize,
}

/// A header as plain mathematical values.
pub struct HeaderModel {
    pub logo: Seq<u8>,
    pub title: Seq<char>,
    pub gameboy_mode: GameboyMode,
    pub super_gameboy: SuperGameboy,
    pub controller_type: ControllerType,
    pub rom_banks: nat,
    pub ram_banks: nat,
}

impl View for Header {
    type V = HeaderModel;

    open spec fn view(&self) -> HeaderModel {
        HeaderModel {
            logo: self.logo@,
            title: self.title@,
            gameboy_mode: self.gameboy_mode,
            super_gameboy: self.super_gameboy,
            controller_type: self.controller_type,
            rom_banks: self.rom_banks as nat,
            ram_banks: self.ram_banks as nat,
        }
    }
}

impl HeaderModel {
    /// The bounds that every parsed header meets.
    pub open spec fn wf(self) -> bool {
        &&& self.logo.len() == LOGO_SIZE
        &&& self.title.len() <= TITLE_SIZE
        &&& 2 <= self.rom_banks <= MAX_ROM_BANKS
        &&& self.ram_banks <= MAX_RAM_BANKS
    }
}

/// The header that a byte sequence holds, or why it holds none.
pub open spec fn parse_spec(bytes: Seq<u8>) -> Result<HeaderModel, HeaderError> {
    if bytes.len() < HEADER_SIZE {
        Err(HeaderError::TooShort)
    } else {
        match resolve_spec(bytes[TYPE_OFFSET as int]) {
            Err(e) => Err(HeaderError::UnsupportedType(e.0)),
            Ok(controller_type) => Ok(
                HeaderModel {
                    logo: logo_of(bytes),
                    title: title_of(bytes),
                    gameboy_mode: gameboy_mode_of(bytes[COLOR_FLAG_OFFSET as int]),
                    super_gameboy: super_gameboy_of(bytes[SUPER_FLAG_OFFSET as int]),
                    controller_type,
                    rom_banks: rom_banks_for(bytes[ROM_SIZE_OFFSET as int]),
                    ram_banks: ram_banks_for(bytes[RAM_SIZE_OFFSET as int]),
                },
            ),
        }
    }
}

/// `String::push` of the standard library: the string afterwards is the
/// string before with `c` appended, as its documentation says.
pub assume_specification[ String::push ](s: &mut String, c: char)
    ensures
        final(s)@ == old(s)@.push(c),
;

fn read_logo(bytes: &[u8]) -> (logo: [u8; LOGO_SIZE])
    requires
        bytes@.len() >= HEADER_SIZE,
    ensures
        logo@ == logo_of(bytes@),
{
    let mut logo: [u8; LOGO_SIZE] = [0u8; LOGO_SIZE];
    let mut i: usize = 0;
    while i < LOGO_SIZE
        invariant
            i <= LOGO_SIZE,
            bytes@.len() >= HEADER_SIZE,
            forall|j: int| 0 <= j < i ==> logo@[j] == bytes@[LOGO_OFFSET + j],
        decreases LOGO_SIZE - i,
    {
        logo[i] = bytes[LOGO_OFFSET + i];
        i = i + 1;
    }
    assert(logo@ =~= logo_of(bytes@));
    logo
}

fn read_title(bytes: &[u8]) -> (title: String)
    requires
        bytes@.len() >= HEADER_SIZE,
    ensures
        title@ == title_of(bytes@),
{
    let ghost field = title_field(bytes@);
    let mut len: usize = TITLE_SIZE;
    assert(field.take(TITLE_SIZE as int) =~= field);
    while len > 0 && bytes[TITLE_OFFSET + len - 1] == TITLE_FILL
        invariant
            len <= TITLE_SIZE,
            bytes@.len() >= HEADER_SIZE,
            field == title_field(bytes@),
            trimmed_len(field) == trimmed_len(field.take(len as int)),
        decreases len,
    {
        assert(field.take(len as int).drop_last() =~= field.take(len - 1));
        len = len - 1;
    }
    let mut title = String::new();
    let mut i: usize = 0;
    while i < len
        invariant
            i <= len <= TITLE_SIZE,
            bytes@.len() >= HEADER_SIZE,
            field == title_field(bytes@),
            title@ == Seq::new(i as nat, |k: int| field[k] as char),
        decreases len - i,
    {
        title.push(bytes[TITLE_OFFSET + i] as char);
        i = i + 1;
        assert(title@ =~= Seq::new(i as nat, |k: int| field[k] as char));
    }
    title
}

/// Decodes the header region of an image.
///
/// Fails with `TooShort` on fewer than `HEADER_SIZE` bytes, and with
/// `UnsupportedType` where the controller-type byte is not in the table.
/// Every other sequence has a header. The logo is copied, not judged:
/// `Header::logo_matches` does that.
pub fn parse(bytes: &[u8]) -> (r: Result<Header, HeaderError>)
    ensures
        match r {
            Ok(h) => parse_spec(bytes@) == Ok::<HeaderModel, HeaderError>(h@) && h@.wf(),
            Err(e) => parse_spec(bytes@) == Err::<HeaderModel, HeaderError>(e),
        },
        bytes@.len() < HEADER_SIZE ==> r == Err::<Header, HeaderError>(HeaderError::TooShort),
        r is Ok <==> bytes@.len() >= HEADER_SIZE && supported_codes().contains(
            bytes@[TYPE_OFFSET as int],
        ),
{
    if bytes.len() < HEADER_SIZE {
        return Err(HeaderError::TooShort);
    }
    let controller_type = match resolve(bytes[TYPE_OFFSET]) {
        Ok(controller_type) => controller_type,
        Err(e) => {
            return Err(HeaderError::UnsupportedType(e.0));
        },
    };
    let header = Header {
        logo: read_logo(bytes),
        title: read_title(bytes),
        gameboy_mode: GameboyMode::from_flag(bytes[COLOR_FLAG_OFFSET]),
        super_gameboy: SuperGameboy::from_flag(bytes[SUPER_FLAG_OFFSET]),
        controller_type,
        rom_banks: rom_bank_count(bytes[ROM_SIZE_OFFSET]),
        ram_banks: ram_bank_count(bytes[RAM_SIZE_OFFSET]),
    };
    proof {
        lemma_trimmed_len(title_field(bytes@));
    }
    Ok(header)
}

impl Header {
    /// Whether the header's logo is the bitmap that the console expects.
    pub fn logo_matches(&self) -> (same: bool)
        ensures
            same == (self@.logo == LOGO@),
    {
        let mut i: usize = 0;
        while i < LOGO_SIZE
            invariant
                i <= LOGO_SIZE,
                forall|j: int| 0 <= j < i ==> self.logo@[j] == LOGO@[j],
            decreases LOGO_SIZE - i,
        {
            if self.logo[i] != LOGO[i] {
                return false;
            }
            i = i + 1;
        }
        assert(self.logo@ =~= LOGO@);
        true
    }
}

/// Every parsed header is within the bounds of `HeaderModel::wf`, whatever
/// the size codes say.
pub proof fn lemma_parsed_header_is_bounded(bytes: Seq<u8>)
    ensures
        parse_spec(bytes) matches Ok(h) ==> h.wf(),
{
    if bytes.len() >= HEADER_SIZE {
        lemma_trimmed_len(title_field(bytes));
    }
}

/// When each outcome of parsing comes: `TooShort` exactly below the header
/// size, `UnsupportedType` exactly on a full header region whose
/// controller-type byte is outside the table, and with that byte; a header in
/// every other case.
pub proof fn lemma_parse_outcomes(bytes: Seq<u8>)
    ensures
        parse_spec(bytes) == Err::<HeaderModel, HeaderError>(HeaderError::TooShort) <==> bytes.len()
            < HEADER_SIZE,
        forall|code: u8|
            parse_spec(bytes) == Err::<HeaderModel, HeaderError>(
                HeaderError::UnsupportedType(code),
            ) <==> bytes.len() >= HEADER_SIZE && code == bytes[TYPE_OFFSET as int]
                && !supported_codes().contains(code),
        parse_spec(bytes) is Ok <==> bytes.len() >= HEADER_SIZE && supported_codes().contains(
            bytes[TYPE_OFFSET as int],
        ),
{
    if bytes.len() >= HEADER_SIZE {
        lemma_resolve_fails_closed(bytes[TYPE_OFFSET as int]);
    }
}

/// No image shorter than the header region has a header, and the length is
/// tested before anything else.
pub proof fn lemma_short_image_has_no_header(bytes: Seq<u8>)
    requires
        bytes.len() < HEADER_SIZE,
    ensures
        parse_spec(bytes) == Err::<HeaderModel, HeaderError>(HeaderError::TooShort),
{
}

} // verus!
