//! The cartridge: its ROM and what the header of the ROM says of it.

use crate::lookups::{mbc_type, mbc_type_spec};
use vstd::prelude::*;

verus! {

/// Where the 48 bytes of the logo start.
pub const LOGO_START: usize = 0x104;

/// The length of the logo.
pub const LOGO_LEN: usize = 48;

/// Where the 16 bytes of the title start.
pub const TITLE_START: usize = 0x134;

/// The length of the title.
pub const TITLE_LEN: usize = 16;

/// Where the support flag of the enhanced console stands.
pub const SGB_FLAG_OFFSET: usize = 0x146;

/// The value of the support flag that says the enhanced console is
/// supported.
pub const SGB_SUPPORTED: u8 = 0x03;

/// Where the cartridge-type byte stands.
pub const CART_TYPE_OFFSET: usize = 0x147;

/// Where the ROM-size byte stands.
pub const ROM_SIZE_OFFSET: usize = 0x148;

/// Where the RAM-size byte stands.
pub const RAM_SIZE_OFFSET: usize = 0x149;

/// Where the destination code stands.
pub const DESTINATION_OFFSET: usize = 0x14A;

/// Where the version of the mask ROM stands. It is the last byte that the
/// header checksum covers, and the last that the metadata is read from.
pub const VERSION_OFFSET: usize = 0x14C;

/// Where the header checksum is stored.
pub const HEADER_CHECKSUM_OFFSET: usize = 0x14D;

/// Where the high byte of the checksum of the whole ROM is stored.
pub const GLOBAL_CHECKSUM_HIGH_OFFSET: usize = 0x14E;

/// Where the low byte of the checksum of the whole ROM is stored.
pub const GLOBAL_CHECKSUM_LOW_OFFSET: usize = 0x14F;

/// The length of a ROM that holds the whole header.
pub const HEADER_END: usize = 0x150;

/// Where a cartridge is sold.
#[derive(Clone, Copy, Debug, PartialEq, Eq)]
pub enum Destination {
    /// The domestic market: destination code 0.
    Japan,
    /// Everywhere else: every other destination code.
    Global,
}

/// What the header of a ROM says of its cartridge.
pub struct CartridgeMeta {
    /// The title: one character for each of its 16 bytes.
    pub title: String,
    /// Whether the enhanced console is supported.
    pub sgb_supported: bool,
    /// The cartridge type, as `mbc_type` describes it.
    pub cart_specs: (&'static str, u16, u8, bool, bool),
    /// The size of the ROM in KiB, where 16 bits can hold it.
    pub rom_size: Option<u16>,
    pub destination: Destination,
    /// The version of the mask ROM.
    pub version: u8,
    /// The 48 bytes of the logo.
    pub logo: [u8; 48],
}

/// A cartridge: its ROM, its RAM and what its header says.
pub struct Cartridge {
    pub rom: Vec<u8>,
    pub ram: Vec<u8>,
    pub meta: CartridgeMeta,
}

/// The title of a ROM: the 16 bytes at the title offset, each taken as the
/// character with that code.
pub open spec fn title_of(rom: Seq<u8>) -> Seq<char> {
    Seq::new(TITLE_LEN as nat, |i: int| rom[TITLE_START + i] as char)
}

/// The size of a ROM in KiB: 32 shifted left by the ROM-size byte, where that
/// fits in 16 bits, which it does up to a byte of 10.
pub open spec fn rom_size_kib(code: u8) -> Option<u16> {
    if code <= 10 {
        Some(32u16 << code)
    } else {
        None
    }
}

/// The size of the RAM in KiB that a RAM-size byte stands for, where it
/// stands for one.
pub open spec fn ram_size_kib(code: u8) -> Option<u8> {
    match code {
        0 => Some(0),
        2 => Some(8),
        3 => Some(32),
        4 => Some(128),
        5 => Some(64),
        _ => None,
    }
}

/// The destination that a destination code stands for.
pub open spec fn destination_of(code: u8) -> Destination {
    if code == 0 {
        Destination::Japan
    } else {
        Destination::Global
    }
}

impl Destination {
    /// The name of the destination.
    pub open spec fn label_spec(self) -> &'static str {
        match self {
            Destination::Japan => "Japan",
            Destination::Global => "Global",
        }
    }

    /// The name of the destination.
    pub fn label(self) -> (name: &'static str)
        ensures
            name == self.label_spec(),
    {
        match self {
            Destination::Japan => "Japan",
            Destination::Global => "Global",
        }
    }
}

impl CartridgeMeta {
    /// Whether the metadata is what the header of `rom` says.
    pub open spec fn describes(self, rom: Seq<u8>) -> bool {
        &&& self.title@ == title_of(rom)
        &&& self.sgb_supported == (rom[SGB_FLAG_OFFSET as int] == SGB_SUPPORTED)
        &&& self.cart_specs == mbc_type_spec(rom[CART_TYPE_OFFSET as int])
        &&& self.rom_size == rom_size_kib(rom[ROM_SIZE_OFFSET as int])
        &&& self.destination == destination_of(rom[DESTINATION_OFFSET as int])
        &&& self.version == rom[VERSION_OFFSET as int]
        &&& self.logo@ == rom.subrange(LOGO_START as int, LOGO_START + LOGO_LEN)
    }
}

impl Cartridge {
    /// The invariant of a cartridge: the ROM reaches to the end of the
    /// metadata, and the metadata is what its header says.
    pub open spec fn wf(self) -> bool {
        &&& self.rom@.len() > VERSION_OFFSET
        &&& self.meta.describes(self.rom@)
    }

    /// Makes a cartridge of the bytes of a ROM, with no RAM. A ROM too short
    /// to hold the metadata makes none.
    pub fn from_rom(rom: Vec<u8>) -> (cartridge: Option<Cartridge>)
        ensures
            cartridge is Some <==> rom@.len() > VERSION_OFFSET,
            cartridge matches Some(c) ==> c.rom@ == rom@ && c.ram@.len() == 0 && c.wf(),
    {
        if rom.len() > VERSION_OFFSET {
            let meta = populate_cart_meta(&rom);
            Some(Cartridge { rom, ram: Vec::new(), meta })
        } else {
            None
        }
    }
}

/// `String::push` of the standard library: appends one character to the end
/// of a string.
#[verifier::external_body]
fn push_char(text: &mut String, c: char)
    ensures
        final(text)@ == old(text)@.push(c),
{
    text.push(c);
}

/// Reads the title of a ROM.
pub fn read_title(data: &Vec<u8>) -> (title: String)
    requires
        data@.len() >= TITLE_START + TITLE_LEN,
    ensures
        title@ == title_of(data@),
{
    let mut title = String::new();
    let mut i: usize = 0;
    while i < TITLE_LEN
        invariant
            i <= TITLE_LEN,
            data@.len() >= TITLE_START + TITLE_LEN,
            title@.len() == i,
            forall|k: int| 0 <= k < i ==> title@[k] == data@[TITLE_START + k] as char,
        decreases TITLE_LEN - i,
    {
        push_char(&mut title, data[TITLE_START + i] as char);
        i += 1;
    }
    assert(title@ =~= title_of(data@));
    title
}

/// Reads the logo of a ROM.
pub fn read_logo(data: &Vec<u8>) -> (logo: [u8; 48])
    requires
        data@.len() >= LOGO_START + LOGO_LEN,
    ensures
        logo@ == data@.subrange(LOGO_START as int, LOGO_START + LOGO_LEN),
{
    let mut logo = [0u8; 48];
    let mut i: usize = 0;
    while i < LOGO_LEN
        invariant
            i <= LOGO_LEN,
            data@.len() >= LOGO_START + LOGO_LEN,
            forall|k: int| 0 <= k < i ==> logo@[k] == data@[LOGO_START + k],
        decreases LOGO_LEN - i,
    {
        logo[i] = data[LOGO_START + i];
        i += 1;
    }
    assert(logo@ =~= data@.subrange(LOGO_START as int, LOGO_START + LOGO_LEN));
    logo
}

/// The size in KiB of a ROM with this ROM-size byte: 32 shifted left by the
/// byte, or nothing where 16 bits cannot hold that.
pub fn read_rom_size(code: u8) -> (size: Option<u16>)
    ensures
        size == rom_size_kib(code),
{
    if code <= 10 {
        Some(32u16 << code)
    } else {
        None
    }
}

/// The size in KiB of the RAM that a RAM-size byte stands for, or nothing for
/// a byte that the table does not hold.
pub fn read_ram_size(code: u8) -> (size: Option<u8>)
    ensures
        size == ram_size_kib(code),
{
    match code {
        0 => Some(0),
        2 => Some(8),
        3 => Some(32),
        4 => Some(128),
        5 => Some(64),
        _ => None,
    }
}

/// The destination that a destination code stands for: the domestic market
/// for 0, the rest of the world for every other code.
pub fn read_destination(code: u8) -> (destination: Destination)
    ensures
        destination == destination_of(code),
{
    match code {
        0x00 => Destination::Japan,
        _ => Destination::Global,
    }
}

/// Reads the metadata of a cartridge from the header of its ROM.
pub fn populate_cart_meta(data: &Vec<u8>) -> (meta: CartridgeMeta)
    requires
        data@.len() > VERSION_OFFSET,
    ensures
        meta.describes(data@),
{
    let title = read_title(data);
    let sgb_supported = data[SGB_FLAG_OFFSET] == SGB_SUPPORTED;
    let cart_specs = mbc_type(data[CART_TYPE_OFFSET]);
    let rom_size = read_rom_size(data[ROM_SIZE_OFFSET]);
    let destination = read_destination(data[DESTINATION_OFFSET]);
    let version = data[VERSION_OFFSET];
    let logo = read_logo(data);
    CartridgeMeta { title, sgb_supported, cart_specs, rom_size, destination, version, logo }
}

/// A ROM-size byte up to 10 stands for 32 KiB doubled that many times: 32 KiB
/// for 0, and for each byte above 0 twice the size of the byte below it.
pub proof fn lemma_rom_size_doubles(code: u8)
    by (bit_vector)
    requires
        code <= 10,
    ensures
        32u16 << 0u8 == 32,
        code > 0 ==> (32u16 << code) == 2 * (32u16 << ((code - 1) as u8)),
        32 <= (32u16 << code) <= 32768,
{
}

} // verus!
