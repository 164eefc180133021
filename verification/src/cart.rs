//! Cartridge image: raw ROM bytes plus the header parsed from fixed
//! offsets in the 32KB bank that ends at 0x8000.

use vstd::prelude::*;

verus! {

/// Offset of the 21-byte title inside the ROM image.
pub const HDR_TITLE: usize = 0x7FC0;

/// Parsed cartridge header. ROM and SRAM sizes are decoded from their
/// exponent bytes as `0x400 << byte`.
#[derive(Debug, Clone, PartialEq, Eq)]
pub struct SnesHeader {
    /// 21 raw ASCII title bytes
    pub game_title: Vec<u8>,
    pub makeup_byte: u8,
    pub rom_type: u8,
    pub rom_size: u64,
    pub sram_size: u64,
    pub license_id_low: u8,
    pub license_id_high: u8,
    pub version: u8,
    pub check_compl: u8,
    pub checksum_low: u8,
    pub checksum_high: u8,
}

/// `0x400 << byte`, the size encoding shared by the ROM-size and
/// SRAM-size header bytes (zero once the shift leaves the 64-bit range).
pub open spec fn spec_size_class(byte: u8) -> u64 {
    if byte < 64 {
        0x400u64 << byte
    } else {
        0u64
    }
}

#[verifier::when_used_as_spec(spec_size_class)]
pub fn size_class(byte: u8) -> (r: u64)
    ensures
        r == spec_size_class(byte),
{
    if byte < 64 {
        0x400u64 << byte
    } else {
        0u64
    }
}

impl SnesHeader {
    /// Every field's relation to the ROM bytes it was parsed from.
    pub open spec fn parsed_from(self, rom: Seq<u8>) -> bool {
        &&& self.game_title@ == rom.subrange(0x7FC0int, 0x7FC0 + 21int)
        &&& self.makeup_byte == rom[0x7FD5]
        &&& self.rom_type == rom[0x7FD6]
        &&& self.rom_size == spec_size_class(rom[0x7FD7])
        &&& self.sram_size == spec_size_class(rom[0x7FD8])
        &&& self.license_id_low == rom[0x7FD9]
        &&& self.license_id_high == rom[0x7FDA]
        &&& self.version == rom[0x7FDB]
        &&& self.check_compl == rom[0x7FDC]
        &&& self.checksum_low == rom[0x7FDE]
        &&& self.checksum_high == rom[0x7FDF]
    }

    /// Parse the header out of a full ROM image.
    pub fn from(rom: &Vec<u8>) -> (r: SnesHeader)
        requires
            rom@.len() >= 0x8000,
        ensures
            r.parsed_from(rom@),
    {
        let mut title: Vec<u8> = Vec::new();
        let mut i: usize = 0;
        while i < 21
            invariant
                i <= 21,
                rom@.len() >= 0x8000,
                title@ =~= rom@.subrange(0x7FC0, 0x7FC0 + i as int),
            decreases 21 - i,
        {
            title.push(rom[HDR_TITLE + i]);
            i += 1;
        }
        proof {
            assert(title@ =~= rom@.subrange(0x7FC0int, 0x7FC0 + 21int));
        }
        SnesHeader {
            game_title: title,
            makeup_byte: rom[0x7FD5],
            rom_type: rom[0x7FD6],
            rom_size: size_class(rom[0x7FD7]),
            sram_size: size_class(rom[0x7FD8]),
            license_id_low: rom[0x7FD9],
            license_id_high: rom[0x7FDA],
            version: rom[0x7FDB],
            check_compl: rom[0x7FDC],
            checksum_low: rom[0x7FDE],
            checksum_high: rom[0x7FDF],
        }
    }
}

/// A cartridge: the ROM image together with its parsed header.
#[derive(Debug, Clone, PartialEq, Eq)]
pub struct SnesCart {
    cart_data: Vec<u8>,
    rom_length: usize,
    header: SnesHeader,
}

impl View for SnesCart {
    type V = Seq<u8>;

    closed spec fn view(&self) -> Seq<u8> {
        self.cart_data@
    }
}

impl SnesCart {
    /// The header this cartridge carries.
    pub closed spec fn spec_header(self) -> SnesHeader {
        self.header
    }

    /// The image is large enough to hold one full bank and the header,
    /// and the carried header is the one parsed from the image.
    pub open spec fn wf(self) -> bool {
        &&& self@.len() >= 0x8000
        &&& self.spec_header().parsed_from(self@)
    }

    pub fn new(rom: Vec<u8>) -> (r: SnesCart)
        requires
            rom@.len() >= 0x8000,
        ensures
            r.wf(),
            r@ == rom@,
    {
        let header = SnesHeader::from(&rom);
        let rom_length = rom.len();
        SnesCart { cart_data: rom, rom_length, header }
    }

    /// Byte-indexed read of the raw image.
    pub fn read(&self, index: usize) -> (r: u8)
        requires
            index < self@.len(),
        ensures
            r == self@[index as int],
    {
        self.cart_data[index]
    }

    /// Length of the raw image in bytes.
    pub fn len(&self) -> (r: usize)
        ensures
            r == self@.len(),
    {
        self.cart_data.len()
    }

    /// A second cartridge with the same image and an equal header,
    /// parsed afresh; lets one image back both the bus and an owner's
    /// copy without sharing.
    pub fn duplicate(&self) -> (r: SnesCart)
        requires
            self.wf(),
        ensures
            r.wf(),
            r@ == self@,
    {
        let mut data: Vec<u8> = Vec::new();
        let mut i: usize = 0;
        let n = self.cart_data.len();
        while i < n
            invariant
                i <= n,
                n == self.cart_data@.len(),
                data@ =~= self.cart_data@.subrange(0, i as int),
            decreases n - i,
        {
            data.push(self.cart_data[i]);
            i += 1;
        }
        proof {
            assert(data@ =~= self.cart_data@);
        }
        SnesCart::new(data)
    }

    /// The parsed header.
    pub fn header(&self) -> (r: &SnesHeader)
        ensures
            r == self.spec_header(),
    {
        &self.header
    }
}

} // verus!
