//! Cartridge ROM image: the 16-byte header, the PRG and CHR banks and the
//! battery-backed RAM, decoded from a raw byte image.

use vstd::prelude::*;

use crate::EmuError;
use crate::RomParseKind;

verus! {

/// One PRG bank is 16 KiB.
pub const PRG_BANK_SIZE: usize = 16384;
/// One CHR bank is 8 KiB.
pub const CHR_BANK_SIZE: usize = 8192;
/// The cartridge RAM window is 8 KiB.
pub const SRAM_SIZE: usize = 8192;
/// The header is 16 bytes.
pub const HEADER_SIZE: usize = 16;
/// An optional trainer blob is 512 bytes.
pub const TRAINER_SIZE: usize = 512;

/// Nametable mirroring arrangements a cartridge can request.
#[derive(Clone, Copy, Debug, PartialEq, Eq, Structural)]
pub enum Mirroring {
    Horizontal,
    Vertical,
    FourScreen,
    SingleLower,
    SingleUpper,
}

/// The decoded 16-byte cartridge header.
#[derive(Clone, Copy, Debug, PartialEq, Eq, Structural)]
pub struct RomHeader {
    /// Number of 16 KiB PRG banks; at least 1.
    pub prg_count: u8,
    /// Number of 8 KiB CHR banks; 0 means the cartridge carries CHR RAM.
    pub chr_count: u8,
    /// Mapper number assembled from the two flag nibbles.
    pub mapper: u8,
    /// Mirroring requested by the header flags.
    pub mirroring: Mirroring,
    /// Battery-backed RAM flag.
    pub battery: bool,
    /// Trainer-present flag.
    pub trainer: bool,
}

/// The signature is present: "NES" followed by the end-of-file mark.
pub open spec fn magic_ok(d: Seq<u8>) -> bool {
    d.len() >= 16 && d[0] == 0x4eu8 && d[1] == 0x45u8 && d[2] == 0x53u8 && d[3] == 0x1au8
}

pub open spec fn spec_prg_count(d: Seq<u8>) -> int {
    d[4] as int
}

pub open spec fn spec_chr_count(d: Seq<u8>) -> int {
    d[5] as int
}

pub open spec fn spec_mapper(d: Seq<u8>) -> int {
    d[6] as int / 16 + (d[7] as int / 16) * 16
}

pub open spec fn spec_vertical(d: Seq<u8>) -> bool {
    d[6] as int % 2 == 1
}

pub open spec fn spec_battery(d: Seq<u8>) -> bool {
    (d[6] as int / 2) % 2 == 1
}

pub open spec fn spec_trainer(d: Seq<u8>) -> bool {
    (d[6] as int / 4) % 2 == 1
}

pub open spec fn spec_four_screen(d: Seq<u8>) -> bool {
    (d[6] as int / 8) % 2 == 1
}

pub open spec fn spec_mirroring(d: Seq<u8>) -> Mirroring {
    if spec_four_screen(d) {
        Mirroring::FourScreen
    } else if spec_vertical(d) {
        Mirroring::Vertical
    } else {
        Mirroring::Horizontal
    }
}

/// Offset of the first PRG byte: past the header and, if present, the trainer.
pub open spec fn spec_prg_start(d: Seq<u8>) -> int {
    16 + if spec_trainer(d) { 512int } else { 0int }
}

/// Offset of the first CHR byte.
pub open spec fn spec_chr_start(d: Seq<u8>) -> int {
    spec_prg_start(d) + 16384 * spec_prg_count(d)
}

/// Total size the header announces.
pub open spec fn spec_total_size(d: Seq<u8>) -> int {
    spec_chr_start(d) + 8192 * spec_chr_count(d)
}

/// A raw image decodes successfully exactly when this holds.
pub open spec fn rom_ok(d: Seq<u8>) -> bool {
    magic_ok(d) && spec_prg_count(d) >= 1 && d.len() >= spec_total_size(d)
}

/// A loaded cartridge: header plus the three byte arrays it owns.
pub struct Rom {
    pub header: RomHeader,
    /// PRG banks, `prg_count` times 16 KiB.
    pub prg: Vec<u8>,
    /// CHR banks, `chr_count` times 8 KiB, or 8 KiB of CHR RAM when
    /// `chr_count` is zero.
    pub chr: Vec<u8>,
    /// 8 KiB of cartridge RAM, zeroed at load.
    pub sram: Vec<u8>,
}

impl Rom {
    /// The sizes the header announces all hold of the byte arrays.
    pub open spec fn wf(self) -> bool {
        &&& self.header.prg_count >= 1
        &&& self.prg.len() == 16384 * self.header.prg_count
        &&& (if self.header.chr_count == 0 {
            self.chr.len() == 8192
        } else {
            self.chr.len() == 8192 * self.header.chr_count
        })
        &&& self.sram.len() == 8192
    }

    /// The cartridge CHR area is writable RAM rather than ROM.
    pub open spec fn chr_is_ram(self) -> bool {
        self.header.chr_count == 0
    }

    /// Decodes a raw iNES image.
    ///
    /// Succeeds exactly when the signature is present, at least one PRG bank
    /// is announced and the image holds all announced banks; the PRG and CHR
    /// arrays are then the exact byte ranges of the image.
    pub fn parse(d: &Vec<u8>) -> (r: Result<Rom, EmuError>)
        ensures
            r is Ok <==> rom_ok(d@),
            !magic_ok(d@) ==> r == Result::<Rom, EmuError>::Err(
                EmuError::RomParse(RomParseKind::BadMagic),
            ),
            magic_ok(d@) && spec_prg_count(d@) < 1 ==> r == Result::<Rom, EmuError>::Err(
                EmuError::RomParse(RomParseKind::UnsupportedHeader),
            ),
            magic_ok(d@) && spec_prg_count(d@) >= 1 && d@.len() < spec_total_size(d@) ==> r
                == Result::<Rom, EmuError>::Err(EmuError::RomParse(RomParseKind::Truncated)),
            r matches Ok(rom) ==> {
                &&& rom.wf()
                &&& rom.header.prg_count as int == spec_prg_count(d@)
                &&& rom.header.chr_count as int == spec_chr_count(d@)
                &&& rom.header.mapper as int == spec_mapper(d@)
                &&& rom.header.mirroring == spec_mirroring(d@)
                &&& rom.header.battery == spec_battery(d@)
                &&& rom.header.trainer == spec_trainer(d@)
                &&& rom.prg@ == d@.subrange(
                    spec_prg_start(d@),
                    spec_prg_start(d@) + 16384 * spec_prg_count(d@),
                )
                &&& rom.chr_is_ram() ==> rom.chr@ == Seq::<u8>::new(8192, |i: int| 0u8)
                &&& !rom.chr_is_ram() ==> rom.chr@ == d@.subrange(
                    spec_chr_start(d@),
                    spec_chr_start(d@) + 8192 * spec_chr_count(d@),
                )
                &&& rom.sram@ == Seq::<u8>::new(8192, |i: int| 0u8)
            },
    {
        if d.len() < 16 {
            return Err(EmuError::RomParse(RomParseKind::BadMagic));
        }
        if !(d[0] == 0x4e && d[1] == 0x45 && d[2] == 0x53 && d[3] == 0x1a) {
            return Err(EmuError::RomParse(RomParseKind::BadMagic));
        }
        let prg_count: u8 = d[4];
        let chr_count: u8 = d[5];
        let flags6: u8 = d[6];
        let flags7: u8 = d[7];
        if prg_count == 0 {
            return Err(EmuError::RomParse(RomParseKind::UnsupportedHeader));
        }
        let trainer: bool = (flags6 / 4) % 2 == 1;
        let prg_start: usize = if trainer { 16 + 512 } else { 16 };
        let prg_len: usize = 16384 * (prg_count as usize);
        let chr_len: usize = 8192 * (chr_count as usize);
        let chr_start: usize = prg_start + prg_len;
        if d.len() < chr_start + chr_len {
            return Err(EmuError::RomParse(RomParseKind::Truncated));
        }
        let prg: Vec<u8> = copy_range(d, prg_start, prg_len);
        let chr: Vec<u8> = if chr_count == 0 {
            zero_vec(8192)
        } else {
            copy_range(d, chr_start, chr_len)
        };
        let sram: Vec<u8> = zero_vec(8192);
        let mirroring: Mirroring = if (flags6 / 8) % 2 == 1 {
            Mirroring::FourScreen
        } else if flags6 % 2 == 1 {
            Mirroring::Vertical
        } else {
            Mirroring::Horizontal
        };
        let header = RomHeader {
            prg_count,
            chr_count,
            mapper: flags6 / 16 + (flags7 / 16) * 16,
            mirroring,
            battery: (flags6 / 2) % 2 == 1,
            trainer,
        };
        Ok(Rom { header, prg, chr, sram })
    }
}

/// Copies `len` bytes of `d` starting at `start` into a fresh vector.
pub fn copy_range(d: &Vec<u8>, start: usize, len: usize) -> (r: Vec<u8>)
    requires
        start + len <= d.len(),
    ensures
        r@ == d@.subrange(start as int, start as int + len as int),
{
    let mut r: Vec<u8> = Vec::new();
    let mut i: usize = 0;
    while i < len
        invariant
            start + len <= d.len(),
            i <= len,
            r@ == d@.subrange(start as int, start as int + i as int),
        decreases len - i,
    {
        r.push(d[start + i]);
        i = i + 1;
        proof {
            assert(r@ =~= d@.subrange(start as int, start as int + i as int));
        }
    }
    r
}

/// A fresh vector of `len` zero bytes.
pub fn zero_vec(len: usize) -> (r: Vec<u8>)
    ensures
        r@ == Seq::<u8>::new(len as nat, |i: int| 0u8),
{
    let mut r: Vec<u8> = Vec::new();
    let mut i: usize = 0;
    while i < len
        invariant
            i <= len,
            r@ == Seq::<u8>::new(i as nat, |j: int| 0u8),
        decreases len - i,
    {
        r.push(0u8);
        i = i + 1;
        proof {
            assert(r@ =~= Seq::<u8>::new(i as nat, |j: int| 0u8));
        }
    }
    r
}

} // verus!
