//! Cartridge images in the iNES layout: a 16-byte header whose magic is
//! `4E 45 53 1A`, an optional 512-byte trainer, then PRG ROM in 16 KiB pages
//! and CHR ROM in 8 KiB pages. Byte 6 selects the nametable mirroring and
//! byte 7 joined with byte 6 selects the mapper.

use vstd::prelude::*;

verus! {

/// How the two physical nametable banks are laid over the four logical
/// nametable windows.
#[allow(non_camel_case_types)]
#[derive(Debug, PartialEq, Eq, Clone, Copy)]
pub enum Mirroring {
    VERTICAL,
    HORIZONTAL,
    FOUR_SCREEN,
}

/// A parsed cartridge: program ROM, character ROM, mapper id and mirroring.
/// Immutable once built.
#[derive(Clone)]
pub struct Rom {
    pub prg_rom: Vec<u8>,
    pub chr_rom: Vec<u8>,
    pub mapper: u8,
    pub screen_mirroring: Mirroring,
}

/// Size in bytes of the PRG ROM a header announces.
pub open spec fn spec_prg_size(raw: Seq<u8>) -> int {
    raw[4] * 0x4000
}

/// Size in bytes of the CHR ROM a header announces.
pub open spec fn spec_chr_size(raw: Seq<u8>) -> int {
    raw[5] * 0x2000
}

/// Offset of the first PRG ROM byte: the header, plus the trainer when
/// header bit 2 of byte 6 announces one.
pub open spec fn spec_prg_start(raw: Seq<u8>) -> int {
    16 + if raw[6] & 0x04 != 0 { 512int } else { 0int }
}

/// Mapper id: high nibble of byte 7 joined with the high nibble of byte 6.
pub open spec fn spec_mapper(raw: Seq<u8>) -> u8 {
    (raw[7] & 0xF0) | (raw[6] >> 4)
}

/// Mirroring selected by byte 6: bit 3 asks for four-screen and overrides
/// bit 0, which otherwise picks vertical over horizontal.
pub open spec fn spec_mirroring(raw: Seq<u8>) -> Mirroring {
    if raw[6] & 0x08 != 0 {
        Mirroring::FOUR_SCREEN
    } else if raw[6] & 0x01 != 0 {
        Mirroring::VERTICAL
    } else {
        Mirroring::HORIZONTAL
    }
}

/// A byte sequence is a well-formed iNES image when the magic matches and
/// the announced PRG and CHR ROM fit inside it.
pub open spec fn spec_ines_ok(raw: Seq<u8>) -> bool {
    &&& raw.len() >= 16
    &&& raw[0] == 0x4E
    &&& raw[1] == 0x45
    &&& raw[2] == 0x53
    &&& raw[3] == 0x1A
    &&& raw.len() >= spec_prg_start(raw) + spec_prg_size(raw) + spec_chr_size(raw)
}

/// Copies `len` bytes of `raw` starting at `start` into a fresh vector.
fn copy_range(raw: &Vec<u8>, start: usize, len: usize) -> (out: Vec<u8>)
    requires
        start + len <= raw@.len(),
    ensures
        out@ == raw@.subrange(start as int, start + len),
{
    let n = raw.len();
    let mut out: Vec<u8> = Vec::new();
    let mut i: usize = 0;
    while i < len
        invariant
            start + len <= n == raw@.len(),
            i <= len,
            out@ == raw@.subrange(start as int, start + i),
        decreases len - i,
    {
        out.push(raw[start + i]);
        proof {
            assert(out@ =~= raw@.subrange(start as int, start + i + 1));
        }
        i = i + 1;
    }
    out
}

impl Rom {
    /// Parses an iNES image. Returns the cartridge exactly when the image is
    /// well formed, and an error describing the defect otherwise.
    pub fn new(raw: &Vec<u8>) -> (r: Result<Rom, String>)
        ensures
            r is Ok <==> spec_ines_ok(raw@),
            r matches Ok(rom) ==> {
                &&& rom.prg_rom@ == raw@.subrange(
                    spec_prg_start(raw@),
                    spec_prg_start(raw@) + spec_prg_size(raw@),
                )
                &&& rom.chr_rom@ == raw@.subrange(
                    spec_prg_start(raw@) + spec_prg_size(raw@),
                    spec_prg_start(raw@) + spec_prg_size(raw@) + spec_chr_size(raw@),
                )
                &&& rom.mapper == spec_mapper(raw@)
                &&& rom.screen_mirroring == spec_mirroring(raw@)
            },
    {
        if raw.len() < 16 {
            return Err("File is too short to be an iNES image".to_string());
        }
        if raw[0] != 0x4E || raw[1] != 0x45 || raw[2] != 0x53 || raw[3] != 0x1A {
            return Err("File is not in iNES file format".to_string());
        }

        let mapper = (raw[7] & 0xF0) | (raw[6] >> 4);
        let four_screen = (raw[6] & 0x08) != 0;
        let vertical = (raw[6] & 0x01) != 0;
        let mirroring = if four_screen {
            Mirroring::FOUR_SCREEN
        } else if vertical {
            Mirroring::VERTICAL
        } else {
            Mirroring::HORIZONTAL
        };

        let prg_rom_size: usize = (raw[4] as usize) * 0x4000;
        let chr_rom_size: usize = (raw[5] as usize) * 0x2000;
        let skip_trainer = (raw[6] & 0x04) != 0;
        let prg_rom_start: usize = 16 + if skip_trainer { 512 } else { 0 };

        if raw.len() < prg_rom_start + prg_rom_size + chr_rom_size {
            return Err("File is truncated: announced ROM data is missing".to_string());
        }

        Ok(Rom {
            prg_rom: copy_range(raw, prg_rom_start, prg_rom_size),
            chr_rom: copy_range(raw, prg_rom_start + prg_rom_size, chr_rom_size),
            mapper,
            screen_mirroring: mirroring,
        })
    }
}

} // verus!
