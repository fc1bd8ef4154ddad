//! The PPU-side memory map. A 14-bit PPU address reaches, in order: the
//! pattern tables in CHR ROM (0x0000-0x1FFF), the nametables laid over 2 KiB
//! of VRAM according to the cartridge mirroring (0x2000-0x2FFF, echoed at
//! 0x3000-0x3EFF), and 32 bytes of palette RAM (0x3F00-0x3FFF) that repeat
//! every 32 bytes and alias 0x10/0x14/0x18/0x1C onto 0x00/0x04/0x08/0x0C.

use vstd::prelude::*;
use crate::rom::Mirroring;

verus! {

/// Mathematical state of the PPU bus: the two ROMs, VRAM, and palette RAM.
#[verifier::ext_equal]
pub ghost struct PpuBusModel {
    pub chr: Seq<u8>,
    pub vram: Seq<u8>,
    pub mirroring: Mirroring,
    pub palette: Seq<u8>,
    pub lut: Seq<u8>,
}

impl PpuBusModel {
    /// Fixed sizes of the RAM arrays and of the colour lookup table.
    pub open spec fn wf(self) -> bool {
        &&& self.vram.len() == 0x800
        &&& self.palette.len() == 0x20
        &&& self.lut.len() == 192
    }
}

/// Physical VRAM bank (0 or 1) behind a nametable address, given the
/// cartridge mirroring. Horizontal pairs 0x2000 with 0x2400 and 0x2800 with
/// 0x2C00; vertical pairs 0x2000 with 0x2800 and 0x2400 with 0x2C00.
/// Four-screen would need cartridge RAM, which is out of scope, so it falls
/// back to the vertical layout.
pub open spec fn spec_nt_bank(m: Mirroring, addr: u16) -> int {
    let quad = (addr % 0x1000) / 0x400;
    match m {
        Mirroring::HORIZONTAL => if quad < 2 { 0int } else { 1int },
        Mirroring::VERTICAL => if quad % 2 == 0 { 0int } else { 1int },
        Mirroring::FOUR_SCREEN => if quad % 2 == 0 { 0int } else { 1int },
    }
}

/// VRAM index behind a nametable address: the bank base plus the offset
/// within the 1 KiB nametable.
pub open spec fn spec_nt_index(m: Mirroring, addr: u16) -> int {
    spec_nt_bank(m, addr) * 0x400 + (addr % 0x400)
}

/// Palette RAM slot behind a palette address: offsets repeat every 32 bytes
/// and every fourth slot of the sprite half aliases the background half.
pub open spec fn spec_palette_fold(addr: int) -> int {
    let i = addr % 0x20;
    if i >= 0x10 && i % 4 == 0 {
        i - 0x10
    } else {
        i
    }
}

/// Value a PPU bus read returns. Pattern-table reads outside the CHR ROM
/// that is actually present return 0.
pub open spec fn spec_ppu_bus_read(b: PpuBusModel, addr: u16) -> u8 {
    let a = addr % 0x4000;
    if a < 0x2000 {
        if a < b.chr.len() {
            b.chr[a as int]
        } else {
            0
        }
    } else if a < 0x3F00 {
        b.vram[spec_nt_index(b.mirroring, a)]
    } else {
        b.palette[spec_palette_fold(a as int)]
    }
}

/// State after a PPU bus write. Writes into the pattern tables land in ROM
/// and are no-ops.
pub open spec fn spec_ppu_bus_write(b: PpuBusModel, addr: u16, data: u8) -> PpuBusModel {
    let a = addr % 0x4000;
    if a < 0x2000 {
        b
    } else if a < 0x3F00 {
        PpuBusModel { vram: b.vram.update(spec_nt_index(b.mirroring, a), data), ..b }
    } else {
        PpuBusModel { palette: b.palette.update(spec_palette_fold(a as int), data), ..b }
    }
}

/// The PPU bus: CHR ROM, 2 KiB of VRAM, palette RAM, and the 64-entry RGB
/// lookup table the host loaded from a palette asset.
pub struct PPUBus {
    pub chr_rom: Vec<u8>,
    pub vram: Vec<u8>,
    pub mirroring: Mirroring,
    pub palette_mem: Vec<u8>,
    pub palette_storage: Vec<u8>,
}

impl View for PPUBus {
    type V = PpuBusModel;

    open spec fn view(&self) -> PpuBusModel {
        PpuBusModel {
            chr: self.chr_rom@,
            vram: self.vram@,
            mirroring: self.mirroring,
            palette: self.palette_mem@,
            lut: self.palette_storage@,
        }
    }
}

impl PPUBus {
    /// Builds the bus around a cartridge's CHR ROM and mirroring, 32 bytes of
    /// palette RAM and the 192-byte RGB lookup table (64 colour triplets).
    /// VRAM starts zeroed.
    pub fn new(
        chr_rom: Vec<u8>,
        mirroring: Mirroring,
        palette_mem: Vec<u8>,
        palette_storage: Vec<u8>,
    ) -> (r: Self)
        requires
            palette_mem@.len() == 0x20,
            palette_storage@.len() == 192,
        ensures
            r@.wf(),
            r@.chr == chr_rom@,
            r@.mirroring == mirroring,
            r@.palette == palette_mem@,
            r@.lut == palette_storage@,
            r@.vram == Seq::new(0x800, |i: int| 0u8),
    {
        let vram: Vec<u8> = vec![0u8; 0x800];
        proof {
            assert(vram@ =~= Seq::new(0x800, |i: int| 0u8));
        }
        PPUBus { chr_rom, vram, mirroring, palette_mem, palette_storage }
    }

    /// Index into VRAM for a nametable address, per the cartridge mirroring.
    fn nt_index(&self, addr: u16) -> (i: usize)
        ensures
            i == spec_nt_index(self.mirroring, addr),
            i < 0x800,
    {
        let quad = (addr % 0x1000) / 0x400;
        let bank: usize = match self.mirroring {
            Mirroring::HORIZONTAL => if quad < 2 { 0 } else { 1 },
            Mirroring::VERTICAL => if quad % 2 == 0 { 0 } else { 1 },
            Mirroring::FOUR_SCREEN => if quad % 2 == 0 { 0 } else { 1 },
        };
        bank * 0x400 + (addr as usize % 0x400)
    }

    /// Palette RAM slot for a palette address, applying the 32-byte repeat
    /// and the backdrop aliases.
    fn palette_index(addr: u16) -> (i: usize)
        ensures
            i == spec_palette_fold(addr as int),
            i < 0x20,
    {
        let i = (addr % 0x20) as usize;
        if i >= 0x10 && i % 4 == 0 {
            i - 0x10
        } else {
            i
        }
    }

    /// Reads one byte from the PPU address space.
    pub fn mem_read(&self, addr: u16) -> (r: u8)
        requires
            self@.wf(),
        ensures
            r == spec_ppu_bus_read(self@, addr),
    {
        let a = addr % 0x4000;
        if a < 0x2000 {
            if (a as usize) < self.chr_rom.len() {
                self.chr_rom[a as usize]
            } else {
                0
            }
        } else if a < 0x3F00 {
            self.vram[self.nt_index(a)]
        } else {
            self.palette_mem[Self::palette_index(a)]
        }
    }

    /// Writes one byte into the PPU address space; pattern-table writes are
    /// no-ops because CHR is ROM here.
    pub fn mem_write(&mut self, addr: u16, data: u8)
        requires
            old(self)@.wf(),
        ensures
            final(self)@ == spec_ppu_bus_write(old(self)@, addr, data),
            final(self)@.wf(),
    {
        let a = addr % 0x4000;
        if a < 0x2000 {
            // pattern tables are ROM
        } else if a < 0x3F00 {
            let i = self.nt_index(a);
            self.vram.set(i, data);
        } else {
            let i = Self::palette_index(a);
            self.palette_mem.set(i, data);
        }
    }
}

} // verus!
