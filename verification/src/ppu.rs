//! The picture processing unit: its CPU-visible registers, internal scroll
//! registers `v`/`t`/`x`/`w`, object attribute memory, background shift
//! registers, per-scanline sprite slots and the frame buffer. The dot-by-dot
//! state machine that drives rendering lives in `ppu_tick`; this module
//! holds the data model and the register operations the CPU bus dispatches.

use vstd::prelude::*;
use crate::ppu_bus::{PPUBus, PpuBusModel, spec_ppu_bus_read, spec_ppu_bus_write};
use crate::rom::Mirroring;

verus! {

/// One of the eight per-scanline sprite slots: the two pattern bitplanes for
/// the sprite's row on the current scanline, its attribute byte, and the
/// screen column of its left edge.
#[derive(Debug, Clone, Copy)]
pub struct Sprite {
    pub x_coordinate: u8,
    pub pattern_lo: u8,
    pub pattern_hi: u8,
    pub attributes: u8,
}

/// Background fetch latches and the frame position counters.
#[derive(Debug, Clone, Copy)]
pub struct PpuState {
    /// Nametable byte fetched in the current 8-dot cycle.
    pub nametable_data: u8,
    /// Two palette bits selected from the fetched attribute byte.
    pub attribute_data: u8,
    /// Low bitplane of the fetched tile row.
    pub low_bitplane: u8,
    /// High bitplane of the fetched tile row.
    pub high_bitplane: u8,
    /// Palette bits currently feeding the attribute shift registers.
    pub attribute_latch: u8,
    /// Current scanline, 0..=261 (240 post-render, 241..=260 vblank, 261 pre-render).
    pub scanline: u16,
    /// Current dot within the scanline, 0..=340.
    pub dots: u16,
    /// True while the frame being drawn is an even one.
    pub even_odd_frame: bool,
}

/// Mathematical state of the PPU.
#[verifier::ext_equal]
pub ghost struct PpuModel {
    pub oam: Seq<u8>,
    pub secondary_oam: Seq<u8>,
    pub ctrl: u8,
    pub mask: u8,
    pub status: u8,
    pub oam_addr: u8,
    pub v: u16,
    pub t: u16,
    pub x: u8,
    pub w: u8,
    pub vram_latch: u8,
    pub nmi: u8,
    pub low_pttrn_shift_reg: u16,
    pub high_pttrn_shift_reg: u16,
    pub low_attr_shift_reg: u8,
    pub high_attr_shift_reg: u8,
    pub state: PpuState,
    pub sprite_slots: Seq<Sprite>,
    pub sprite_zero_next: bool,
    pub sprite_zero_line: bool,
    pub color_buffer: Seq<u32>,
    pub frame_complete: bool,
    pub ticks: nat,
    pub dot_positions: nat,
    pub skips: nat,
    pub bus: PpuBusModel,
}

impl PpuModel {
    /// Structural invariant: array sizes, 15-bit scroll registers, 3-bit
    /// fine-x, 1-bit write toggle, and an in-range frame position.
    pub open spec fn wf(self) -> bool {
        &&& self.oam.len() == 256
        &&& self.secondary_oam.len() == 32
        &&& self.sprite_slots.len() == 8
        &&& self.color_buffer.len() == 0xF000
        &&& self.v < 0x8000
        &&& self.t < 0x8000
        &&& self.x < 8
        &&& self.w < 2
        &&& self.state.scanline <= 261
        &&& self.state.dots <= 340
        &&& self.bus.wf()
    }
}

/// State after stepping the VRAM address: PPUDATA accesses move `v` by 32
/// (down a row) when PPUCTRL bit 2 is set, else by 1, within 15 bits.
pub open spec fn spec_increment_vram(p: PpuModel) -> PpuModel {
    let step: u16 = if p.ctrl & 0x04 != 0 { 32 } else { 1 };
    PpuModel { v: ((p.v + step) % 0x8000) as u16, ..p }
}

/// State and value of a PPUSTATUS read: the returned byte takes its high
/// three bits from the status register and its low five from the data-bus
/// latch; the read clears the vblank bit and the write toggle.
pub open spec fn spec_read_status(p: PpuModel, latch: u8) -> (PpuModel, u8) {
    let ret = (p.status & 0xE0) | (latch & 0x1F);
    (PpuModel { status: p.status & 0x7F, w: 0, ..p }, ret)
}

/// Value of an OAMDATA read: the OAM byte under OAMADDR, address unchanged.
pub open spec fn spec_read_oam_data(p: PpuModel) -> u8 {
    p.oam[p.oam_addr as int]
}

/// State and value of a PPUDATA read. Palette addresses answer directly and
/// refill the read buffer from the nametable underneath; other addresses
/// answer from the buffer and refill it from `v`. Either way `v` steps.
pub open spec fn spec_read_data(p: PpuModel) -> (PpuModel, u8) {
    let m = (p.v % 0x4000) as u16;
    if m >= 0x3F00 {
        let ret = spec_ppu_bus_read(p.bus, m);
        let buf = spec_ppu_bus_read(p.bus, (0x2000 + m % 0x1000) as u16);
        (spec_increment_vram(PpuModel { vram_latch: buf, ..p }), ret)
    } else {
        let ret = p.vram_latch;
        let buf = spec_ppu_bus_read(p.bus, m);
        (spec_increment_vram(PpuModel { vram_latch: buf, ..p }), ret)
    }
}

/// State after a PPUCTRL write: the byte is stored, its low two bits become
/// the nametable-select bits 10-11 of `t`, and raising bit 7 while the
/// vblank flag is already set raises the NMI-pending line at once.
pub open spec fn spec_write_ctrl(p: PpuModel, data: u8) -> PpuModel {
    let nmi: u8 = if p.status & 0x80 != 0 && data & 0x80 != 0 && p.ctrl & 0x80 == 0 {
        1
    } else {
        p.nmi
    };
    let t = ((p.t % 0x400) + ((data % 4) as u16) * 0x400 + (p.t / 0x1000) * 0x1000) as u16;
    PpuModel { ctrl: data, t: t, nmi: nmi, ..p }
}

/// State after an OAMDATA write: the byte lands under OAMADDR, which then
/// steps with 8-bit wraparound.
pub open spec fn spec_oam_data_set(p: PpuModel, data: u8) -> PpuModel {
    PpuModel {
        oam: p.oam.update(p.oam_addr as int, data),
        oam_addr: ((p.oam_addr + 1) % 0x100) as u8,
        ..p
    }
}

/// State after a PPUSCROLL write. The first write (w = 0) sets coarse-x in
/// `t` and the fine-x register; the second packs coarse-y and fine-y into
/// `t`. The shared toggle `w` alternates.
pub open spec fn spec_load_scroll(p: PpuModel, data: u8) -> PpuModel {
    if p.w == 0 {
        PpuModel {
            x: data % 8,
            t: ((p.t / 0x20) * 0x20 + (data / 8) as u16) as u16,
            w: 1,
            ..p
        }
    } else {
        PpuModel {
            t: ((p.t % 0x20) + ((data / 8) as u16) * 0x20 + ((p.t / 0x400) % 4) * 0x400 + ((
            data % 8) as u16) * 0x1000) as u16,
            w: 0,
            ..p
        }
    }
}

/// State after a PPUADDR write. The first write (w = 0) replaces bits 8-14
/// of `t` with the low six bits of the byte (clearing bit 14); the second
/// replaces the low byte and copies `t` into `v`.
pub open spec fn spec_load_addr_byte(p: PpuModel, data: u8) -> PpuModel {
    if p.w == 0 {
        PpuModel { t: ((p.t % 0x100) + ((data % 0x40) as u16) * 0x100) as u16, w: 1, ..p }
    } else {
        let t = ((p.t / 0x100) * 0x100 + data as u16) as u16;
        PpuModel { t: t, v: t, w: 0, ..p }
    }
}

/// State after a PPUDATA write: the byte goes to the PPU bus at `v`, and
/// `v` steps.
pub open spec fn spec_cpu_write_byte(p: PpuModel, data: u8) -> PpuModel {
    spec_increment_vram(
        PpuModel { bus: spec_ppu_bus_write(p.bus, (p.v % 0x4000) as u16, data), ..p },
    )
}

/// Pattern-table address of one bitplane of a background tile row:
/// PPUCTRL bit 4 picks the table, the tile index picks the 16-byte entry,
/// fine-y in `v` picks the row, and the high plane sits 8 bytes later.
pub open spec fn spec_pattern_addr(ctrl: u8, tile: u8, v: u16, high: bool) -> u16 {
    (((if ctrl & 0x10 != 0 { 0x1000int } else { 0int }) + tile * 16 + (if high { 8int } else { 0int })
        + v / 0x1000) % 0x10000) as u16
}

/// The PPU.
pub struct PPU {
    pub oam: Vec<u8>,
    pub secondary_oam: Vec<u8>,
    pub ctrl: u8,
    pub mask: u8,
    pub status: u8,
    pub oam_addr: u8,
    pub v: u16,
    pub t: u16,
    pub x: u8,
    pub w: u8,
    pub vram_latch: u8,
    pub nmi: u8,
    pub low_pttrn_shift_reg: u16,
    pub high_pttrn_shift_reg: u16,
    pub low_attr_shift_reg: u8,
    pub high_attr_shift_reg: u8,
    pub state: PpuState,
    pub sprite_slots: Vec<Sprite>,
    pub sprite_zero_next: bool,
    pub sprite_zero_line: bool,
    pub color_buffer: Vec<u32>,
    pub frame_complete: bool,
    pub ticks: Ghost<nat>,
    pub dot_positions: Ghost<nat>,
    pub skips: Ghost<nat>,
    pub ppu_bus: PPUBus,
}

impl View for PPU {
    type V = PpuModel;

    open spec fn view(&self) -> PpuModel {
        PpuModel {
            oam: self.oam@,
            secondary_oam: self.secondary_oam@,
            ctrl: self.ctrl,
            mask: self.mask,
            status: self.status,
            oam_addr: self.oam_addr,
            v: self.v,
            t: self.t,
            x: self.x,
            w: self.w,
            vram_latch: self.vram_latch,
            nmi: self.nmi,
            low_pttrn_shift_reg: self.low_pttrn_shift_reg,
            high_pttrn_shift_reg: self.high_pttrn_shift_reg,
            low_attr_shift_reg: self.low_attr_shift_reg,
            high_attr_shift_reg: self.high_attr_shift_reg,
            state: self.state,
            sprite_slots: self.sprite_slots@,
            sprite_zero_next: self.sprite_zero_next,
            sprite_zero_line: self.sprite_zero_line,
            color_buffer: self.color_buffer@,
            frame_complete: self.frame_complete,
            ticks: self.ticks@,
            dot_positions: self.dot_positions@,
            skips: self.skips@,
            bus: self.ppu_bus@,
        }
    }
}

impl PPU {
    /// Builds a powered-on PPU around a cartridge's CHR ROM and mirroring
    /// and the 192-byte RGB lookup table. All registers, memories and
    /// counters start at zero, on an even frame.
    pub fn init_ppu(chr_rom: Vec<u8>, mirroring: Mirroring, palette_storage: Vec<u8>) -> (r: Self)
        requires
            palette_storage@.len() == 192,
        ensures
            r@.wf(),
            r@.bus.chr == chr_rom@,
            r@.bus.mirroring == mirroring,
            r@.bus.lut == palette_storage@,
            r@.bus.vram == Seq::new(0x800, |i: int| 0u8),
            r@.bus.palette == Seq::new(0x20, |i: int| 0u8),
            r@.oam == Seq::new(256, |i: int| 0u8),
            r@.secondary_oam == Seq::new(32, |i: int| 0u8),
            r@.color_buffer == Seq::new(0xF000, |i: int| 0u32),
            r@.ctrl == 0 && r@.mask == 0 && r@.status == 0 && r@.oam_addr == 0,
            r@.v == 0 && r@.t == 0 && r@.x == 0 && r@.w == 0,
            r@.vram_latch == 0 && r@.nmi == 0,
            r@.low_pttrn_shift_reg == 0 && r@.high_pttrn_shift_reg == 0,
            r@.low_attr_shift_reg == 0 && r@.high_attr_shift_reg == 0,
            r@.state.scanline == 0 && r@.state.dots == 0 && r@.state.even_odd_frame,
            r@.state.nametable_data == 0 && r@.state.attribute_data == 0,
            r@.state.low_bitplane == 0 && r@.state.high_bitplane == 0,
            r@.state.attribute_latch == 0,
            !r@.sprite_zero_next && !r@.sprite_zero_line && !r@.frame_complete,
            r@.sprite_slots == Seq::new(
                8,
                |i: int| Sprite { x_coordinate: 0, pattern_lo: 0, pattern_hi: 0, attributes: 0 },
            ),
            r@.ticks == 0 && r@.dot_positions == 0 && r@.skips == 0,
    {
        let oam: Vec<u8> = vec![0u8; 256];
        let secondary_oam: Vec<u8> = vec![0u8; 32];
        let color_buffer: Vec<u32> = vec![0u32; 0xF000];
        let palette_mem: Vec<u8> = vec![0u8; 0x20];
        let empty = Sprite { x_coordinate: 0, pattern_lo: 0, pattern_hi: 0, attributes: 0 };
        let sprite_slots: Vec<Sprite> = vec![empty; 8];
        proof {
            assert(oam@ =~= Seq::new(256, |i: int| 0u8));
            assert(secondary_oam@ =~= Seq::new(32, |i: int| 0u8));
            assert(color_buffer@ =~= Seq::new(0xF000, |i: int| 0u32));
            assert(palette_mem@ =~= Seq::new(0x20, |i: int| 0u8));
            assert(sprite_slots@ =~= Seq::new(
                8,
                |i: int| Sprite { x_coordinate: 0, pattern_lo: 0, pattern_hi: 0, attributes: 0 },
            ));
        }
        PPU {
            oam,
            secondary_oam,
            ctrl: 0,
            mask: 0,
            status: 0,
            oam_addr: 0,
            v: 0,
            t: 0,
            x: 0,
            w: 0,
            vram_latch: 0,
            nmi: 0,
            low_pttrn_shift_reg: 0,
            high_pttrn_shift_reg: 0,
            low_attr_shift_reg: 0,
            high_attr_shift_reg: 0,
            state: PpuState {
                nametable_data: 0,
                attribute_data: 0,
                low_bitplane: 0,
                high_bitplane: 0,
                attribute_latch: 0,
                scanline: 0,
                dots: 0,
                even_odd_frame: true,
            },
            sprite_slots,
            sprite_zero_next: false,
            sprite_zero_line: false,
            color_buffer,
            frame_complete: false,
            ticks: Ghost(0nat),
            dot_positions: Ghost(0nat),
            skips: Ghost(0nat),
            ppu_bus: PPUBus::new(chr_rom, mirroring, palette_mem, palette_storage),
        }
    }

    /// Reads the PPU bus at `addr`.
    pub fn read_byte(&self, addr: u16) -> (r: u8)
        requires
            self@.wf(),
        ensures
            r == spec_ppu_bus_read(self@.bus, addr),
    {
        self.ppu_bus.mem_read(addr)
    }

    /// Steps `v` after a PPUDATA access.
    pub fn increment_vram(&mut self)
        requires
            old(self)@.wf(),
        ensures
            final(self)@ == spec_increment_vram(old(self)@),
            final(self)@.wf(),
    {
        let step: u16 = if self.ctrl & 0x04 != 0 { 32 } else { 1 };
        self.v = (self.v + step) % 0x8000;
    }

    /// PPUSTATUS read: composes the returned byte with the data-bus latch,
    /// clears the vblank flag and resets the write toggle.
    pub fn read_status(&mut self, latch: u8) -> (r: u8)
        requires
            old(self)@.wf(),
        ensures
            (final(self)@, r) == spec_read_status(old(self)@, latch),
            final(self)@.wf(),
    {
        let ret = (self.status & 0xE0) | (latch & 0x1F);
        self.status = self.status & 0x7F;
        self.w = 0;
        ret
    }

    /// OAMDATA read: the byte under OAMADDR.
    pub fn read_oam_data(&self) -> (r: u8)
        requires
            self@.wf(),
        ensures
            r == spec_read_oam_data(self@),
    {
        self.oam[self.oam_addr as usize]
    }

    /// PPUDATA read: palette addresses answer at once, others one read
    /// behind through the buffer; `v` steps afterwards.
    pub fn read_data(&mut self) -> (r: u8)
        requires
            old(self)@.wf(),
        ensures
            (final(self)@, r) == spec_read_data(old(self)@),
            final(self)@.wf(),
    {
        let m = self.v % 0x4000;
        let ret: u8;
        if m >= 0x3F00 {
            ret = self.ppu_bus.mem_read(m);
            self.vram_latch = self.ppu_bus.mem_read(0x2000 + m % 0x1000);
        } else {
            ret = self.vram_latch;
            self.vram_latch = self.ppu_bus.mem_read(m);
        }
        self.increment_vram();
        ret
    }

    /// PPUCTRL write.
    pub fn write_ctrl(&mut self, data: u8)
        requires
            old(self)@.wf(),
        ensures
            final(self)@ == spec_write_ctrl(old(self)@, data),
            final(self)@.wf(),
    {
        if self.status & 0x80 != 0 && data & 0x80 != 0 && self.ctrl & 0x80 == 0 {
            self.nmi = 1;
        }
        self.t = (self.t % 0x400) + ((data % 4) as u16) * 0x400 + (self.t / 0x1000) * 0x1000;
        self.ctrl = data;
    }

    /// OAMDATA write: stores under OAMADDR and steps the address.
    pub fn oam_data_set(&mut self, data: u8)
        requires
            old(self)@.wf(),
        ensures
            final(self)@ == spec_oam_data_set(old(self)@, data),
            final(self)@.wf(),
    {
        let i = self.oam_addr as usize;
        self.oam.set(i, data);
        self.oam_addr = ((self.oam_addr as u16 + 1) % 0x100) as u8;
    }

    /// PPUSCROLL write, first or second per the shared toggle.
    pub fn load_scroll(&mut self, data: u8)
        requires
            old(self)@.wf(),
        ensures
            final(self)@ == spec_load_scroll(old(self)@, data),
            final(self)@.wf(),
    {
        if self.w == 0 {
            self.x = data % 8;
            self.t = (self.t / 0x20) * 0x20 + (data / 8) as u16;
            self.w = 1;
        } else {
            self.t = (self.t % 0x20) + ((data / 8) as u16) * 0x20 + ((self.t / 0x400) % 4) * 0x400
                + ((data % 8) as u16) * 0x1000;
            self.w = 0;
        }
    }

    /// PPUADDR write, first or second per the shared toggle.
    pub fn load_addr_byte(&mut self, data: u8)
        requires
            old(self)@.wf(),
        ensures
            final(self)@ == spec_load_addr_byte(old(self)@, data),
            final(self)@.wf(),
    {
        if self.w == 0 {
            self.t = (self.t % 0x100) + ((data % 0x40) as u16) * 0x100;
            self.w = 1;
        } else {
            self.t = (self.t / 0x100) * 0x100 + data as u16;
            self.v = self.t;
            self.w = 0;
        }
    }

    /// PPUDATA write: stores through the PPU bus at `v`, then steps `v`.
    pub fn cpu_write_byte(&mut self, data: u8)
        requires
            old(self)@.wf(),
        ensures
            final(self)@ == spec_cpu_write_byte(old(self)@, data),
            final(self)@.wf(),
    {
        self.ppu_bus.mem_write(self.v % 0x4000, data);
        self.increment_vram();
    }

    /// Reads one bitplane of the background tile `addr` for the row fine-y
    /// in `v` selects, from the pattern table PPUCTRL bit 4 selects.
    pub fn fetch_pattern_table(&self, high: bool, addr: u8) -> (r: u8)
        requires
            self@.wf(),
        ensures
            r == spec_ppu_bus_read(self@.bus, spec_pattern_addr(self@.ctrl, addr, self@.v, high)),
    {
        let base: u16 = if self.ctrl & 0x10 != 0 { 0x1000 } else { 0 };
        let plane: u16 = if high { 8 } else { 0 };
        let pattern_addr: u16 = base + (addr as u16) * 16 + plane + self.v / 0x1000;
        self.ppu_bus.mem_read(pattern_addr)
    }

    /// Marks the finished frame as consumed by the host and clears the
    /// colour buffer for the next one.
    pub fn ack_frame(&mut self)
        requires
            old(self)@.wf(),
        ensures
            final(self)@ == (PpuModel {
                frame_complete: false,
                color_buffer: Seq::new(0xF000, |i: int| 0u32),
                ..old(self)@
            }),
            final(self)@.wf(),
    {
        self.frame_complete = false;
        let mut i: usize = 0;
        while i < 0xF000
            invariant
                i <= 0xF000,
                self.color_buffer@.len() == 0xF000,
                forall|j: int| 0 <= j < i ==> self.color_buffer@[j] == 0u32,
                forall|j: int|
                    i <= j < 0xF000 ==> self.color_buffer@[j] == old(self).color_buffer@[j],
                self.oam == old(self).oam,
                self.secondary_oam == old(self).secondary_oam,
                self.sprite_slots == old(self).sprite_slots,
                self.ppu_bus == old(self).ppu_bus,
                self.ctrl == old(self).ctrl,
                self.mask == old(self).mask,
                self.status == old(self).status,
                self.oam_addr == old(self).oam_addr,
                self.v == old(self).v,
                self.t == old(self).t,
                self.x == old(self).x,
                self.w == old(self).w,
                self.vram_latch == old(self).vram_latch,
                self.nmi == old(self).nmi,
                self.low_pttrn_shift_reg == old(self).low_pttrn_shift_reg,
                self.high_pttrn_shift_reg == old(self).high_pttrn_shift_reg,
                self.low_attr_shift_reg == old(self).low_attr_shift_reg,
                self.high_attr_shift_reg == old(self).high_attr_shift_reg,
                self.state == old(self).state,
                self.sprite_zero_next == old(self).sprite_zero_next,
                self.sprite_zero_line == old(self).sprite_zero_line,
                !self.frame_complete,
                self.ticks == old(self).ticks,
                self.dot_positions == old(self).dot_positions,
                self.skips == old(self).skips,
            decreases 0xF000 - i,
    {
            self.color_buffer.set(i, 0);
            i = i + 1;
        }
        proof {
            assert(self.color_buffer@ =~= Seq::new(0xF000, |i: int| 0u32));
            assert(self@ =~= PpuModel {
                frame_complete: false,
                color_buffer: Seq::new(0xF000, |i: int| 0u32),
                ..old(self)@
            });
        }
    }
}

} // verus!
