//! The PPU's dot-by-dot state machine. Each tick handles one dot of the
//! current scanline: background tile fetches and scroll-register stepping,
//! sprite evaluation into secondary OAM, sprite pattern fetches into the
//! eight scanline slots, the background/sprite pixel multiplexer, the
//! vblank and pre-render status events, and finally the advance of the
//! (scanline, dot) position with the odd-frame skip.

use vstd::prelude::*;
use crate::ppu::{PPU, PpuModel, PpuState, Sprite, spec_pattern_addr};
use crate::ppu_bus::spec_ppu_bus_read;

verus! {

/// Rendering is on while either the background or the sprites are enabled
/// in PPUMASK.
pub open spec fn spec_rendering(p: PpuModel) -> bool {
    p.mask & 0x18 != 0
}

/// Attribute-table address for the tile `v` points at: the nametable's last
/// 64 bytes, one byte per 4x4-tile block.
pub open spec fn spec_attr_addr(v: u16) -> u16 {
    (0x23C0 + ((v / 0x400) % 4) * 0x400 + ((v / 0x80) % 8) * 8 + (v % 0x20) / 4) as u16
}

/// The two palette bits of the attribute byte that belong to the 2x2-tile
/// quadrant `v` points into.
pub open spec fn spec_attr_bits(at: u8, v: u16) -> u8 {
    let sx = ((v % 0x20) % 4) / 2;
    let sy = (((v / 0x20) % 0x20) % 4) / 2;
    if sx == 0 && sy == 0 {
        at % 4
    } else if sx == 1 && sy == 0 {
        (at / 4) % 4
    } else if sx == 0 {
        (at / 16) % 4
    } else {
        (at / 64) % 4
    }
}

/// `v` after the coarse-x step: coarse-x wraps from 31 to 0 and flips the
/// horizontal nametable bit.
pub open spec fn spec_coarse_x_inc(v: u16) -> u16 {
    if v % 0x20 == 31 {
        let base = v - 31;
        if (base / 0x400) % 2 == 0 {
            (((base + 0x400) as u16) % 0x8000) as u16
        } else {
            (((base - 0x400) as u16) % 0x8000) as u16
        }
    } else {
        (((v + 1) as int) % 0x8000) as u16
    }
}

/// `v` after the y step at dot 256: fine-y overflows into coarse-y, which
/// wraps from 29 to 0 with a vertical nametable flip, and from 31 to 0
/// without one.
pub open spec fn spec_y_inc(v: u16) -> u16 {
    if v / 0x1000 < 7 {
        (((v + 0x1000) as int) % 0x8000) as u16
    } else {
        let v2 = v % 0x1000;
        let cy = (v2 / 0x20) % 0x20;
        if cy == 29 {
            let z = v2 - 29 * 0x20;
            if (z / 0x800) % 2 == 0 {
                (((z + 0x800) as int) % 0x8000) as u16
            } else {
                (((z - 0x800) as int) % 0x8000) as u16
            }
        } else if cy == 31 {
            (((v2 - 31 * 0x20) as int) % 0x8000) as u16
        } else {
            (((v2 + 0x20) as int) % 0x8000) as u16
        }
    }
}

/// `v` with coarse-x and the horizontal nametable bit copied from `t`
/// (the dot-257 reload).
pub open spec fn spec_copy_x(v: u16, t: u16) -> u16 {
    ((((t % 0x20) + ((v / 0x20) % 0x20) * 0x20 + ((t / 0x400) % 2) * 0x400 + ((v / 0x800) % 0x10)
        * 0x800) % 0x8000) as u16)
}

/// `v` with coarse-y, fine-y and the vertical nametable bit copied from `t`
/// (the pre-render dots 280-304 reload).
pub open spec fn spec_copy_y(v: u16, t: u16) -> u16 {
    ((((v % 0x20) + ((t / 0x20) % 0x20) * 0x20 + ((v / 0x400) % 2) * 0x400 + (t / 0x800)
        * 0x800) % 0x8000) as u16)
}

/// One shift of the four background shift registers; the attribute
/// registers refill from the attribute latch.
pub open spec fn spec_shift(p: PpuModel) -> PpuModel {
    PpuModel {
        low_pttrn_shift_reg: p.low_pttrn_shift_reg << 1,
        high_pttrn_shift_reg: p.high_pttrn_shift_reg << 1,
        low_attr_shift_reg: (p.low_attr_shift_reg << 1) | (p.state.attribute_latch % 2),
        high_attr_shift_reg: (p.high_attr_shift_reg << 1) | ((p.state.attribute_latch / 2) % 2),
        ..p
    }
}

/// Reload at dots 9, 17, ..., 257, 329, 337: the fetched tile row enters
/// the low byte of the pattern shift registers and the fetched palette bits
/// become the attribute latch.
pub open spec fn spec_reload(p: PpuModel) -> PpuModel {
    PpuModel {
        low_pttrn_shift_reg: (p.low_pttrn_shift_reg & 0xFF00) | (p.state.low_bitplane as u16),
        high_pttrn_shift_reg: (p.high_pttrn_shift_reg & 0xFF00) | (p.state.high_bitplane as u16),
        state: PpuState { attribute_latch: p.state.attribute_data, ..p.state },
        ..p
    }
}

/// The background fetch work of the current dot, by its place in the 8-dot
/// cycle: nametable byte, attribute bits, low bitplane, then high bitplane
/// followed by the coarse-x step (and the y step at dot 256).
pub open spec fn spec_bg_fetch(p: PpuModel) -> PpuModel {
    let d = p.state.dots;
    let phase = d % 8;
    if phase == 2 {
        PpuModel {
            state: PpuState {
                nametable_data: spec_ppu_bus_read(p.bus, (0x2000 + p.v % 0x1000) as u16),
                ..p.state
            },
            ..p
        }
    } else if phase == 4 {
        PpuModel {
            state: PpuState {
                attribute_data: spec_attr_bits(
                    spec_ppu_bus_read(p.bus, spec_attr_addr(p.v)),
                    p.v,
                ),
                ..p.state
            },
            ..p
        }
    } else if phase == 6 {
        PpuModel {
            state: PpuState {
                low_bitplane: spec_ppu_bus_read(
                    p.bus,
                    spec_pattern_addr(p.ctrl, p.state.nametable_data, p.v, false),
                ),
                ..p.state
            },
            ..p
        }
    } else if phase == 0 {
        let p1 = PpuModel {
            state: PpuState {
                high_bitplane: spec_ppu_bus_read(
                    p.bus,
                    spec_pattern_addr(p.ctrl, p.state.nametable_data, p.v, true),
                ),
                ..p.state
            },
            ..p
        };
        let v1 = spec_coarse_x_inc(p1.v);
        let v2 = if d == 256 {
            spec_y_inc(v1)
        } else {
            v1
        };
        PpuModel { v: v2, ..p1 }
    } else {
        p
    }
}

/// The sprite pixel a slot contributes at screen column `col`: two pattern
/// bits taken at the column's offset into the sprite, mirrored when the
/// horizontal-flip attribute is set; 0 when the column is outside the
/// sprite.
pub open spec fn spec_slot_px(s: Sprite, col: u16) -> u8 {
    if s.x_coordinate <= col && col < s.x_coordinate + 8 {
        let off = (col - s.x_coordinate) as u16;
        let bit = if s.attributes & 0x40 != 0 {
            off
        } else {
            (7 - off) as u16
        };
        (((s.pattern_lo as u16 >> bit) % 2) + 2 * ((s.pattern_hi as u16 >> bit) % 2)) as u8
    } else {
        0
    }
}

/// Index of the first slot with a non-transparent pixel at `col`, or 8 when
/// every slot is transparent there.
pub open spec fn spec_sprite_sel(slots: Seq<Sprite>, col: u16) -> int {
    if spec_slot_px(slots[0], col) != 0 {
        0
    } else if spec_slot_px(slots[1], col) != 0 {
        1
    } else if spec_slot_px(slots[2], col) != 0 {
        2
    } else if spec_slot_px(slots[3], col) != 0 {
        3
    } else if spec_slot_px(slots[4], col) != 0 {
        4
    } else if spec_slot_px(slots[5], col) != 0 {
        5
    } else if spec_slot_px(slots[6], col) != 0 {
        6
    } else if spec_slot_px(slots[7], col) != 0 {
        7
    } else {
        8
    }
}

/// The whole pixel multiplexer for the current dot of a visible scanline:
/// background pixel from the shift registers under fine-x, sprite pixel
/// from the first opaque slot, the priority table, the sprite-0 hit flag,
/// the palette lookup and the frame-buffer write. With rendering disabled
/// the backdrop colour is shown, or the palette entry `v` points at when
/// `v` sits in palette space.
pub open spec fn spec_pixel(p: PpuModel) -> PpuModel {
    let col = (p.state.dots - 1) as u16;
    let bg_px: u8 = if p.mask & 0x08 != 0 && !(col < 8 && p.mask & 0x02 == 0) {
        ((((p.low_pttrn_shift_reg >> ((15 - p.x) as u16)) % 2) + 2 * ((p.high_pttrn_shift_reg >> ((
        15 - p.x) as u16)) % 2)) % 0x100) as u8
    } else {
        0
    };
    let bg_pal: u8 = if bg_px != 0 {
        ((p.low_attr_shift_reg >> ((7 - p.x) as u8)) % 2 + 2 * ((p.high_attr_shift_reg >> ((7
            - p.x) as u8)) % 2)) as u8
    } else {
        0
    };
    let sprites_on = p.mask & 0x10 != 0 && !(col < 8 && p.mask & 0x04 == 0);
    let sel = if sprites_on {
        spec_sprite_sel(p.sprite_slots, col)
    } else {
        8
    };
    let sp_px: u8 = if sel < 8 {
        spec_slot_px(p.sprite_slots[sel], col)
    } else {
        0
    };
    let sp_pal: u8 = if sel < 8 {
        p.sprite_slots[sel].attributes % 4
    } else {
        0
    };
    let sp_behind = sel < 8 && p.sprite_slots[sel].attributes & 0x20 != 0;
    let idx: u8 = if p.mask & 0x18 == 0 {
        if p.v % 0x4000 >= 0x3F00 {
            (p.v % 0x20) as u8
        } else {
            0
        }
    } else if bg_px == 0 && sp_px == 0 {
        0
    } else if bg_px == 0 {
        (0x10 + sp_pal * 4 + sp_px) as u8
    } else if sp_px == 0 {
        (bg_pal * 4 + bg_px) as u8
    } else if !sp_behind {
        (0x10 + sp_pal * 4 + sp_px) as u8
    } else {
        (bg_pal * 4 + bg_px) as u8
    };
    let hit = sel == 0 && p.sprite_zero_line && bg_px != 0 && sp_px != 0 && 1 <= col && col <= 254
        && p.mask & 0x18 == 0x18;
    let status = if hit {
        p.status | 0x40
    } else {
        p.status
    };
    let ci = spec_ppu_bus_read(p.bus, (0x3F00 + idx) as u16) % 0x40;
    let rgb = ((p.bus.lut[3 * ci] * 0x10000 + p.bus.lut[3 * ci + 1] * 0x100 + p.bus.lut[3 * ci
        + 2]) % 0x100000000) as u32;
    PpuModel {
        status: status,
        color_buffer: p.color_buffer.update(p.state.scanline * 256 + col, rgb),
        ..p
    }
}

/// The running state of the sprite scan over primary OAM.
#[verifier::ext_equal]
pub ghost struct EvalState {
    pub sec: Seq<u8>,
    pub found: nat,
    pub n: nat,
    pub m: nat,
    pub overflow: bool,
    pub zero: bool,
}

/// One scan over primary OAM for the next scanline, starting at the byte
/// OAMADDR held. While fewer than eight sprites are found, each in-range
/// sprite's four bytes are copied into secondary OAM. Once eight are found
/// the scan goes on with the hardware's buggy stride: a miss advances both
/// the sprite index and the in-sprite byte index, and a further in-range
/// byte only sets the overflow flag.
pub open spec fn spec_eval_loop(
    oam: Seq<u8>,
    start: u8,
    target: int,
    h: int,
    st: EvalState,
) -> EvalState
    decreases 64 - st.n,
{
    if st.n >= 64 {
        st
    } else if st.found < 8 {
        let y = oam[(start + 4 * st.n) % 256];
        if y <= target && target < y + h {
            let sec = st.sec.update(st.found * 4 as int, y).update(
                st.found * 4 + 1 as int,
                oam[(start + 4 * st.n + 1) % 256],
            ).update(st.found * 4 + 2 as int, oam[(start + 4 * st.n + 2) % 256]).update(
                st.found * 4 + 3 as int,
                oam[(start + 4 * st.n + 3) % 256],
            );
            spec_eval_loop(
                oam,
                start,
                target,
                h,
                EvalState {
                    sec: sec,
                    found: st.found + 1,
                    n: st.n + 1,
                    zero: st.zero || (start == 0 && st.n == 0),
                    ..st
                },
            )
        } else {
            spec_eval_loop(oam, start, target, h, EvalState { n: st.n + 1, ..st })
        }
    } else {
        let y = oam[(start + 4 * st.n + st.m) % 256];
        if y <= target && target < y + h {
            EvalState { overflow: true, n: 64, ..st }
        } else {
            spec_eval_loop(
                oam,
                start,
                target,
                h,
                EvalState { n: st.n + 1, m: (st.m + 1) % 4, ..st },
            )
        }
    }
}

/// Sprite height selected by PPUCTRL bit 5.
pub open spec fn spec_sprite_height(ctrl: u8) -> int {
    if ctrl & 0x20 != 0 {
        16
    } else {
        8
    }
}

/// Effect of the dot-65 sprite evaluation: secondary OAM, the overflow
/// status bit, the sprite-0 marker for the coming scanline, and the OAMADDR
/// reset.
pub open spec fn spec_evaluate(p: PpuModel) -> PpuModel {
    let st0 = EvalState {
        sec: p.secondary_oam,
        found: 0,
        n: 0,
        m: 0,
        overflow: false,
        zero: false,
    };
    let r = spec_eval_loop(
        p.oam,
        p.oam_addr,
        p.state.scanline + 1,
        spec_sprite_height(p.ctrl),
        st0,
    );
    PpuModel {
        secondary_oam: r.sec,
        status: if r.overflow {
            p.status | 0x20
        } else {
            p.status
        },
        sprite_zero_next: r.zero,
        oam_addr: 0,
        ..p
    }
}

/// The slot the dots-257 sprite fetch builds from entry `i` of secondary
/// OAM: the sprite's two pattern bytes for the next scanline's row (flipped
/// vertically when attribute bit 7 asks), its attributes and its column.
/// A sprite whose y range misses the next scanline leaves a transparent
/// slot.
pub open spec fn spec_fetch_slot(p: PpuModel, i: int) -> Sprite {
    let y = p.secondary_oam[4 * i];
    let tile = p.secondary_oam[4 * i + 1];
    let attr = p.secondary_oam[4 * i + 2];
    let sx = p.secondary_oam[4 * i + 3];
    let target = p.state.scanline + 1;
    let h = spec_sprite_height(p.ctrl);
    if y <= target && target < y + h {
        let row0 = target - y;
        let row = if attr & 0x80 != 0 {
            h - 1 - row0
        } else {
            row0
        };
        let paddr: u16 = if p.ctrl & 0x20 != 0 {
            (((tile % 2) * 0x1000) + (tile - tile % 2) * 16 + (if row >= 8 {
                16int
            } else {
                0int
            }) + row % 8) as u16
        } else {
            ((if p.ctrl & 0x08 != 0 {
                0x1000int
            } else {
                0int
            }) + tile * 16 + row) as u16
        };
        Sprite {
            x_coordinate: sx,
            pattern_lo: spec_ppu_bus_read(p.bus, paddr),
            pattern_hi: spec_ppu_bus_read(p.bus, (paddr + 8) as u16),
            attributes: attr,
        }
    } else {
        Sprite { x_coordinate: sx, pattern_lo: 0, pattern_hi: 0, attributes: attr }
    }
}

/// Effect of the dots-257 sprite fetch: all eight slots are rebuilt from
/// secondary OAM and the sprite-0 marker moves to the coming scanline.
pub open spec fn spec_load_slots(p: PpuModel) -> PpuModel {
    PpuModel {
        sprite_slots: Seq::new(8, |i: int| spec_fetch_slot(p, i)),
        sprite_zero_line: p.sprite_zero_next,
        ..p
    }
}

/// A transparent sprite slot.
pub open spec fn spec_empty_slot() -> Sprite {
    Sprite { x_coordinate: 0, pattern_lo: 0, pattern_hi: 0, attributes: 0 }
}

/// Status events of the current dot: the frame handoff at the entry to
/// scanline 241, the vblank flag and NMI at (241, 1), and the flag clears
/// at (261, 1).
pub open spec fn spec_events(p: PpuModel) -> PpuModel {
    let d = p.state.dots;
    let sl = p.state.scanline;
    if sl == 241 && d == 0 {
        PpuModel { frame_complete: true, ..p }
    } else if sl == 241 && d == 1 {
        PpuModel {
            status: p.status | 0x80,
            nmi: if p.ctrl & 0x80 != 0 {
                1
            } else {
                p.nmi
            },
            ..p
        }
    } else if sl == 261 && d == 1 {
        PpuModel { status: p.status & 0x1F, ..p }
    } else {
        p
    }
}

/// The advance to the next dot position. The frame wraps from (261, 340) to
/// (0, 0), or straight to (0, 1) when the new frame is odd and rendering is
/// on — the odd-frame skip. `ticks` counts ticks, `dot_positions` counts
/// positions passed (so a skip adds two), `skips` counts skipped dots.
pub open spec fn spec_advance(p: PpuModel) -> PpuModel {
    let d = p.state.dots;
    let sl = p.state.scanline;
    let ticks = (p.ticks + 1) as nat;
    if d < 340 {
        PpuModel {
            state: PpuState { dots: (d + 1) as u16, ..p.state },
            ticks: ticks,
            dot_positions: (p.dot_positions + 1) as nat,
            ..p
        }
    } else if sl < 261 {
        PpuModel {
            state: PpuState { dots: 0, scanline: (sl + 1) as u16, ..p.state },
            ticks: ticks,
            dot_positions: (p.dot_positions + 1) as nat,
            ..p
        }
    } else if p.state.even_odd_frame && spec_rendering(p) {
        PpuModel {
            state: PpuState { dots: 1, scanline: 0, even_odd_frame: false, ..p.state },
            ticks: ticks,
            dot_positions: (p.dot_positions + 2) as nat,
            skips: (p.skips + 1) as nat,
            ..p
        }
    } else {
        PpuModel {
            state: PpuState {
                dots: 0,
                scanline: 0,
                even_odd_frame: !p.state.even_odd_frame,
                ..p.state
            },
            ticks: ticks,
            dot_positions: (p.dot_positions + 1) as nat,
            ..p
        }
    }
}

/// The background half of one tick: the shift-register reload, the pixel
/// multiplexer on visible dots, and the background fetches with the
/// scroll-register steps. Opaque so that proofs that chain ticks need not
/// expand the pixel pipeline.
#[verifier::opaque]
pub open spec fn spec_tick_bg(p: PpuModel) -> PpuModel {
    let d = p.state.dots;
    let sl = p.state.scanline;
    let renders = spec_rendering(p);
    let fetch_line = sl <= 239 || sl == 261;
    let p1 = if renders && fetch_line && d % 8 == 1 && ((9 <= d && d <= 257) || d == 329 || d
        == 337) {
        spec_reload(p)
    } else {
        p
    };
    let p2 = if sl <= 239 && 1 <= d && d <= 256 {
        spec_pixel(p1)
    } else {
        p1
    };
    if renders && fetch_line {
        let a = if (1 <= d && d <= 256) || (321 <= d && d <= 336) {
            spec_shift(spec_bg_fetch(p2))
        } else {
            p2
        };
        let b = if d == 257 {
            PpuModel { v: spec_copy_x(a.v, a.t), ..a }
        } else {
            a
        };
        if sl == 261 && 280 <= d && d <= 304 {
            PpuModel { v: spec_copy_y(b.v, b.t), ..b }
        } else {
            b
        }
    } else {
        p2
    }
}

/// The sprite half of one tick (secondary-OAM clear, evaluation, slot
/// fetches) followed by the status events of the dot. The position fields
/// the gates read are untouched by `spec_tick_bg`, so they are those of the
/// tick's start.
#[verifier::opaque]
pub open spec fn spec_tick_sprites_events(p: PpuModel) -> PpuModel {
    let d = p.state.dots;
    let sl = p.state.scanline;
    let renders = spec_rendering(p);
    let p4 = if renders && sl <= 239 {
        if d == 1 {
            PpuModel { secondary_oam: Seq::new(32, |i: int| 0xFFu8), ..p }
        } else if d == 65 {
            spec_evaluate(p)
        } else if d == 257 {
            spec_load_slots(p)
        } else {
            p
        }
    } else if renders && sl == 261 && d == 257 {
        PpuModel {
            sprite_slots: Seq::new(8, |i: int| spec_empty_slot()),
            sprite_zero_line: false,
            ..p
        }
    } else {
        p
    };
    spec_events(p4)
}

/// One whole PPU tick: the background half, the sprite half with the
/// status events, then the advance of the dot position. Opaque so that the
/// CPU side can chain ticks without expanding the whole pipeline; proofs
/// about a tick's content reveal it.
#[verifier::opaque]
pub open spec fn spec_ppu_tick(p: PpuModel) -> PpuModel {
    spec_advance(spec_tick_sprites_events(spec_tick_bg(p)))
}

/// Steps `v`'s coarse-x, wrapping from 31 with a horizontal nametable flip.
fn coarse_x_inc(v: u16) -> (r: u16)
    requires
        v < 0x8000,
    ensures
        r == spec_coarse_x_inc(v),
        r < 0x8000,
{
    if v % 0x20 == 31 {
        let base = v - 31;
        if (base / 0x400) % 2 == 0 {
            (base + 0x400) % 0x8000
        } else {
            (base - 0x400) % 0x8000
        }
    } else {
        (v + 1) % 0x8000
    }
}

/// Steps `v`'s y position, overflowing fine-y into coarse-y.
fn y_inc(v: u16) -> (r: u16)
    requires
        v < 0x8000,
    ensures
        r == spec_y_inc(v),
        r < 0x8000,
{
    if v / 0x1000 < 7 {
        (v + 0x1000) % 0x8000
    } else {
        let v2 = v % 0x1000;
        let cy = (v2 / 0x20) % 0x20;
        if cy == 29 {
            let z = v2 - 29 * 0x20;
            if (z / 0x800) % 2 == 0 {
                (z + 0x800) % 0x8000
            } else {
                (z - 0x800) % 0x8000
            }
        } else if cy == 31 {
            (v2 - 31 * 0x20) % 0x8000
        } else {
            (v2 + 0x20) % 0x8000
        }
    }
}

impl PPU {
    /// Loads the fetched tile row into the low bytes of the pattern shift
    /// registers and the fetched palette bits into the attribute latch.
    fn reload_shift_regs(&mut self)
        ensures
            final(self)@ == spec_reload(old(self)@),
    {
        self.low_pttrn_shift_reg = (self.low_pttrn_shift_reg & 0xFF00) | (self.state.low_bitplane
            as u16);
        self.high_pttrn_shift_reg = (self.high_pttrn_shift_reg & 0xFF00)
            | (self.state.high_bitplane as u16);
        self.state.attribute_latch = self.state.attribute_data;
    }

    /// Shifts the four background shift registers once.
    fn shift_regs(&mut self)
        ensures
            final(self)@ == spec_shift(old(self)@),
    {
        self.low_pttrn_shift_reg = self.low_pttrn_shift_reg << 1;
        self.high_pttrn_shift_reg = self.high_pttrn_shift_reg << 1;
        self.low_attr_shift_reg = (self.low_attr_shift_reg << 1) | (self.state.attribute_latch
            % 2);
        self.high_attr_shift_reg = (self.high_attr_shift_reg << 1) | ((self.state.attribute_latch
            / 2) % 2);
    }

    /// Does the background fetch work of the current dot.
    fn bg_fetch(&mut self)
        requires
            old(self)@.wf(),
        ensures
            final(self)@ == spec_bg_fetch(old(self)@),
            final(self)@.wf(),
    {
        let d = self.state.dots;
        let phase = d % 8;
        if phase == 2 {
            self.state.nametable_data = self.ppu_bus.mem_read(0x2000 + self.v % 0x1000);
        } else if phase == 4 {
            let at = self.ppu_bus.mem_read(
                0x23C0 + ((self.v / 0x400) % 4) * 0x400 + ((self.v / 0x80) % 8) * 8 + (self.v
                    % 0x20) / 4,
            );
            let sx = ((self.v % 0x20) % 4) / 2;
            let sy = (((self.v / 0x20) % 0x20) % 4) / 2;
            self.state.attribute_data = if sx == 0 && sy == 0 {
                at % 4
            } else if sx == 1 && sy == 0 {
                (at / 4) % 4
            } else if sx == 0 {
                (at / 16) % 4
            } else {
                (at / 64) % 4
            };
        } else if phase == 6 {
            self.state.low_bitplane = self.fetch_pattern_table(false, self.state.nametable_data);
        } else if phase == 0 {
            self.state.high_bitplane = self.fetch_pattern_table(true, self.state.nametable_data);
            let v1 = coarse_x_inc(self.v);
            self.v = if d == 256 {
                y_inc(v1)
            } else {
                v1
            };
        }
    }

    /// The sprite pixel slot `s` contributes at column `col`.
    fn slot_px(s: &Sprite, col: u16) -> (r: u8)
        ensures
            r == spec_slot_px(*s, col),
            r <= 3,
    {
        if s.x_coordinate as u16 <= col && col < s.x_coordinate as u16 + 8 {
            let off = col - s.x_coordinate as u16;
            let bit = if s.attributes & 0x40 != 0 {
                off
            } else {
                7 - off
            };
            (((s.pattern_lo as u16 >> bit) % 2) + 2 * ((s.pattern_hi as u16 >> bit) % 2)) as u8
        } else {
            0
        }
    }

    /// First slot with an opaque pixel at `col`, or 8.
    fn sprite_pick(&self, col: u16) -> (sel: usize)
        requires
            self@.sprite_slots.len() == 8,
        ensures
            sel == spec_sprite_sel(self@.sprite_slots, col),
            sel <= 8,
    {
        if Self::slot_px(&self.sprite_slots[0], col) != 0 {
            0
        } else if Self::slot_px(&self.sprite_slots[1], col) != 0 {
            1
        } else if Self::slot_px(&self.sprite_slots[2], col) != 0 {
            2
        } else if Self::slot_px(&self.sprite_slots[3], col) != 0 {
            3
        } else if Self::slot_px(&self.sprite_slots[4], col) != 0 {
            4
        } else if Self::slot_px(&self.sprite_slots[5], col) != 0 {
            5
        } else if Self::slot_px(&self.sprite_slots[6], col) != 0 {
            6
        } else if Self::slot_px(&self.sprite_slots[7], col) != 0 {
            7
        } else {
            8
        }
    }

    /// Runs the pixel multiplexer for the current dot and writes the colour
    /// into the frame buffer.
    fn draw_pixel(&mut self)
        requires
            old(self)@.wf(),
            1 <= old(self)@.state.dots <= 256,
            old(self)@.state.scanline <= 239,
        ensures
            final(self)@ == spec_pixel(old(self)@),
            final(self)@.wf(),
    {
        let col: u16 = self.state.dots - 1;
        let bg_px: u8 = if self.mask & 0x08 != 0 && !(col < 8 && self.mask & 0x02 == 0) {
            (((self.low_pttrn_shift_reg >> ((15 - self.x) as u16)) % 2) + 2 * ((
            self.high_pttrn_shift_reg >> ((15 - self.x) as u16)) % 2)) as u8
        } else {
            0
        };
        let bg_pal: u8 = if bg_px != 0 {
            (self.low_attr_shift_reg >> ((7 - self.x) as u8)) % 2 + 2 * ((self.high_attr_shift_reg
                >> ((7 - self.x) as u8)) % 2)
        } else {
            0
        };
        let sprites_on = self.mask & 0x10 != 0 && !(col < 8 && self.mask & 0x04 == 0);
        let sel: usize = if sprites_on {
            self.sprite_pick(col)
        } else {
            8
        };
        let sp_px: u8 = if sel < 8 {
            Self::slot_px(&self.sprite_slots[sel], col)
        } else {
            0
        };
        let sp_pal: u8 = if sel < 8 {
            self.sprite_slots[sel].attributes % 4
        } else {
            0
        };
        let sp_behind = sel < 8 && self.sprite_slots[sel].attributes & 0x20 != 0;
        let idx: u8 = if self.mask & 0x18 == 0 {
            if self.v % 0x4000 >= 0x3F00 {
                (self.v % 0x20) as u8
            } else {
                0
            }
        } else if bg_px == 0 && sp_px == 0 {
            0
        } else if bg_px == 0 {
            0x10 + sp_pal * 4 + sp_px
        } else if sp_px == 0 {
            bg_pal * 4 + bg_px
        } else if !sp_behind {
            0x10 + sp_pal * 4 + sp_px
        } else {
            bg_pal * 4 + bg_px
        };
        let hit = sel == 0 && self.sprite_zero_line && bg_px != 0 && sp_px != 0 && 1 <= col && col
            <= 254 && self.mask & 0x18 == 0x18;
        if hit {
            self.status = self.status | 0x40;
        }
        let ci = self.ppu_bus.mem_read(0x3F00 + idx as u16) % 0x40;
        let r = self.ppu_bus.palette_storage[3 * ci as usize];
        let g = self.ppu_bus.palette_storage[3 * ci as usize + 1];
        let b = self.ppu_bus.palette_storage[3 * ci as usize + 2];
        let rgb: u32 = (r as u32) * 0x10000 + (g as u32) * 0x100 + (b as u32);
        let fb_index: usize = (self.state.scanline as usize) * 256 + col as usize;
        self.color_buffer.set(fb_index, rgb);
    }

    /// Fills secondary OAM with 0xFF (the dots 1-64 clear).
    fn clear_secondary(&mut self)
        requires
            old(self)@.wf(),
        ensures
            final(self)@ == (PpuModel {
                secondary_oam: Seq::new(32, |i: int| 0xFFu8),
                ..old(self)@
            }),
            final(self)@.wf(),
    {
        let mut i: usize = 0;
        while i < 32
            invariant
                i <= 32,
                self@ == (PpuModel { secondary_oam: self.secondary_oam@, ..old(self)@ }),
                self.secondary_oam@.len() == 32,
                forall|j: int| 0 <= j < i ==> self.secondary_oam@[j] == 0xFFu8,
            decreases 32 - i,
        {
            self.secondary_oam.set(i, 0xFF);
            i = i + 1;
        }
        proof {
            assert(self.secondary_oam@ =~= Seq::new(32, |i: int| 0xFFu8));
        }
    }

    /// Scans primary OAM for the next scanline's sprites (the dot-65
    /// evaluation), filling secondary OAM, noting overflow and sprite 0,
    /// and resetting OAMADDR.
    fn evaluate_sprites(&mut self)
        requires
            old(self)@.wf(),
        ensures
            final(self)@ == spec_evaluate(old(self)@),
            final(self)@.wf(),
    {
        let start = self.oam_addr;
        let target: u32 = self.state.scanline as u32 + 1;
        let h: u32 = if self.ctrl & 0x20 != 0 {
            16
        } else {
            8
        };
        let ghost oam0 = old(self)@.oam;
        let ghost t_int: int = target as int;
        let ghost h_int: int = h as int;
        let ghost st0 = EvalState {
            sec: old(self)@.secondary_oam,
            found: 0,
            n: 0,
            m: 0,
            overflow: false,
            zero: false,
        };
        let mut found: usize = 0;
        let mut n: usize = 0;
        let mut m: usize = 0;
        let mut overflow = false;
        let mut zero = false;
        while n < 64
            invariant
                self@.wf(),
                self@ == (PpuModel { secondary_oam: self.secondary_oam@, ..old(self)@ }),
                found <= 8,
                m < 4,
                n <= 64,
                h_int == h && t_int == target,
                h == (if old(self)@.ctrl & 0x20 != 0 { 16u32 } else { 8u32 }),
                target == old(self)@.state.scanline + 1,
                start == old(self)@.oam_addr,
                oam0 == self@.oam,
                spec_eval_loop(
                    oam0,
                    start,
                    t_int,
                    h_int,
                    EvalState {
                        sec: self.secondary_oam@,
                        found: found as nat,
                        n: n as nat,
                        m: m as nat,
                        overflow: overflow,
                        zero: zero,
                    },
                ) == spec_eval_loop(oam0, start, t_int, h_int, st0),
            decreases 64 - n,
        {
            if found < 8 {
                let y = self.oam[(start as usize + 4 * n) % 256];
                if y as u32 <= target && target < y as u32 + h {
                    self.secondary_oam.set(found * 4, y);
                    let b1 = self.oam[(start as usize + 4 * n + 1) % 256];
                    self.secondary_oam.set(found * 4 + 1, b1);
                    let b2 = self.oam[(start as usize + 4 * n + 2) % 256];
                    self.secondary_oam.set(found * 4 + 2, b2);
                    let b3 = self.oam[(start as usize + 4 * n + 3) % 256];
                    self.secondary_oam.set(found * 4 + 3, b3);
                    zero = zero || (start == 0 && n == 0);
                    found = found + 1;
                    n = n + 1;
                } else {
                    n = n + 1;
                }
            } else {
                let y = self.oam[(start as usize + 4 * n + m) % 256];
                if y as u32 <= target && target < y as u32 + h {
                    overflow = true;
                    n = 64;
                } else {
                    n = n + 1;
                    m = (m + 1) % 4;
                }
            }
        }
        if overflow {
            self.status = self.status | 0x20;
        }
        self.sprite_zero_next = zero;
        self.oam_addr = 0;
        proof {
            let r = spec_eval_loop(oam0, start, t_int, h_int, st0);
            assert(r == EvalState {
                sec: self.secondary_oam@,
                found: found as nat,
                n: n as nat,
                m: m as nat,
                overflow: overflow,
                zero: zero,
            });
            assert(self@ =~= spec_evaluate(old(self)@));
        }
    }

    /// Builds one sprite slot from secondary OAM (part of the dot-257
    /// sprite pattern fetches).
    fn fetch_slot(&self, i: usize) -> (s: Sprite)
        requires
            self@.wf(),
            i < 8,
        ensures
            s == spec_fetch_slot(self@, i as int),
    {
        let y = self.secondary_oam[4 * i];
        let tile = self.secondary_oam[4 * i + 1];
        let attr = self.secondary_oam[4 * i + 2];
        let sx = self.secondary_oam[4 * i + 3];
        let target: u32 = self.state.scanline as u32 + 1;
        let h: u32 = if self.ctrl & 0x20 != 0 {
            16
        } else {
            8
        };
        if y as u32 <= target && target < y as u32 + h {
            let row0: u32 = target - y as u32;
            let row: u32 = if attr & 0x80 != 0 {
                h - 1 - row0
            } else {
                row0
            };
            let paddr: u16 = if self.ctrl & 0x20 != 0 {
                ((tile as u16 % 2) * 0x1000) + (tile as u16 - tile as u16 % 2) * 16 + (if row >= 8 {
                    16
                } else {
                    0
                }) + (row % 8) as u16
            } else {
                (if self.ctrl & 0x08 != 0 {
                    0x1000
                } else {
                    0
                }) + (tile as u16) * 16 + row as u16
            };
            Sprite {
                x_coordinate: sx,
                pattern_lo: self.ppu_bus.mem_read(paddr),
                pattern_hi: self.ppu_bus.mem_read(paddr + 8),
                attributes: attr,
            }
        } else {
            Sprite { x_coordinate: sx, pattern_lo: 0, pattern_hi: 0, attributes: attr }
        }
    }

    /// Rebuilds the eight sprite slots for the coming scanline (dot 257).
    fn load_sprite_slots(&mut self)
        requires
            old(self)@.wf(),
        ensures
            final(self)@ == spec_load_slots(old(self)@),
            final(self)@.wf(),
    {
        let s0 = self.fetch_slot(0);
        let s1 = self.fetch_slot(1);
        let s2 = self.fetch_slot(2);
        let s3 = self.fetch_slot(3);
        let s4 = self.fetch_slot(4);
        let s5 = self.fetch_slot(5);
        let s6 = self.fetch_slot(6);
        let s7 = self.fetch_slot(7);
        self.sprite_slots.set(0, s0);
        self.sprite_slots.set(1, s1);
        self.sprite_slots.set(2, s2);
        self.sprite_slots.set(3, s3);
        self.sprite_slots.set(4, s4);
        self.sprite_slots.set(5, s5);
        self.sprite_slots.set(6, s6);
        self.sprite_slots.set(7, s7);
        self.sprite_zero_line = self.sprite_zero_next;
        proof {
            assert(self.sprite_slots@ =~= Seq::new(
                8,
                |i: int| spec_fetch_slot(old(self)@, i),
            ));
            assert(self@ =~= spec_load_slots(old(self)@));
        }
    }

    /// Empties the eight sprite slots (pre-render dot 257), so that the
    /// first visible scanline of a frame shows no sprites.
    fn clear_sprite_slots(&mut self)
        requires
            old(self)@.wf(),
        ensures
            final(self)@ == (PpuModel {
                sprite_slots: Seq::new(8, |i: int| spec_empty_slot()),
                sprite_zero_line: false,
                ..old(self)@
            }),
            final(self)@.wf(),
    {
        let empty = Sprite { x_coordinate: 0, pattern_lo: 0, pattern_hi: 0, attributes: 0 };
        self.sprite_slots.set(0, empty);
        self.sprite_slots.set(1, empty);
        self.sprite_slots.set(2, empty);
        self.sprite_slots.set(3, empty);
        self.sprite_slots.set(4, empty);
        self.sprite_slots.set(5, empty);
        self.sprite_slots.set(6, empty);
        self.sprite_slots.set(7, empty);
        self.sprite_zero_line = false;
        proof {
            assert(self.sprite_slots@ =~= Seq::new(8, |i: int| spec_empty_slot()));
        }
    }

    /// The background half of one tick.
    #[verifier::rlimit(60)]
    #[verifier::spinoff_prover]
    fn tick_bg(&mut self)
        requires
            old(self)@.wf(),
        ensures
            final(self)@ == spec_tick_bg(old(self)@),
            final(self)@.wf(),
            final(self)@.state.dots == old(self)@.state.dots,
            final(self)@.state.scanline == old(self)@.state.scanline,
            final(self)@.state.even_odd_frame == old(self)@.state.even_odd_frame,
            final(self)@.mask == old(self)@.mask,
            final(self)@.ticks == old(self)@.ticks,
            final(self)@.skips == old(self)@.skips,
            final(self)@.dot_positions == old(self)@.dot_positions,
    {
        let d = self.state.dots;
        let sl = self.state.scanline;
        let renders = self.mask & 0x18 != 0;
        let fetch_line = sl <= 239 || sl == 261;
        let ghost p0 = self@;

        if renders && fetch_line && d % 8 == 1 && ((9 <= d && d <= 257) || d == 329 || d == 337) {
            self.reload_shift_regs();
        }
        let ghost q1 = self@;
        if sl <= 239 && 1 <= d && d <= 256 {
            self.draw_pixel();
        }
        let ghost q2 = self@;
        if renders && fetch_line {
            if (1 <= d && d <= 256) || (321 <= d && d <= 336) {
                self.bg_fetch();
                self.shift_regs();
            }
            if d == 257 {
                self.v = ((self.t % 0x20) + ((self.v / 0x20) % 0x20) * 0x20 + ((self.t / 0x400)
                    % 2) * 0x400 + ((self.v / 0x800) % 0x10) * 0x800) % 0x8000;
            }
            if sl == 261 && 280 <= d && d <= 304 {
                self.v = ((self.v % 0x20) + ((self.t / 0x20) % 0x20) * 0x20 + ((self.v / 0x400)
                    % 2) * 0x400 + (self.t / 0x800) * 0x800) % 0x8000;
            }
        }
        proof {
            reveal(spec_tick_bg);
            let s1 = if spec_rendering(p0) && (p0.state.scanline <= 239 || p0.state.scanline
                == 261) && p0.state.dots % 8 == 1 && ((9 <= p0.state.dots && p0.state.dots <= 257)
                || p0.state.dots == 329 || p0.state.dots == 337) {
                spec_reload(p0)
            } else {
                p0
            };
            assert(q1 == s1);
            let s2 = if p0.state.scanline <= 239 && 1 <= p0.state.dots && p0.state.dots <= 256 {
                spec_pixel(s1)
            } else {
                s1
            };
            assert(q2 == s2);
            if spec_rendering(p0) && (p0.state.scanline <= 239 || p0.state.scanline == 261) {
                let a = if (1 <= p0.state.dots && p0.state.dots <= 256) || (321 <= p0.state.dots
                    && p0.state.dots <= 336) {
                    spec_shift(spec_bg_fetch(s2))
                } else {
                    s2
                };
                let b = if p0.state.dots == 257 {
                    PpuModel { v: spec_copy_x(a.v, a.t), ..a }
                } else {
                    a
                };
                let c = if p0.state.scanline == 261 && 280 <= p0.state.dots && p0.state.dots
                    <= 304 {
                    PpuModel { v: spec_copy_y(b.v, b.t), ..b }
                } else {
                    b
                };
                assert(self@ =~= c);
            }
            assert(self@ =~= spec_tick_bg(p0));
        }
    }

    /// The sprite half of one tick plus the dot's status events.
    #[verifier::rlimit(60)]
    #[verifier::spinoff_prover]
    fn tick_sprites_events(&mut self)
        requires
            old(self)@.wf(),
        ensures
            final(self)@ == spec_tick_sprites_events(old(self)@),
            final(self)@.wf(),
            final(self)@.state == old(self)@.state,
            final(self)@.mask == old(self)@.mask,
            final(self)@.v == old(self)@.v,
            final(self)@.ticks == old(self)@.ticks,
            final(self)@.skips == old(self)@.skips,
            final(self)@.dot_positions == old(self)@.dot_positions,
    {
        let d = self.state.dots;
        let sl = self.state.scanline;
        let renders = self.mask & 0x18 != 0;
        let ghost p0 = self@;
        if renders && sl <= 239 {
            if d == 1 {
                self.clear_secondary();
            } else if d == 65 {
                self.evaluate_sprites();
            } else if d == 257 {
                self.load_sprite_slots();
            }
        } else if renders && sl == 261 && d == 257 {
            self.clear_sprite_slots();
        }
        let ghost q4 = self@;
        if sl == 241 && d == 0 {
            self.frame_complete = true;
        } else if sl == 241 && d == 1 {
            self.status = self.status | 0x80;
            if self.ctrl & 0x80 != 0 {
                self.nmi = 1;
            }
        } else if sl == 261 && d == 1 {
            self.status = self.status & 0x1F;
        }
        proof {
            reveal(spec_tick_sprites_events);
            assert(self@ =~= spec_events(q4));
            assert(self@ =~= spec_tick_sprites_events(p0));
        }
    }

    /// Advances the PPU by one dot: one call handles the current dot's
    /// background fetches, sprite work, pixel output and status events,
    /// then steps the (scanline, dot) position, skipping the first idle dot
    /// of odd frames while rendering is on.
    #[verifier::rlimit(60)]
    #[verifier::spinoff_prover]
    pub fn ppu_tick(&mut self)
        requires
            old(self)@.wf(),
        ensures
            final(self)@ == spec_ppu_tick(old(self)@),
            final(self)@.wf(),
            final(self)@.ticks == old(self)@.ticks + 1,
            old(self)@.skips <= final(self)@.skips <= old(self)@.skips + 1,
            final(self)@.dot_positions == old(self)@.dot_positions + 1 + (final(self)@.skips
                - old(self)@.skips),
    {
        self.tick_bg();
        self.tick_sprites_events();
        let ghost q5 = self@;
        let d = self.state.dots;
        let sl = self.state.scanline;
        let renders = self.mask & 0x18 != 0;
        self.ticks = Ghost((self.ticks@ + 1) as nat);
        if d < 340 {
            self.state.dots = d + 1;
            self.dot_positions = Ghost((self.dot_positions@ + 1) as nat);
        } else if sl < 261 {
            self.state.dots = 0;
            self.state.scanline = sl + 1;
            self.dot_positions = Ghost((self.dot_positions@ + 1) as nat);
        } else if self.state.even_odd_frame && renders {
            self.state.dots = 1;
            self.state.scanline = 0;
            self.state.even_odd_frame = false;
            self.dot_positions = Ghost((self.dot_positions@ + 2) as nat);
            self.skips = Ghost((self.skips@ + 1) as nat);
        } else {
            self.state.dots = 0;
            self.state.scanline = 0;
            self.state.even_odd_frame = !self.state.even_odd_frame;
            self.dot_positions = Ghost((self.dot_positions@ + 1) as nat);
        }
        proof {
            reveal(spec_ppu_tick);
            assert(self@ =~= spec_advance(q5));
            assert(self@ == spec_ppu_tick(old(self)@));
        }
    }
}

} // verus!
