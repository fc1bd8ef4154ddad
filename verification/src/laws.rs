//! Properties of the machine that span several operations, each proved
//! from the specifications the components export: the PPUDATA read buffer,
//! the PPUSTATUS read side effect, the scroll/address register merge
//! through the shared write toggle, the palette and nametable mirroring,
//! the status-byte push/pull round trip (also composed through `decode`),
//! the branch cycle costs, the NMI raised by a PPUCTRL write during
//! vblank and serviced within the same access, and the OAM DMA cycle cost
//! and page copy.

use vstd::prelude::*;
use crate::cpu::{
    CpuModel, spec_access_read, spec_access_write, spec_clear_nmi, spec_dma_loop, spec_pull,
    spec_pull_poll, spec_push, spec_push_poll, spec_read_byte, spec_run_dma, spec_service_nmi,
    spec_write_byte,
};
use crate::cpu_bus::{CpuBusModel, spec_bus_read8, spec_bus_write8, spec_prg_read};
use crate::cpu_instr::{spec_branch, spec_branch_cond, spec_php, spec_plp};
use crate::ppu::{PpuModel, spec_load_addr_byte, spec_load_scroll, spec_read_data};
use crate::ppu_bus::{PpuBusModel, spec_ppu_bus_read, spec_ppu_bus_write};
use crate::ppu_tick::{
    EvalState, spec_advance, spec_eval_loop, spec_ppu_tick, spec_tick_bg,
    spec_tick_sprites_events,
};
use crate::rom::Mirroring;

verus! {

/// A PPUDATA read while `v` sits in palette space answers from palette RAM
/// at once, and still refills the read buffer from the nametable byte
/// underneath.
pub proof fn lemma_ppudata_palette_read(p: PpuModel)
    requires
        p.wf(),
        p.v % 0x4000 >= 0x3F00,
    ensures
        spec_read_data(p).1 == spec_ppu_bus_read(p.bus, (p.v % 0x4000) as u16),
        spec_read_data(p).0.vram_latch == spec_ppu_bus_read(
            p.bus,
            (0x2000 + (p.v % 0x4000) % 0x1000) as u16,
        ),
{
}

/// A PPUDATA read outside palette space answers one read behind, from the
/// buffer, and refills the buffer from `v`.
pub proof fn lemma_ppudata_buffered_read(p: PpuModel)
    requires
        p.wf(),
        p.v % 0x4000 < 0x3F00,
    ensures
        spec_read_data(p).1 == p.vram_latch,
        spec_read_data(p).0.vram_latch == spec_ppu_bus_read(p.bus, (p.v % 0x4000) as u16),
{
}

/// A PPUDATA read through the CPU bus while `v` is outside palette space:
/// the returned byte is the old read buffer (one read behind), the buffer
/// refills from the byte `v` names, and `v` steps by 1 or 32 per PPUCTRL
/// bit 2, within its 15 bits.
pub proof fn lemma_bus_ppudata_buffered(b: CpuBusModel, addr: u16)
    requires
        b.wf(),
        0x2000 <= addr < 0x4000,
        addr % 8 == 7,
        b.ppu.v % 0x4000 < 0x3F00,
    ensures
        spec_bus_read8(b, addr).1 == b.ppu.vram_latch,
        spec_bus_read8(b, addr).0.ppu.vram_latch == spec_ppu_bus_read(
            b.ppu.bus,
            (b.ppu.v % 0x4000) as u16,
        ),
        spec_bus_read8(b, addr).0.ppu.v == ((b.ppu.v + (if b.ppu.ctrl & 0x04 != 0 {
            32int
        } else {
            1int
        })) % 0x8000) as u16,
{
    reveal(spec_bus_read8);
}

/// A PPUDATA read through the CPU bus while `v` sits in palette space:
/// the palette byte (under the fold mirroring) is returned at once, and
/// the buffer refills from the nametable byte underneath; `v` steps the
/// same way.
pub proof fn lemma_bus_ppudata_palette(b: CpuBusModel, addr: u16)
    requires
        b.wf(),
        0x2000 <= addr < 0x4000,
        addr % 8 == 7,
        b.ppu.v % 0x4000 >= 0x3F00,
    ensures
        spec_bus_read8(b, addr).1 == spec_ppu_bus_read(b.ppu.bus, (b.ppu.v % 0x4000) as u16),
        spec_bus_read8(b, addr).0.ppu.vram_latch == spec_ppu_bus_read(
            b.ppu.bus,
            (0x2000 + (b.ppu.v % 0x4000) % 0x1000) as u16,
        ),
        spec_bus_read8(b, addr).0.ppu.v == ((b.ppu.v + (if b.ppu.ctrl & 0x04 != 0 {
            32int
        } else {
            1int
        })) % 0x8000) as u16,
{
    reveal(spec_bus_read8);
}

/// Reading PPUSTATUS clears the vblank bit, so a second read of the
/// register returns a byte whose bit 7 is clear.
pub proof fn lemma_status_read_clears_vblank(b: CpuBusModel, a1: u16, a2: u16)
    requires
        b.wf(),
        0x2000 <= a1 < 0x4000,
        a1 % 8 == 2,
        0x2000 <= a2 < 0x4000,
        a2 % 8 == 2,
    ensures
        spec_bus_read8(spec_bus_read8(b, a1).0, a2).1 & 0x80 == 0,
{
    reveal(spec_bus_read8);
    let s = b.ppu.status;
    let l = spec_bus_read8(b, a1).1;
    assert((((s & 0x7F) & 0xE0) | (l & 0x1F)) & 0x80 == 0) by (bit_vector);
}

/// Two PPUSCROLL writes followed by two PPUADDR writes, from a clear write
/// toggle, leave fine-x from the first scroll byte and load `v` (and `t`)
/// from the two address bytes alone: the shared toggle `w` sequences the
/// four writes and ends clear.
pub proof fn lemma_scroll_addr_merge(b: CpuBusModel, s1: u8, s2: u8, hi: u8, lo: u8)
    requires
        b.wf(),
        b.ppu.w == 0,
    ensures
        ({
            let b4 = spec_bus_write8(
                spec_bus_write8(spec_bus_write8(spec_bus_write8(b, 0x2005, s1), 0x2005, s2), 0x2006, hi),
                0x2006,
                lo,
            );
            &&& b4.ppu.x == s1 % 8
            &&& b4.ppu.w == 0
            &&& b4.ppu.v == (hi % 0x40) * 0x100 + lo
            &&& b4.ppu.t == b4.ppu.v
        }),
{
    reveal(spec_bus_write8);
    let b1 = spec_bus_write8(b, 0x2005, s1);
    let b2 = spec_bus_write8(b1, 0x2005, s2);
    let b3 = spec_bus_write8(b2, 0x2006, hi);
    let t3 = b3.ppu.t;
    assert(t3 == (b2.ppu.t % 0x100) + ((hi % 0x40) as u16) * 0x100);
    assert(t3 / 0x100 == (hi % 0x40) as u16) by {
        assert(b2.ppu.t % 0x100 < 0x100);
    };
}

/// The same register merge stated on the PPU register operations
/// themselves: two PPUSCROLL writes then two PPUADDR writes, from a clear
/// toggle, leave fine-x from the first scroll byte, and `v` and `t` carry
/// the two address bytes alone (high byte masked to six bits).
pub proof fn lemma_scroll_addr_merge_registers(p: PpuModel, s1: u8, s2: u8, hi: u8, lo: u8)
    requires
        p.wf(),
        p.w == 0,
    ensures
        ({
            let p4 = spec_load_addr_byte(
                spec_load_addr_byte(spec_load_scroll(spec_load_scroll(p, s1), s2), hi),
                lo,
            );
            &&& p4.x == s1 % 8
            &&& p4.w == 0
            &&& p4.v == (hi % 0x40) * 0x100 + lo
            &&& p4.t == p4.v
        }),
{
    let p2 = spec_load_scroll(spec_load_scroll(p, s1), s2);
    let p3 = spec_load_addr_byte(p2, hi);
    assert(p3.t == (p2.t % 0x100) + ((hi % 0x40) as u16) * 0x100);
    assert(p3.t / 0x100 == (hi % 0x40) as u16) by {
        assert(p2.t % 0x100 < 0x100);
    };
}

/// A palette write to the sprite-backdrop alias 0x3F10 is observable at
/// 0x3F00.
pub proof fn lemma_palette_backdrop_alias(b: PpuBusModel, data: u8)
    requires
        b.wf(),
    ensures
        spec_ppu_bus_read(spec_ppu_bus_write(b, 0x3F10, data), 0x3F00) == data,
{
}

/// Under horizontal mirroring, 0x2000 and 0x2400 name the same VRAM byte.
pub proof fn lemma_horizontal_mirror(b: PpuBusModel, data: u8)
    requires
        b.wf(),
        b.mirroring == Mirroring::HORIZONTAL,
    ensures
        spec_ppu_bus_read(spec_ppu_bus_write(b, 0x2000, data), 0x2400) == data,
{
}

/// Under vertical mirroring, 0x2000 and 0x2800 name the same VRAM byte.
pub proof fn lemma_vertical_mirror(b: PpuBusModel, data: u8)
    requires
        b.wf(),
        b.mirroring == Mirroring::VERTICAL,
    ensures
        spec_ppu_bus_read(spec_ppu_bus_write(b, 0x2000, data), 0x2800) == data,
{
}

/// Pushing the status byte with PHP and pulling it back with PLP yields
/// (P | 0x20) & 0xEF: PHP pushes the byte with B and bit 5 set (as
/// `spec_php` writes it), and PLP forces bit 5 and discards B in what it
/// pulls (as `spec_plp` reads it), so the round trip composes to exactly
/// this on the byte.
pub proof fn lemma_push_pull_status(p: u8)
    by (bit_vector)
    ensures
        ((p | 0x30) | 0x20) & 0xEF == (p | 0x20) & 0xEF,
{
}

/// An opcode or operand fetch on a quiet bus: one cycle, three dots, PC
/// stepped past the byte, and everything else untouched.
pub proof fn lemma_fetch_quiet(c: CpuModel)
    requires
        c.wf(),
        !c.bus.halt,
        c.bus.ppu.nmi == 0,
        spec_edge_clear(c.bus.ppu, 3),
    ensures
        ({
            let f = crate::cpu::spec_fetch_byte(c);
            &&& f.0.wf()
            &&& f.0.bus.ppu.nmi == 0
            &&& spec_frame_index(f.0.bus.ppu) == spec_frame_index(c.bus.ppu) + 3
            &&& f.0.bus.ppu.skips == c.bus.ppu.skips
            &&& f.0.cycles == c.cycles + 1
            &&& f.0.bus.halt == c.bus.halt
            &&& f.0.bus.ram == c.bus.ram
            &&& f.0.bus.prg == c.bus.prg
            &&& f.0.a == c.a
            &&& f.0.x == c.x
            &&& f.0.y == c.y
            &&& f.0.pc == ((c.pc + 1) % 0x10000) as u16
            &&& f.0.sp == c.sp
            &&& f.0.status == c.status
        }),
{
    lemma_access_read_quiet(c, c.pc);
}

/// The branch cycle law composed through `decode`: when the opcode at PC
/// is one of the eight branches, the whole instruction costs 2 cycles not
/// taken, 3 taken to the same page, and 4 taken across a page boundary —
/// the opcode fetch, the displacement fetch, and the dummy reads of a
/// taken branch.
#[verifier::rlimit(100)]
#[verifier::spinoff_prover]
pub proof fn lemma_decode_branch_cycles(c: CpuModel)
    requires
        c.wf(),
        !c.bus.halt,
        c.bus.ppu.nmi == 0,
        spec_edge_clear(c.bus.ppu, 12),
        crate::cpu::spec_fetch_byte(c).1 % 0x20 == 0x10,
    ensures
        ({
            let f = crate::cpu::spec_fetch_byte(c);
            let g = crate::cpu::spec_fetch_byte(f.0);
            let taken = spec_branch_cond(g.0.status, f.1 / 32);
            let target = if g.1 < 0x80 {
                ((g.0.pc + g.1) % 0x10000) as u16
            } else {
                ((g.0.pc + g.1 + 0xFF00) % 0x10000) as u16
            };
            let cross = target / 0x100 != g.0.pc / 0x100;
            &&& crate::cpu_decode::spec_decode(c).1 is None
            &&& (!taken ==> crate::cpu_decode::spec_decode(c).0.cycles == c.cycles + 2)
            &&& (taken && !cross ==> crate::cpu_decode::spec_decode(c).0.cycles == c.cycles + 3)
            &&& (taken && cross ==> crate::cpu_decode::spec_decode(c).0.cycles == c.cycles + 4)
        }),
{
    reveal(crate::cpu_decode::spec_exec_op);
    lemma_fetch_quiet(c);
    let f = crate::cpu::spec_fetch_byte(c);
    assert(!crate::cpu_decode::spec_jam(f.1));
    assert(crate::cpu_decode::spec_decode(c).0 == spec_branch(f.0, f.1 / 32));
    lemma_branch_cycles(f.0, f.1 / 32);
}

/// One PHP on a quiet bus: the dummy read, then P | 0x30 pushed at
/// 0x0100 + SP with SP stepping down; two cycles past the opcode fetch.
#[verifier::rlimit(100)]
#[verifier::spinoff_prover]
pub proof fn lemma_php_effect(c: CpuModel)
    requires
        c.wf(),
        !c.bus.halt,
        c.bus.ppu.nmi == 0,
        spec_edge_clear(c.bus.ppu, 6),
    ensures
        ({
            let q = spec_php(c);
            &&& q.wf()
            &&& !q.bus.halt
            &&& q.bus.ppu.nmi == 0
            &&& spec_frame_index(q.bus.ppu) == spec_frame_index(c.bus.ppu) + 6
            &&& q.cycles == c.cycles + 2
            &&& q.status == c.status
            &&& q.sp == ((c.sp + 0xFF) % 0x100) as u8
            &&& q.bus.ram == c.bus.ram.update((0x100 + c.sp) as int, c.status | 0x30)
        }),
{
    lemma_access_read_quiet(c, c.pc);
    let cb = spec_access_read(c, c.pc).0;
    assert(spec_read_byte(c, c.pc).0 == cb);
    let pushed = cb.status | 0x30;
    lemma_access_write_quiet(cb, (0x100 + cb.sp) as u16, pushed);
    let ccw = spec_access_write(cb, (0x100 + cb.sp) as u16, pushed);
    let cc = CpuModel { sp: ((cb.sp + 0xFF) % 0x100) as u8, ..ccw };
    assert(spec_push(cb, pushed) == cc);
    assert(spec_push_poll(cb, pushed) == cc);
    assert((0x100 + cb.sp) as int % 0x800 == 0x100 + c.sp);
}

/// One PLP on a quiet bus: two dummy reads, then the byte under
/// 0x0100 + SP + 1 pulled into the status with B cleared and bit 5
/// forced, SP stepping up; three cycles past the opcode fetch.
#[verifier::rlimit(100)]
#[verifier::spinoff_prover]
pub proof fn lemma_plp_effect(c: CpuModel)
    requires
        c.wf(),
        !c.bus.halt,
        c.bus.ppu.nmi == 0,
        spec_edge_clear(c.bus.ppu, 9),
    ensures
        spec_plp(c).status == (c.bus.ram[(0x100 + (c.sp + 1) % 0x100) as int] | 0x20) & 0xEF,
        spec_plp(c).sp == ((c.sp + 1) % 0x100) as u8,
{
    lemma_access_read_quiet(c, c.pc);
    let ce = spec_access_read(c, c.pc).0;
    assert(spec_read_byte(c, c.pc).0 == ce);
    lemma_access_read_quiet(ce, (0x100 + ce.sp) as u16);
    let cf = spec_access_read(ce, (0x100 + ce.sp) as u16).0;
    assert(spec_read_byte(ce, (0x100 + ce.sp) as u16).0 == cf);
    let sp1 = ((cf.sp + 1) % 0x100) as u8;
    let cg = CpuModel { sp: sp1, ..cf };
    lemma_access_read_quiet(cg, (0x100 + sp1) as u16);
    let r = spec_access_read(cg, (0x100 + sp1) as u16);
    assert(spec_pull(cf) == r);
    assert((0x100 + sp1) as int % 0x800 == 0x100 + (c.sp + 1) % 0x100);
    assert(r.1 == c.bus.ram[(0x100 + (c.sp + 1) % 0x100) as int]);
    assert(spec_pull_poll(cf) == (r.0, r.1));
}

/// One decoded PHP on a quiet bus: the opcode fetch plus the push, three
/// cycles in all.
#[verifier::rlimit(100)]
#[verifier::spinoff_prover]
pub proof fn lemma_decode_php(c: CpuModel)
    requires
        c.wf(),
        !c.bus.halt,
        c.bus.ppu.nmi == 0,
        spec_edge_clear(c.bus.ppu, 9),
        crate::cpu::spec_fetch_byte(c).1 == 0x08,
    ensures
        ({
            let d = crate::cpu_decode::spec_decode(c);
            &&& d.1 is None
            &&& d.0.wf()
            &&& !d.0.bus.halt
            &&& d.0.bus.ppu.nmi == 0
            &&& spec_frame_index(d.0.bus.ppu) == spec_frame_index(c.bus.ppu) + 9
            &&& d.0.cycles == c.cycles + 3
            &&& d.0.status == c.status
            &&& d.0.sp == ((c.sp + 0xFF) % 0x100) as u8
            &&& d.0.bus.ram == c.bus.ram.update((0x100 + c.sp) as int, c.status | 0x30)
        }),
{
    reveal(crate::cpu_decode::spec_exec_op);
    lemma_fetch_quiet(c);
    let f1 = crate::cpu::spec_fetch_byte(c);
    assert(crate::cpu_decode::spec_decode(c).0 == spec_php(f1.0));
    lemma_php_effect(f1.0);
}

/// One decoded PLP on a quiet bus: the opcode fetch plus the pull, four
/// cycles in all.
#[verifier::rlimit(100)]
#[verifier::spinoff_prover]
pub proof fn lemma_decode_plp(c: CpuModel)
    requires
        c.wf(),
        !c.bus.halt,
        c.bus.ppu.nmi == 0,
        spec_edge_clear(c.bus.ppu, 12),
        crate::cpu::spec_fetch_byte(c).1 == 0x28,
    ensures
        ({
            let d = crate::cpu_decode::spec_decode(c);
            &&& d.1 is None
            &&& d.0.status == (c.bus.ram[(0x100 + (c.sp + 1) % 0x100) as int] | 0x20) & 0xEF
            &&& d.0.sp == ((c.sp + 1) % 0x100) as u8
        }),
{
    reveal(crate::cpu_decode::spec_exec_op);
    lemma_fetch_quiet(c);
    let f2 = crate::cpu::spec_fetch_byte(c);
    assert(crate::cpu_decode::spec_decode(c).0 == spec_plp(f2.0));
    lemma_plp_effect(f2.0);
}

/// The PHP/PLP round trip composed through `decode`: when the opcode at
/// PC is PHP and the next one decoded is PLP, the two instructions leave
/// the status byte at (P | 0x20) & 0xEF and the stack pointer where it
/// began.
#[verifier::rlimit(100)]
#[verifier::spinoff_prover]
pub proof fn lemma_decode_php_plp(c: CpuModel)
    requires
        c.wf(),
        !c.bus.halt,
        c.bus.ppu.nmi == 0,
        spec_edge_clear(c.bus.ppu, 21),
        crate::cpu::spec_fetch_byte(c).1 == 0x08,
        crate::cpu::spec_fetch_byte(crate::cpu_decode::spec_decode(c).0).1 == 0x28,
    ensures
        ({
            let after = crate::cpu_decode::spec_decode(crate::cpu_decode::spec_decode(c).0);
            &&& after.1 is None
            &&& after.0.status == (c.status | 0x20) & 0xEF
            &&& after.0.sp == c.sp
        }),
{
    lemma_decode_php(c);
    let d1 = crate::cpu_decode::spec_decode(c).0;
    lemma_decode_plp(d1);
    assert((d1.sp + 1) % 0x100 == c.sp);
    assert(d1.bus.ram[(0x100 + c.sp) as int] == c.status | 0x30);
    let st = c.status;
    assert(((st | 0x30) | 0x20) & 0xEF == (st | 0x20) & 0xEF) by (bit_vector);
}

/// The 256 read/write pairs of an OAM DMA cost exactly two cycles per
/// byte.
pub proof fn lemma_dma_loop_cycles(c: CpuModel, page: u8, i: int)
    requires
        0 <= i <= 256,
    ensures
        spec_dma_loop(c, page, i).cycles == c.cycles + 2 * (256 - i),
    decreases 256 - i,
{
    if i < 256 {
        let r = spec_access_read(c, (page * 0x100 + i) as u16);
        lemma_dma_loop_cycles(spec_access_write(r.0, 0x2004, r.1), page, i + 1);
    }
}

/// A whole OAM DMA costs 513 cycles when it starts on an even CPU cycle
/// and 514 when it starts on an odd one: the alignment read, one more
/// alignment read on odd cycles, then 512 transfer cycles.
pub proof fn lemma_dma_cycles(c: CpuModel)
    ensures
        c.clk % 2 == 0 ==> spec_run_dma(c).cycles == c.cycles + 513,
        c.clk % 2 == 1 ==> spec_run_dma(c).cycles == c.cycles + 514,
{
    reveal(crate::cpu::spec_run_dma);
    let c0 = CpuModel { bus: CpuBusModel { halt: false, ..c.bus }, ..c };
    if c0.clk % 2 == 1 {
        let c1 = spec_access_read(c0, 0x4014).0;
        let c2 = spec_access_read(c1, 0x4014).0;
        lemma_dma_loop_cycles(c2, c.bus.dma_page, 0);
    } else {
        let c2 = spec_access_read(c0, 0x4014).0;
        lemma_dma_loop_cycles(c2, c.bus.dma_page, 0);
    }
}


/// Position of the current dot within the frame, counting 341 dots per
/// scanline.
pub open spec fn spec_frame_index(p: PpuModel) -> int {
    p.state.scanline * 341 + p.state.dots
}

/// The next `n` ticks neither land on the vblank edge at (241, 1) — the
/// one dot that raises the NMI line — nor wrap past the frame's end.
pub open spec fn spec_edge_clear(p: PpuModel, n: int) -> bool {
    &&& spec_frame_index(p) + n <= 261 * 341
    &&& (spec_frame_index(p) + n <= 241 * 341 + 1 || spec_frame_index(p) >= 241 * 341 + 2)
}

/// The sprite scan preserves the size of secondary OAM: it only ever
/// updates bytes of the four-byte entry being filled, all in bounds.
pub proof fn lemma_eval_loop_len(oam: Seq<u8>, start: u8, target: int, h: int, st: EvalState)
    requires
        st.sec.len() == 32,
        st.found <= 8,
    ensures
        spec_eval_loop(oam, start, target, h, st).sec.len() == 32,
    decreases 64 - st.n,
{
    if st.n >= 64 {
    } else if st.found < 8 {
        let y = oam[(start + 4 * st.n) % 256];
        if y <= target && target < y + h {
            let sec = st.sec.update(st.found * 4 as int, y).update(
                st.found * 4 + 1 as int,
                oam[(start + 4 * st.n + 1) % 256],
            ).update(st.found * 4 + 2 as int, oam[(start + 4 * st.n + 2) % 256]).update(
                st.found * 4 + 3 as int,
                oam[(start + 4 * st.n + 3) % 256],
            );
            lemma_eval_loop_len(
                oam,
                start,
                target,
                h,
                EvalState {
                    sec: sec,
                    found: st.found + 1,
                    n: st.n + 1,
                    zero: st.zero || (start == 0 && st.n == 0),
                    ..st
                },
            );
        } else {
            lemma_eval_loop_len(oam, start, target, h, EvalState { n: st.n + 1, ..st });
        }
    } else {
        let y = oam[(start + 4 * st.n + st.m) % 256];
        if y <= target && target < y + h {
        } else {
            lemma_eval_loop_len(
                oam,
                start,
                target,
                h,
                EvalState { n: st.n + 1, m: (st.m + 1) % 4, ..st },
            );
        }
    }
}

/// The background half of a tick is quiet towards the CPU: it never
/// touches the NMI line, the counters, or the frame position.
#[verifier::rlimit(100)]
#[verifier::spinoff_prover]
pub proof fn lemma_tick_bg_quiet(p: PpuModel)
    requires
        p.wf(),
    ensures
        ({
            let q = spec_tick_bg(p);
            &&& q.wf()
            &&& q.nmi == p.nmi
            &&& q.skips == p.skips
            &&& q.state.dots == p.state.dots
            &&& q.state.scanline == p.state.scanline
            &&& q.oam == p.oam
            &&& q.oam_addr == p.oam_addr
            &&& q.mask == p.mask
        }),
{
    reveal(spec_tick_bg);
}

/// The sprite half of a tick, away from the vblank edge at (241, 1), is
/// quiet towards the CPU in the same sense.
#[verifier::rlimit(100)]
#[verifier::spinoff_prover]
pub proof fn lemma_tick_se_quiet(p: PpuModel)
    requires
        p.wf(),
        !(p.state.scanline == 241 && p.state.dots == 1),
    ensures
        ({
            let q = spec_tick_sprites_events(p);
            &&& q.wf()
            &&& q.nmi == p.nmi
            &&& q.skips == p.skips
            &&& q.state.dots == p.state.dots
            &&& q.state.scanline == p.state.scanline
        }),
{
    reveal(spec_tick_sprites_events);
    if crate::ppu_tick::spec_rendering(p) && p.state.scanline <= 239 && p.state.dots == 65 {
        let st0 = EvalState {
            sec: p.secondary_oam,
            found: 0,
            n: 0,
            m: 0,
            overflow: false,
            zero: false,
        };
        lemma_eval_loop_len(
            p.oam,
            p.oam_addr,
            p.state.scanline + 1,
            crate::ppu_tick::spec_sprite_height(p.ctrl),
            st0,
        );
    }
}

/// The position advance before the frame's last scanline: one dot forward,
/// no skip, nothing else of the CPU-facing state moved.
pub proof fn lemma_advance_quiet(p: PpuModel)
    requires
        p.wf(),
        spec_frame_index(p) < 261 * 341,
    ensures
        ({
            let q = spec_advance(p);
            &&& q.wf()
            &&& q.nmi == p.nmi
            &&& q.skips == p.skips
            &&& spec_frame_index(q) == spec_frame_index(p) + 1
        }),
{
}

/// A whole PPU tick away from the vblank edge at (241, 1) and the frame
/// wrap: the NMI line keeps its value, nothing is skipped, and the frame
/// position moves exactly one dot.
pub proof fn lemma_tick_quiet(p: PpuModel)
    requires
        p.wf(),
        spec_edge_clear(p, 1),
    ensures
        ({
            let q = spec_ppu_tick(p);
            &&& q.wf()
            &&& q.nmi == p.nmi
            &&& q.skips == p.skips
            &&& spec_frame_index(q) == spec_frame_index(p) + 1
        }),
{
    reveal(spec_ppu_tick);
    lemma_tick_bg_quiet(p);
    let b = spec_tick_bg(p);
    lemma_tick_se_quiet(b);
    let e = spec_tick_sprites_events(b);
    lemma_advance_quiet(e);
}

/// A read access while the PPU stays clear of the vblank edge: one cycle,
/// three dots, the NMI line and the CPU registers, RAM and ROM untouched;
/// a RAM address answers from RAM and a ROM address from PRG ROM.
pub proof fn lemma_access_read_quiet(c: CpuModel, addr: u16)
    requires
        c.wf(),
        spec_edge_clear(c.bus.ppu, 3),
    ensures
        ({
            let r = spec_access_read(c, addr);
            &&& r.0.wf()
            &&& r.0.bus.ppu.nmi == c.bus.ppu.nmi
            &&& spec_frame_index(r.0.bus.ppu) == spec_frame_index(c.bus.ppu) + 3
            &&& r.0.bus.ppu.skips == c.bus.ppu.skips
            &&& r.0.cycles == c.cycles + 1
            &&& r.0.bus.halt == c.bus.halt
            &&& r.0.bus.ram == c.bus.ram
            &&& r.0.bus.prg == c.bus.prg
            &&& r.0.a == c.a
            &&& r.0.x == c.x
            &&& r.0.y == c.y
            &&& r.0.pc == c.pc
            &&& r.0.sp == c.sp
            &&& r.0.status == c.status
            &&& (addr < 0x2000 ==> r.1 == c.bus.ram[addr as int % 0x800])
            &&& (addr >= 0x8000 ==> r.1 == spec_prg_read(c.bus, addr))
        }),
{
    reveal(spec_bus_read8);
    let p0 = spec_bus_read8(
        CpuBusModel {
            ..c.bus
        },
        addr,
    ).0.ppu;
    lemma_tick_quiet(p0);
    lemma_tick_quiet(spec_ppu_tick(p0));
    lemma_tick_quiet(spec_ppu_tick(spec_ppu_tick(p0)));
}

/// A write access to an address below the PPU register window while the
/// PPU stays clear of the vblank edge: the byte lands in RAM at the
/// mirrored index, and the same quiet facts hold.
pub proof fn lemma_access_write_quiet(c: CpuModel, addr: u16, data: u8)
    requires
        c.wf(),
        addr < 0x2000,
        spec_edge_clear(c.bus.ppu, 3),
    ensures
        ({
            let r = spec_access_write(c, addr, data);
            &&& r.wf()
            &&& r.bus.ppu.nmi == c.bus.ppu.nmi
            &&& spec_frame_index(r.bus.ppu) == spec_frame_index(c.bus.ppu) + 3
            &&& r.bus.ppu.skips == c.bus.ppu.skips
            &&& r.cycles == c.cycles + 1
            &&& r.bus.halt == c.bus.halt
            &&& r.bus.ram == c.bus.ram.update(addr as int % 0x800, data)
            &&& r.bus.prg == c.bus.prg
            &&& r.a == c.a
            &&& r.x == c.x
            &&& r.y == c.y
            &&& r.pc == c.pc
            &&& r.sp == c.sp
            &&& r.status == c.status
        }),
{
    reveal(spec_bus_write8);
    let p0 = spec_bus_write8(c.bus, addr, data).ppu;
    lemma_tick_quiet(p0);
    lemma_tick_quiet(spec_ppu_tick(p0));
    lemma_tick_quiet(spec_ppu_tick(spec_ppu_tick(p0)));
}

/// Pushing the status byte with PHP and pulling it back with PLP yields
/// (P | 0x20) & 0xEF, with the stack pointer back where it began: the push
/// sets B and bit 5 in the copy it writes to the stack page, and the pull
/// reads the same byte back, discarding B and forcing bit 5. Holds on a
/// quiet bus: no DMA or NMI pending, and the five accesses' fifteen dots
/// clear of the vblank edge.
#[verifier::rlimit(100)]
#[verifier::spinoff_prover]
pub proof fn lemma_php_plp_round_trip(c: CpuModel)
    requires
        c.wf(),
        !c.bus.halt,
        c.bus.ppu.nmi == 0,
        spec_edge_clear(c.bus.ppu, 15),
    ensures
        spec_plp(spec_php(c)).status == (c.status | 0x20) & 0xEF,
        spec_plp(spec_php(c)).sp == c.sp,
{
    // PHP: the dummy read at PC, then the push of P | 0x30.
    lemma_access_read_quiet(c, c.pc);
    let c1 = spec_access_read(c, c.pc).0;
    assert(spec_read_byte(c, c.pc).0 == c1);
    let pushed = c1.status | 0x30;
    let stack_addr = (0x100 + c1.sp) as u16;
    lemma_access_write_quiet(c1, stack_addr, pushed);
    let c2w = spec_access_write(c1, stack_addr, pushed);
    let c2 = CpuModel { sp: ((c1.sp + 0xFF) % 0x100) as u8, ..c2w };
    assert(spec_push(c1, pushed) == c2);
    assert(spec_push_poll(c1, pushed) == c2);
    assert(spec_php(c) == c2);
    // PLP: two dummy reads, then the pull of the same byte.
    lemma_access_read_quiet(c2, c2.pc);
    let c3 = spec_access_read(c2, c2.pc).0;
    assert(spec_read_byte(c2, c2.pc).0 == c3);
    lemma_access_read_quiet(c3, (0x100 + c3.sp) as u16);
    let c4 = spec_access_read(c3, (0x100 + c3.sp) as u16).0;
    assert(spec_read_byte(c3, (0x100 + c3.sp) as u16).0 == c4);
    let sp1 = ((c4.sp + 1) % 0x100) as u8;
    assert(sp1 == c1.sp);
    let c5 = CpuModel { sp: sp1, ..c4 };
    lemma_access_read_quiet(c5, (0x100 + sp1) as u16);
    let r = spec_access_read(c5, (0x100 + sp1) as u16);
    assert(spec_pull(c4) == r);
    assert(c4.bus.ram == c.bus.ram.update(stack_addr as int % 0x800, pushed));
    assert(stack_addr as int % 0x800 == 0x100 + c1.sp);
    assert(r.1 == pushed);
    assert(spec_pull_poll(c4) == (r.0, r.1));
    assert(spec_plp(c2).status == (pushed | 0x20) & 0xEF);
    assert(spec_plp(c2).sp == c.sp);
    let st = c.status;
    assert(((st | 0x30) | 0x20) & 0xEF == (st | 0x20) & 0xEF) by (bit_vector);
}

/// A pending NMI's service, away from the vblank edge: seven cycles; two
/// dummy reads; the interrupted PC's bytes and then the status with B
/// clear and bit 5 set pushed at 0x0100 + SP stepping down; interrupts
/// disabled; PC loaded from the 0xFFFA/0xFFFB vector in PRG ROM, which
/// nothing in the service touches.
#[verifier::rlimit(100)]
#[verifier::spinoff_prover]
pub proof fn lemma_service_nmi_quiet(c: CpuModel)
    requires
        c.wf(),
        c.bus.ppu.nmi == 1,
        spec_edge_clear(c.bus.ppu, 21),
    ensures
        ({
            let q = spec_service_nmi(c);
            &&& q.wf()
            &&& q.status == c.status | 0x04
            &&& q.sp == ((c.sp + 0xFD) % 0x100) as u8
            &&& q.pc == spec_prg_read(c.bus, 0xFFFB) * 0x100 + spec_prg_read(c.bus, 0xFFFA)
            &&& q.bus.ppu.nmi == 0
            &&& q.cycles == c.cycles + 7
            &&& q.bus.ram =~= c.bus.ram.update(
                (0x100 + c.sp) as int,
                (c.pc / 0x100) as u8,
            ).update((0x100 + (c.sp + 0xFF) % 0x100) as int, (c.pc % 0x100) as u8).update(
                (0x100 + (c.sp + 0xFE) % 0x100) as int,
                (c.status | 0x20) & 0xEF,
            )
        }),
{
    reveal(spec_service_nmi);
    let c0s = CpuModel { bus: CpuBusModel { ppu: spec_clear_nmi(c.bus.ppu), ..c.bus }, ..c };
    lemma_access_read_quiet(c0s, c0s.pc);
    let s1 = spec_access_read(c0s, c0s.pc).0;
    lemma_access_read_quiet(s1, s1.pc);
    let s2 = spec_access_read(s1, s1.pc).0;
    assert(s2.pc == c.pc && s2.sp == c.sp && s2.status == c.status);
    lemma_access_write_quiet(s2, (0x100 + s2.sp) as u16, (s2.pc / 0x100) as u8);
    let s3w = spec_access_write(s2, (0x100 + s2.sp) as u16, (s2.pc / 0x100) as u8);
    let s3 = CpuModel { sp: ((s2.sp + 0xFF) % 0x100) as u8, ..s3w };
    assert(spec_push(s2, (s2.pc / 0x100) as u8) == s3);
    lemma_access_write_quiet(s3, (0x100 + s3.sp) as u16, (s3.pc % 0x100) as u8);
    let s4w = spec_access_write(s3, (0x100 + s3.sp) as u16, (s3.pc % 0x100) as u8);
    let s4 = CpuModel { sp: ((s3.sp + 0xFF) % 0x100) as u8, ..s4w };
    assert(spec_push(s3, (s3.pc % 0x100) as u8) == s4);
    lemma_access_write_quiet(s4, (0x100 + s4.sp) as u16, (s4.status | 0x20) & 0xEF);
    let s5w = spec_access_write(s4, (0x100 + s4.sp) as u16, (s4.status | 0x20) & 0xEF);
    let s5 = CpuModel { sp: ((s4.sp + 0xFF) % 0x100) as u8, ..s5w };
    assert(spec_push(s4, (s4.status | 0x20) & 0xEF) == s5);
    lemma_access_read_quiet(s5, 0xFFFA);
    let r6 = spec_access_read(s5, 0xFFFA);
    lemma_access_read_quiet(r6.0, 0xFFFB);
    let r7 = spec_access_read(r6.0, 0xFFFB);
    assert(s5.bus.prg == c.bus.prg && r6.0.bus.prg == c.bus.prg);
    assert(r6.1 == spec_prg_read(c.bus, 0xFFFA));
    assert(r7.1 == spec_prg_read(c.bus, 0xFFFB));
    assert(s3.sp == (c.sp + 0xFF) % 0x100);
    assert(s4.sp == (c.sp + 0xFE) % 0x100) by {
        assert(s3.sp == (c.sp + 0xFF) % 0x100);
    };
    assert(s5.sp == (c.sp + 0xFD) % 0x100) by {
        assert(s4.sp == (c.sp + 0xFE) % 0x100);
    };
    assert((0x100 + s2.sp) as int % 0x800 == 0x100 + c.sp);
    assert((0x100 + s3.sp) as int % 0x800 == 0x100 + (c.sp + 0xFF) % 0x100);
    assert((0x100 + s4.sp) as int % 0x800 == 0x100 + (c.sp + 0xFE) % 0x100);
}

/// Enabling PPUCTRL bit 7 while the vblank flag is already set raises an
/// NMI within that same write access, and the sample at the access's end
/// consumes it: the interrupted PC's bytes and then the status with B
/// clear and bit 5 set are pushed, interrupts are disabled, and PC loads
/// from the 0xFFFA/0xFFFB vector. Eight cycles in all: the write, two
/// dummy reads, three pushes, two vector reads. Stated for positions whose
/// next 24 dots stay clear of the vblank edge (where a second NMI would be
/// raised) and of the frame wrap.
#[verifier::rlimit(100)]
#[verifier::spinoff_prover]
pub proof fn lemma_vblank_ctrl_write_nmi(c: CpuModel, addr: u16, data: u8)
    requires
        c.wf(),
        0x2000 <= addr < 0x4000,
        addr % 8 == 0,
        data & 0x80 != 0,
        c.bus.ppu.status & 0x80 != 0,
        c.bus.ppu.ctrl & 0x80 == 0,
        c.bus.ppu.nmi == 0,
        spec_edge_clear(c.bus.ppu, 24),
    ensures
        ({
            let q = spec_write_byte(c, addr, data);
            &&& q.status == c.status | 0x04
            &&& q.sp == ((c.sp + 0xFD) % 0x100) as u8
            &&& q.pc == spec_prg_read(c.bus, 0xFFFB) * 0x100 + spec_prg_read(c.bus, 0xFFFA)
            &&& q.bus.ppu.nmi == 0
            &&& q.cycles == c.cycles + 8
            &&& q.bus.ram =~= c.bus.ram.update(
                (0x100 + c.sp) as int,
                (c.pc / 0x100) as u8,
            ).update((0x100 + (c.sp + 0xFF) % 0x100) as int, (c.pc % 0x100) as u8).update(
                (0x100 + (c.sp + 0xFE) % 0x100) as int,
                (c.status | 0x20) & 0xEF,
            )
        }),
{
    // The write itself: PPUCTRL takes the byte and raises the pending NMI;
    // the three dots of the access keep the line raised and touch nothing
    // the service reads.
    reveal(spec_bus_write8);
    let pw = spec_bus_write8(c.bus, addr, data).ppu;
    assert(pw.nmi == 1);
    lemma_tick_quiet(pw);
    lemma_tick_quiet(crate::ppu_tick::spec_ppu_tick(pw));
    lemma_tick_quiet(crate::ppu_tick::spec_ppu_tick(crate::ppu_tick::spec_ppu_tick(pw)));
    let c1 = spec_access_write(c, addr, data);
    assert(c1.bus.ppu.nmi == 1);
    assert(c1.bus.ram == c.bus.ram && c1.bus.prg == c.bus.prg);
    assert(c1.pc == c.pc && c1.sp == c.sp && c1.status == c.status);
    assert(c1.cycles == c.cycles + 1);
    assert(spec_frame_index(c1.bus.ppu) == spec_frame_index(c.bus.ppu) + 3);
    // The end-of-access sample consumes it and the service runs.
    lemma_service_nmi_quiet(c1);
    assert(spec_write_byte(c, addr, data) == spec_service_nmi(c1));
    assert(spec_prg_read(c1.bus, 0xFFFA) == spec_prg_read(c.bus, 0xFFFA));
    assert(spec_prg_read(c1.bus, 0xFFFB) == spec_prg_read(c.bus, 0xFFFB));
}

/// The cycle cost of a branch after its opcode fetch, on a quiet bus: one
/// cycle for the displacement fetch, one more when the branch is taken,
/// and a third when the target sits on another page — so with the opcode
/// fetch a branch costs 2, 3 or 4 cycles.
#[verifier::rlimit(100)]
#[verifier::spinoff_prover]
pub proof fn lemma_branch_cycles(c: CpuModel, aaa: u8)
    requires
        c.wf(),
        !c.bus.halt,
        c.bus.ppu.nmi == 0,
        spec_edge_clear(c.bus.ppu, 9),
    ensures
        ({
            let f = crate::cpu::spec_fetch_byte(c);
            let taken = spec_branch_cond(f.0.status, aaa);
            let target = if f.1 < 0x80 {
                ((f.0.pc + f.1) % 0x10000) as u16
            } else {
                ((f.0.pc + f.1 + 0xFF00) % 0x10000) as u16
            };
            let cross = target / 0x100 != f.0.pc / 0x100;
            &&& (!taken ==> spec_branch(c, aaa).cycles == c.cycles + 1)
            &&& (taken && !cross ==> spec_branch(c, aaa).cycles == c.cycles + 2)
            &&& (taken && cross ==> spec_branch(c, aaa).cycles == c.cycles + 3)
        }),
{
    lemma_access_read_quiet(c, c.pc);
    let a1 = spec_access_read(c, c.pc);
    let c1 = CpuModel { pc: ((a1.0.pc + 1) % 0x10000) as u16, ..a1.0 };
    assert(crate::cpu::spec_fetch_byte(c) == (c1, a1.1));
    if spec_branch_cond(c1.status, aaa) {
        lemma_access_read_quiet(c1, c1.pc);
        let c2 = spec_access_read(c1, c1.pc).0;
        assert(spec_read_byte(c1, c1.pc).0 == c2);
        let disp = a1.1;
        let target = if disp < 0x80 {
            ((c2.pc + disp) % 0x10000) as u16
        } else {
            ((c2.pc + disp + 0xFF00) % 0x10000) as u16
        };
        if target / 0x100 != c2.pc / 0x100 {
            lemma_access_read_quiet(c2, ((c2.pc / 0x100) * 0x100 + target % 0x100) as u16);
            let c3 = spec_access_read(c2, ((c2.pc / 0x100) * 0x100 + target % 0x100) as u16).0;
            assert(spec_read_byte(c2, ((c2.pc / 0x100) * 0x100 + target % 0x100) as u16).0 == c3);
        }
    }
}



/// With rendering disabled, the sprite half of a tick does no sprite work
/// at all: only the status events of the dot run, so OAM, OAMADDR and the
/// mask are untouched.
#[verifier::rlimit(100)]
#[verifier::spinoff_prover]
pub proof fn lemma_tick_se_norender(p: PpuModel)
    requires
        p.wf(),
        p.mask & 0x18 == 0,
    ensures
        ({
            let q = spec_tick_sprites_events(p);
            &&& q.wf()
            &&& q.oam == p.oam
            &&& q.oam_addr == p.oam_addr
            &&& q.mask == p.mask
        }),
{
    reveal(spec_tick_sprites_events);
}

/// With rendering disabled, a whole PPU tick leaves OAM, OAMADDR and the
/// mask untouched — sprite evaluation and its OAMADDR reset never run.
pub proof fn lemma_tick_norender(p: PpuModel)
    requires
        p.wf(),
        p.mask & 0x18 == 0,
    ensures
        ({
            let q = spec_ppu_tick(p);
            &&& q.wf()
            &&& q.oam == p.oam
            &&& q.oam_addr == p.oam_addr
            &&& q.mask == p.mask
        }),
{
    reveal(spec_ppu_tick);
    lemma_tick_bg_quiet(p);
    let b = spec_tick_bg(p);
    lemma_tick_se_norender(b);
}

/// A read access with rendering disabled leaves OAM, OAMADDR, the mask and
/// RAM untouched, and a RAM address answers from RAM.
#[verifier::rlimit(100)]
#[verifier::spinoff_prover]
pub proof fn lemma_access_read_norender(c: CpuModel, addr: u16)
    requires
        c.wf(),
        c.bus.ppu.mask & 0x18 == 0,
    ensures
        ({
            let r = spec_access_read(c, addr);
            &&& r.0.wf()
            &&& r.0.bus.ppu.oam == c.bus.ppu.oam
            &&& r.0.bus.ppu.oam_addr == c.bus.ppu.oam_addr
            &&& r.0.bus.ppu.mask == c.bus.ppu.mask
            &&& r.0.bus.ram == c.bus.ram
            &&& (addr < 0x2000 ==> r.1 == c.bus.ram[addr as int % 0x800])
        }),
{
    reveal(spec_bus_read8);
    let p0 = spec_bus_read8(c.bus, addr).0.ppu;
    lemma_tick_norender(p0);
    lemma_tick_norender(spec_ppu_tick(p0));
    lemma_tick_norender(spec_ppu_tick(spec_ppu_tick(p0)));
}

/// One read/write pair of the OAM DMA with rendering disabled: the RAM
/// byte of the source page lands at the current OAMADDR, which steps with
/// 8-bit wraparound, and nothing else of OAM or RAM moves.
#[verifier::rlimit(100)]
#[verifier::spinoff_prover]
proof fn lemma_dma_step(c: CpuModel, page: u8, i: int)
    requires
        c.wf(),
        c.bus.ppu.mask & 0x18 == 0,
        page < 0x20,
        0 <= i < 256,
    ensures
        ({
            let rv = spec_access_read(c, (page * 0x100 + i) as u16);
            let cw = spec_access_write(rv.0, 0x2004, rv.1);
            &&& cw.wf()
            &&& cw.bus.ram == c.bus.ram
            &&& cw.bus.ppu.mask == c.bus.ppu.mask
            &&& cw.bus.ppu.oam == c.bus.ppu.oam.update(
                c.bus.ppu.oam_addr as int,
                c.bus.ram[((page * 0x100 + i) % 0x800) as int],
            )
            &&& cw.bus.ppu.oam_addr == (c.bus.ppu.oam_addr + 1) % 0x100
        }),
{
    reveal(spec_bus_write8);
    lemma_access_read_norender(c, (page * 0x100 + i) as u16);
    let rv = spec_access_read(c, (page * 0x100 + i) as u16);
    let pw = spec_bus_write8(rv.0.bus, 0x2004, rv.1).ppu;
    lemma_tick_norender(pw);
    lemma_tick_norender(spec_ppu_tick(pw));
    lemma_tick_norender(spec_ppu_tick(spec_ppu_tick(pw)));
}

/// The OAM DMA transfer loop from byte `i` on, with rendering disabled and
/// the source page in RAM: the bytes still to copy land at consecutive OAM
/// indices (with 8-bit wraparound from the current OAMADDR), every other
/// OAM byte keeps its value, and RAM is untouched.
#[verifier::rlimit(100)]
#[verifier::spinoff_prover]
pub proof fn lemma_dma_loop_contents(c: CpuModel, page: u8, i: int)
    requires
        c.wf(),
        c.bus.ppu.mask & 0x18 == 0,
        page < 0x20,
        0 <= i <= 256,
    ensures
        ({
            let q = spec_dma_loop(c, page, i);
            &&& q.wf()
            &&& q.bus.ram == c.bus.ram
            &&& q.bus.ppu.oam =~= Seq::new(
                256,
                |k: int|
                    {
                        let d = (k + 512 - c.bus.ppu.oam_addr) % 256;
                        if d < 256 - i {
                            c.bus.ram[((page * 0x100 + i + d) % 0x800) as int]
                        } else {
                            c.bus.ppu.oam[k]
                        }
                    },
            )
        }),
    decreases 256 - i,
{
    if i < 256 {
        let a = c.bus.ppu.oam_addr;
        let rv = spec_access_read(c, (page * 0x100 + i) as u16);
        let cw = spec_access_write(rv.0, 0x2004, rv.1);
        lemma_dma_step(c, page, i);
        lemma_dma_loop_contents(cw, page, i + 1);
        assert(spec_dma_loop(c, page, i).bus.ppu.oam =~= Seq::new(
            256,
            |k: int|
                {
                    let d = (k + 512 - c.bus.ppu.oam_addr) % 256;
                    if d < 256 - i {
                        c.bus.ram[((page * 0x100 + i + d) % 0x800) as int]
                    } else {
                        c.bus.ppu.oam[k]
                    }
                },
        )) by {
            let q = spec_dma_loop(c, page, i);
            assert forall|k: int| 0 <= k < 256 implies q.bus.ppu.oam[k] == ({
                let d = (k + 512 - a) % 256;
                if d < 256 - i {
                    c.bus.ram[((page * 0x100 + i + d) % 0x800) as int]
                } else {
                    c.bus.ppu.oam[k]
                }
            }) by {
                let d = (k + 512 - a) % 256;
                let d2 = (k + 512 - ((a + 1) % 0x100)) % 256;
                assert(d2 == (d + 255) % 256);
                if d == 0 {
                    assert(k == a);
                    assert(d2 == 255);
                } else {
                    assert(d2 == d - 1);
                }
            }
        };
    }
}

/// A whole OAM DMA with rendering disabled and a RAM source page: every
/// OAM byte `k` ends up holding source byte (k - OAMADDR) mod 256 of the
/// page — equivalently, byte `j` of the page lands at OAM index
/// OAMADDR + j (mod 256).
#[verifier::rlimit(100)]
#[verifier::spinoff_prover]
pub proof fn lemma_dma_copies_page(c: CpuModel)
    requires
        c.wf(),
        c.bus.ppu.mask & 0x18 == 0,
        c.bus.dma_page < 0x20,
    ensures
        ({
            let q = spec_run_dma(c);
            &&& q.wf()
            &&& forall|k: int|
                0 <= k < 256 ==> #[trigger] q.bus.ppu.oam[k] == c.bus.ram[((c.bus.dma_page * 0x100
                    + ((k + 512 - c.bus.ppu.oam_addr) % 256)) % 0x800) as int]
        }),
{
    reveal(crate::cpu::spec_run_dma);
    let c0 = CpuModel { bus: CpuBusModel { halt: false, ..c.bus }, ..c };
    let c1 = if c0.clk % 2 == 1 {
        lemma_access_read_norender(c0, 0x4014);
        spec_access_read(c0, 0x4014).0
    } else {
        c0
    };
    lemma_access_read_norender(c1, 0x4014);
    let c2 = spec_access_read(c1, 0x4014).0;
    lemma_dma_loop_contents(c2, c.bus.dma_page, 0);
}


} // verus!
