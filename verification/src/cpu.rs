//! The 6502 CPU core: registers, the cycle counters, and the access layer
//! that gives the machine its timing — every byte read or written on the
//! bus costs one CPU cycle and advances the PPU by exactly three dots,
//! after which the CPU samples the NMI line. OAM DMA halts the CPU on entry
//! to a read and copies a 256-byte page into OAM at two cycles per byte.
//! The instruction set itself lives in `cpu_instr` and `cpu_decode`.

use vstd::prelude::*;
use crate::cpu_bus::{CPUBus, CpuBusModel, spec_bus_read8, spec_bus_write8, spec_prg_read};
use crate::ppu::{PPU, PpuModel};
use crate::ppu_tick::spec_ppu_tick;

verus! {

/// Mathematical state of the CPU: its registers, the cycle counters, and
/// the bus (which carries the PPU).
#[verifier::ext_equal]
pub ghost struct CpuModel {
    pub a: u8,
    pub x: u8,
    pub y: u8,
    pub pc: u16,
    pub sp: u8,
    pub status: u8,
    pub clk: u64,
    pub cycles: nat,
    pub bus: CpuBusModel,
}

impl CpuModel {
    /// Structural invariant: the bus (and PPU under it) are well formed.
    pub open spec fn wf(self) -> bool {
        self.bus.wf()
    }
}

/// The PPU advanced by three dots, as every CPU bus access demands.
pub open spec fn spec_tick3(c: CpuModel) -> CpuModel {
    CpuModel {
        bus: CpuBusModel {
            ppu: spec_ppu_tick(spec_ppu_tick(spec_ppu_tick(c.bus.ppu))),
            ..c.bus
        },
        ..c
    }
}

/// One read access: the cycle counters step, the bus read happens with its
/// register side effects, and the PPU runs its three dots.
pub open spec fn spec_access_read(c: CpuModel, addr: u16) -> (CpuModel, u8) {
    let c1 = CpuModel {
        clk: ((c.clk + 1) % 0x1_0000_0000_0000_0000) as u64,
        cycles: (c.cycles + 1) as nat,
        ..c
    };
    let br = spec_bus_read8(c1.bus, addr);
    (spec_tick3(CpuModel { bus: br.0, ..c1 }), br.1)
}

/// One write access: the cycle counters step, the bus write happens, and
/// the PPU runs its three dots.
pub open spec fn spec_access_write(c: CpuModel, addr: u16, data: u8) -> CpuModel {
    let c1 = CpuModel {
        clk: ((c.clk + 1) % 0x1_0000_0000_0000_0000) as u64,
        cycles: (c.cycles + 1) as nat,
        ..c
    };
    spec_tick3(CpuModel { bus: spec_bus_write8(c1.bus, addr, data), ..c1 })
}

/// The raw stack push: one write at 0x0100 + SP, then SP steps down with
/// 8-bit wraparound. This is the building block the interrupt sequence
/// uses, which does not re-sample the NMI line mid-service.
pub open spec fn spec_push(c: CpuModel, data: u8) -> CpuModel {
    let c1 = spec_access_write(c, (0x100 + c.sp) as u16, data);
    CpuModel { sp: ((c.sp + 0xFF) % 0x100) as u8, ..c1 }
}

/// The raw stack pull: SP steps up with 8-bit wraparound, then one read at
/// 0x0100 + SP.
pub open spec fn spec_pull(c: CpuModel) -> (CpuModel, u8) {
    let sp1 = ((c.sp + 1) % 0x100) as u8;
    spec_access_read(CpuModel { sp: sp1, ..c }, (0x100 + sp1) as u16)
}

/// A stack push as an instruction performs it: the raw push, then the
/// NMI-line sample that ends every CPU access.
pub open spec fn spec_push_poll(c: CpuModel, data: u8) -> CpuModel {
    spec_poll_nmi(spec_push(c, data))
}

/// A stack pull as an instruction performs it: the raw pull, then the
/// NMI-line sample that ends every CPU access.
pub open spec fn spec_pull_poll(c: CpuModel) -> (CpuModel, u8) {
    let r = spec_pull(c);
    (spec_poll_nmi(r.0), r.1)
}

/// Servicing an NMI, seven cycles: two dummy reads at PC (which does not
/// move), the three pushes — PCH and PCL of the interrupted PC, then P
/// with B clear and bit 5 set — and the two vector reads at
/// 0xFFFA/0xFFFB. The interrupt-disable flag is set.
#[verifier::opaque]
pub open spec fn spec_service_nmi(c: CpuModel) -> CpuModel {
    let c0 = CpuModel { bus: CpuBusModel { ppu: spec_clear_nmi(c.bus.ppu), ..c.bus }, ..c };
    let c1 = spec_access_read(c0, c0.pc).0;
    let c2 = spec_access_read(c1, c1.pc).0;
    let c3 = spec_push(c2, (c2.pc / 0x100) as u8);
    let c4 = spec_push(c3, (c3.pc % 0x100) as u8);
    let c5 = spec_push(c4, (c4.status | 0x20) & 0xEF);
    let r6 = spec_access_read(c5, 0xFFFA);
    let r7 = spec_access_read(r6.0, 0xFFFB);
    CpuModel {
        pc: (r7.1 * 0x100 + r6.1) as u16,
        status: r7.0.status | 0x04,
        ..r7.0
    }
}

/// The PPU with its NMI-pending line lowered.
pub open spec fn spec_clear_nmi(p: PpuModel) -> PpuModel {
    PpuModel { nmi: 0, ..p }
}

/// Sampling the NMI line after a read: a pending NMI is consumed and
/// serviced, otherwise nothing happens.
pub open spec fn spec_poll_nmi(c: CpuModel) -> CpuModel {
    if c.bus.ppu.nmi == 1 {
        spec_service_nmi(c)
    } else {
        c
    }
}

/// The OAM DMA transfer from byte `i` on: each remaining byte of the page
/// costs one read and one write to OAMDATA, two cycles per byte.
pub open spec fn spec_dma_loop(c: CpuModel, page: u8, i: int) -> CpuModel
    decreases 256 - i,
{
    if i < 0 || i >= 256 {
        c
    } else {
        let r = spec_access_read(c, (page * 0x100 + i) as u16);
        spec_dma_loop(spec_access_write(r.0, 0x2004, r.1), page, i + 1)
    }
}

/// A whole OAM DMA: the halt flag drops, an alignment cycle (plus one more
/// when the cycle count is odd) passes as a no-op read, then the 256
/// read/write pairs run — 513 cycles from an even cycle, 514 from an odd
/// one.
#[verifier::opaque]
pub open spec fn spec_run_dma(c: CpuModel) -> CpuModel {
    let c0 = CpuModel { bus: CpuBusModel { halt: false, ..c.bus }, ..c };
    let c1 = if c0.clk % 2 == 1 {
        spec_access_read(c0, 0x4014).0
    } else {
        c0
    };
    let c2 = spec_access_read(c1, 0x4014).0;
    spec_dma_loop(c2, c.bus.dma_page, 0)
}

/// A CPU read: a pending DMA halt runs first, then the read access, then
/// the NMI line is sampled.
pub open spec fn spec_read_byte(c: CpuModel, addr: u16) -> (CpuModel, u8) {
    let c0 = if c.bus.halt {
        spec_run_dma(c)
    } else {
        c
    };
    let r = spec_access_read(c0, addr);
    (spec_poll_nmi(r.0), r.1)
}

/// A CPU write: one write access, then the NMI-line sample every access
/// ends with — so an NMI a write itself raises (a PPUCTRL write during
/// vblank) is consumed within the same access.
pub open spec fn spec_write_byte(c: CpuModel, addr: u16, data: u8) -> CpuModel {
    spec_poll_nmi(spec_access_write(c, addr, data))
}

/// An opcode or operand fetch: a read at PC, PC steps, then the NMI line
/// is sampled.
pub open spec fn spec_fetch_byte(c: CpuModel) -> (CpuModel, u8) {
    let c0 = if c.bus.halt {
        spec_run_dma(c)
    } else {
        c
    };
    let r = spec_access_read(c0, c0.pc);
    let c2 = CpuModel { pc: ((r.0.pc + 1) % 0x10000) as u16, ..r.0 };
    (spec_poll_nmi(c2), r.1)
}

/// Two fetches, little endian.
pub open spec fn spec_fetch_word(c: CpuModel) -> (CpuModel, u16) {
    let lo = spec_fetch_byte(c);
    let hi = spec_fetch_byte(lo.0);
    (hi.0, (hi.1 * 0x100 + lo.1) as u16)
}

/// The clock coupling between the two chips: the PPU has run exactly
/// three dots for every CPU cycle, and the dot positions it has passed are
/// its executed ticks plus the dots the odd-frame skip jumped over (so
/// ticks are positions minus skips). It holds of a freshly built machine
/// and every operation of the CPU keeps it.
pub open spec fn spec_clock_ok(c: CpuModel) -> bool {
    &&& c.bus.ppu.ticks == 3 * c.cycles
    &&& c.bus.ppu.dot_positions == c.bus.ppu.ticks + c.bus.ppu.skips
}

/// The status byte with its zero and negative flags set from `val`.
pub open spec fn spec_zn(status: u8, val: u8) -> u8 {
    let s1 = if val == 0 {
        status | 0x02
    } else {
        status & 0xFD
    };
    if val & 0x80 != 0 {
        s1 | 0x80
    } else {
        s1 & 0x7F
    }
}

/// The status byte after a compare of `reg` with `operand`: carry when the
/// register is not below the operand, zero on equality, negative from the
/// difference's top bit.
pub open spec fn spec_cmp(status: u8, reg: u8, operand: u8) -> u8 {
    let s1 = if reg >= operand {
        status | 0x01
    } else {
        status & 0xFE
    };
    let s2 = if reg == operand {
        s1 | 0x02
    } else {
        s1 & 0xFD
    };
    if ((reg + 0x100 - operand) % 0x100) as u8 & 0x80 != 0 {
        s2 | 0x80
    } else {
        s2 & 0x7F
    }
}

/// The CPU.
pub struct CPU {
    pub cpu_clk: u64,
    pub cycles: Ghost<nat>,
    pub accumulator: u8,
    pub x: u8,
    pub y: u8,
    pub pc: u16,
    pub sp: u8,
    pub status: u8,
    pub cpu_bus: CPUBus,
}

impl View for CPU {
    type V = CpuModel;

    open spec fn view(&self) -> CpuModel {
        CpuModel {
            a: self.accumulator,
            x: self.x,
            y: self.y,
            pc: self.pc,
            sp: self.sp,
            status: self.status,
            clk: self.cpu_clk,
            cycles: self.cycles@,
            bus: self.cpu_bus@,
        }
    }
}

impl CPU {
    /// Powers on the CPU around a cartridge's PRG ROM and a PPU: PC comes
    /// from the reset vector at 0xFFFC/0xFFFD (through the PRG mirroring),
    /// SP starts at 0xFD, and the status byte at 0x24.
    pub fn init_cpu(prg_rom: Vec<u8>, ppu: PPU) -> (r: Self)
        requires
            ppu@.wf(),
        ensures
            r@.wf(),
            r@.a == 0 && r@.x == 0 && r@.y == 0,
            r@.sp == 0xFD,
            r@.status == 0x24,
            r@.clk == 0 && r@.cycles == 0,
            r@.bus.ram == Seq::new(0x800, |i: int| 0u8),
            r@.bus.prg == prg_rom@,
            !r@.bus.halt,
            r@.bus.open_bus == 0 && r@.bus.ppu_latch == 0 && r@.bus.dma_page == 0,
            r@.bus.ppu == ppu@,
            r@.pc == spec_prg_read(r@.bus, 0xFFFD) * 0x100 + spec_prg_read(r@.bus, 0xFFFC),
            ppu@.ticks == 0 && ppu@.dot_positions == 0 && ppu@.skips == 0 ==> spec_clock_ok(r@),
    {
        let cpu_bus = CPUBus::new(prg_rom, ppu);
        let lo = cpu_bus.read_prg_rom(&0xFFFC);
        let hi = cpu_bus.read_prg_rom(&0xFFFD);
        CPU {
            cpu_clk: 0,
            cycles: Ghost(0nat),
            accumulator: 0,
            x: 0,
            y: 0,
            pc: (hi as u16) * 0x100 + lo as u16,
            sp: 0xFD,
            status: 0b0010_0100,
            cpu_bus,
        }
    }

    /// Advances the PPU by the three dots one CPU cycle owes it.
    fn tick_ppu_3(&mut self)
        requires
            old(self)@.wf(),
        ensures
            final(self)@ == spec_tick3(old(self)@),
            final(self)@.wf(),
            final(self)@.bus.ppu.ticks == old(self)@.bus.ppu.ticks + 3,
            final(self)@.bus.ppu.skips >= old(self)@.bus.ppu.skips,
            final(self)@.bus.ppu.dot_positions == old(self)@.bus.ppu.dot_positions + 3 + (final(
            self)@.bus.ppu.skips - old(self)@.bus.ppu.skips),
    {
        self.cpu_bus.ppu.ppu_tick();
        self.cpu_bus.ppu.ppu_tick();
        self.cpu_bus.ppu.ppu_tick();
    }

    /// One read access: cycle step, bus read, three PPU dots.
    fn access_read(&mut self, addr: u16) -> (r: u8)
        requires
            old(self)@.wf(),
        ensures
            (final(self)@, r) == spec_access_read(old(self)@, addr),
            final(self)@.wf(),
            final(self)@.cycles == old(self)@.cycles + 1,
            final(self)@.bus.ppu.ticks == old(self)@.bus.ppu.ticks + 3,
            final(self)@.bus.ppu.skips >= old(self)@.bus.ppu.skips,
            final(self)@.bus.ppu.dot_positions == old(self)@.bus.ppu.dot_positions + 3 + (final(
            self)@.bus.ppu.skips - old(self)@.bus.ppu.skips),
    {
        self.cpu_clk = if self.cpu_clk == 0xFFFF_FFFF_FFFF_FFFF {
            0
        } else {
            self.cpu_clk + 1
        };
        self.cycles = Ghost((self.cycles@ + 1) as nat);
        let r = self.cpu_bus.read8(addr);
        self.tick_ppu_3();
        r
    }

    /// One write access: cycle step, bus write, three PPU dots.
    fn access_write(&mut self, addr: u16, data: u8)
        requires
            old(self)@.wf(),
        ensures
            final(self)@ == spec_access_write(old(self)@, addr, data),
            final(self)@.wf(),
            final(self)@.cycles == old(self)@.cycles + 1,
            final(self)@.bus.ppu.ticks == old(self)@.bus.ppu.ticks + 3,
            final(self)@.bus.ppu.skips >= old(self)@.bus.ppu.skips,
            final(self)@.bus.ppu.dot_positions == old(self)@.bus.ppu.dot_positions + 3 + (final(
            self)@.bus.ppu.skips - old(self)@.bus.ppu.skips),
    {
        self.cpu_clk = if self.cpu_clk == 0xFFFF_FFFF_FFFF_FFFF {
            0
        } else {
            self.cpu_clk + 1
        };
        self.cycles = Ghost((self.cycles@ + 1) as nat);
        self.cpu_bus.write8(addr, data);
        self.tick_ppu_3();
    }

    /// The raw stack push the interrupt sequence uses (no NMI sample).
    fn push_raw(&mut self, data: u8)
        requires
            old(self)@.wf(),
        ensures
            final(self)@ == spec_push(old(self)@, data),
            final(self)@.wf(),
            final(self)@.cycles == old(self)@.cycles + 1,
            final(self)@.bus.ppu.ticks == old(self)@.bus.ppu.ticks + 3,
            final(self)@.bus.ppu.skips >= old(self)@.bus.ppu.skips,
            final(self)@.bus.ppu.dot_positions == old(self)@.bus.ppu.dot_positions + 3 + (final(
            self)@.bus.ppu.skips - old(self)@.bus.ppu.skips),
    {
        let addr = 0x100 + self.sp as u16;
        self.access_write(addr, data);
        self.sp = ((self.sp as u16 + 0xFF) % 0x100) as u8;
    }

    /// The raw stack pull (no NMI sample).
    fn pull_raw(&mut self) -> (r: u8)
        requires
            old(self)@.wf(),
        ensures
            (final(self)@, r) == spec_pull(old(self)@),
            final(self)@.wf(),
            final(self)@.cycles == old(self)@.cycles + 1,
            final(self)@.bus.ppu.ticks == old(self)@.bus.ppu.ticks + 3,
            final(self)@.bus.ppu.skips >= old(self)@.bus.ppu.skips,
            final(self)@.bus.ppu.dot_positions == old(self)@.bus.ppu.dot_positions + 3 + (final(
            self)@.bus.ppu.skips - old(self)@.bus.ppu.skips),
    {
        self.sp = ((self.sp as u16 + 1) % 0x100) as u8;
        let addr = 0x100 + self.sp as u16;
        self.access_read(addr)
    }

    /// Pushes a byte onto the stack, then samples the NMI line as every
    /// CPU write does.
    pub fn push_stack(&mut self, data: u8)
        requires
            old(self)@.wf(),
        ensures
            final(self)@ == spec_push_poll(old(self)@, data),
            final(self)@.wf(),
            final(self)@.cycles >= old(self)@.cycles + 1,
            final(self)@.bus.ppu.ticks == old(self)@.bus.ppu.ticks + 3 * (final(self)@.cycles
                - old(self)@.cycles),
            final(self)@.bus.ppu.skips >= old(self)@.bus.ppu.skips,
            final(self)@.bus.ppu.dot_positions == old(self)@.bus.ppu.dot_positions + (final(
            self)@.bus.ppu.ticks - old(self)@.bus.ppu.ticks) + (final(self)@.bus.ppu.skips - old(
            self)@.bus.ppu.skips),
    {
        self.push_raw(data);
        self.nmi();
    }

    /// Pulls a byte off the stack, then samples the NMI line as every CPU
    /// read does.
    pub fn pop_stack(&mut self) -> (r: u8)
        requires
            old(self)@.wf(),
        ensures
            (final(self)@, r) == spec_pull_poll(old(self)@),
            final(self)@.wf(),
            final(self)@.cycles >= old(self)@.cycles + 1,
            final(self)@.bus.ppu.ticks == old(self)@.bus.ppu.ticks + 3 * (final(self)@.cycles
                - old(self)@.cycles),
            final(self)@.bus.ppu.skips >= old(self)@.bus.ppu.skips,
            final(self)@.bus.ppu.dot_positions == old(self)@.bus.ppu.dot_positions + (final(
            self)@.bus.ppu.ticks - old(self)@.bus.ppu.ticks) + (final(self)@.bus.ppu.skips - old(
            self)@.bus.ppu.skips),
    {
        let r = self.pull_raw();
        self.nmi();
        r
    }

    /// Services a pending NMI, if the PPU raised one, and otherwise does
    /// nothing. Called after every CPU read.
    #[verifier::rlimit(60)]
    #[verifier::spinoff_prover]
        fn nmi(&mut self)
        requires
            old(self)@.wf(),
        ensures
            final(self)@ == spec_poll_nmi(old(self)@),
            final(self)@.wf(),
            final(self)@.cycles >= old(self)@.cycles,
            final(self)@.bus.ppu.ticks == old(self)@.bus.ppu.ticks + 3 * (final(self)@.cycles
                - old(self)@.cycles),
            final(self)@.bus.ppu.skips >= old(self)@.bus.ppu.skips,
            final(self)@.bus.ppu.dot_positions == old(self)@.bus.ppu.dot_positions + (final(
            self)@.bus.ppu.ticks - old(self)@.bus.ppu.ticks) + (final(self)@.bus.ppu.skips - old(
            self)@.bus.ppu.skips),
    {
        proof {
            reveal(spec_service_nmi);
        }
        if self.cpu_bus.ppu.nmi == 1 {
            self.cpu_bus.ppu.nmi = 0;
            let _ = self.access_read(self.pc);
            let _ = self.access_read(self.pc);
            let high_pc = (self.pc / 0x100) as u8;
            self.push_raw(high_pc);
            let low_pc = (self.pc % 0x100) as u8;
            self.push_raw(low_pc);
            let flags = (self.status | 0x20) & 0xEF;
            self.push_raw(flags);
            let new_low_pc = self.access_read(0xFFFA);
            let new_high_pc = self.access_read(0xFFFB);
            self.pc = (new_high_pc as u16) * 0x100 + new_low_pc as u16;
            self.status = self.status | 0x04;
        }
    }

    /// Runs the OAM DMA transfer that a write to 0x4014 scheduled.
    #[verifier::rlimit(60)]
    #[verifier::spinoff_prover]
        fn execute_oam_dma(&mut self)
        requires
            old(self)@.wf(),
            old(self)@.bus.halt,
        ensures
            final(self)@ == spec_run_dma(old(self)@),
            final(self)@.wf(),
            final(self)@.cycles >= old(self)@.cycles,
            final(self)@.bus.ppu.ticks == old(self)@.bus.ppu.ticks + 3 * (final(self)@.cycles
                - old(self)@.cycles),
            final(self)@.bus.ppu.skips >= old(self)@.bus.ppu.skips,
            final(self)@.bus.ppu.dot_positions == old(self)@.bus.ppu.dot_positions + (final(
            self)@.bus.ppu.ticks - old(self)@.bus.ppu.ticks) + (final(self)@.bus.ppu.skips - old(
            self)@.bus.ppu.skips),
    {
        proof {
            reveal(spec_run_dma);
        }
        let page = self.cpu_bus.dma_page;
        self.cpu_bus.halt_flag = false;
        if self.cpu_clk % 2 == 1 {
            let _ = self.access_read(0x4014);
        }
        let _ = self.access_read(0x4014);
        let ghost c2 = self@;
        let mut i: usize = 0;
        while i < 256
            invariant
                self@.wf(),
                i <= 256,
                page == old(self)@.bus.dma_page,
                spec_dma_loop(self@, page, i as int) == spec_dma_loop(c2, page, 0),
                self@.cycles >= old(self)@.cycles,
                self@.bus.ppu.ticks == old(self)@.bus.ppu.ticks + 3 * (self@.cycles - old(
                self)@.cycles),
                self@.bus.ppu.skips >= old(self)@.bus.ppu.skips,
                self@.bus.ppu.dot_positions == old(self)@.bus.ppu.dot_positions + (
                self@.bus.ppu.ticks - old(self)@.bus.ppu.ticks) + (self@.bus.ppu.skips - old(
                self)@.bus.ppu.skips),
            decreases 256 - i,
        {
            let v = self.access_read((page as u16) * 0x100 + i as u16);
            self.access_write(0x2004, v);
            i = i + 1;
        }
    }

    /// Reads one byte as the CPU: a scheduled DMA halt runs first, then
    /// the read, then the NMI line is sampled.
    #[verifier::rlimit(60)]
    #[verifier::spinoff_prover]
        pub fn read_byte(&mut self, address: u16) -> (r: u8)
        requires
            old(self)@.wf(),
        ensures
            (final(self)@, r) == spec_read_byte(old(self)@, address),
            final(self)@.wf(),
            final(self)@.cycles >= old(self)@.cycles + 1,
            final(self)@.bus.ppu.ticks == old(self)@.bus.ppu.ticks + 3 * (final(self)@.cycles
                - old(self)@.cycles),
            final(self)@.bus.ppu.skips >= old(self)@.bus.ppu.skips,
            final(self)@.bus.ppu.dot_positions == old(self)@.bus.ppu.dot_positions + (final(
            self)@.bus.ppu.ticks - old(self)@.bus.ppu.ticks) + (final(self)@.bus.ppu.skips - old(
            self)@.bus.ppu.skips),
            spec_clock_ok(old(self)@) ==> spec_clock_ok(final(self)@),
    {
        if self.cpu_bus.halt_flag {
            self.execute_oam_dma();
        }
        let r = self.access_read(address);
        self.nmi();
        r
    }

    /// Writes one byte as the CPU: the write access, then the NMI-line
    /// sample.
    pub fn write_byte(&mut self, address: u16, data: u8)
        requires
            old(self)@.wf(),
        ensures
            final(self)@ == spec_write_byte(old(self)@, address, data),
            final(self)@.wf(),
            final(self)@.cycles >= old(self)@.cycles + 1,
            final(self)@.bus.ppu.ticks == old(self)@.bus.ppu.ticks + 3 * (final(self)@.cycles
                - old(self)@.cycles),
            final(self)@.bus.ppu.skips >= old(self)@.bus.ppu.skips,
            final(self)@.bus.ppu.dot_positions == old(self)@.bus.ppu.dot_positions + (final(
            self)@.bus.ppu.ticks - old(self)@.bus.ppu.ticks) + (final(self)@.bus.ppu.skips - old(
            self)@.bus.ppu.skips),
            spec_clock_ok(old(self)@) ==> spec_clock_ok(final(self)@),
    {
        self.access_write(address, data);
        self.nmi();
    }

    /// Stores one byte into OAM through the OAMDATA port, without costing
    /// the CPU a cycle; hosts use this to preload sprite memory.
    pub fn write_oam(&mut self, data: u8)
        requires
            old(self)@.wf(),
        ensures
            final(self)@ == (CpuModel {
                bus: spec_bus_write8(old(self)@.bus, 0x2004, data),
                ..old(self)@
            }),
            final(self)@.wf(),
    {
        self.cpu_bus.write8(0x2004, data);
    }

    /// Fetches the byte at PC and steps PC past it; the NMI line is
    /// sampled after the step.
    #[verifier::rlimit(60)]
    #[verifier::spinoff_prover]
        pub fn fetch_byte(&mut self) -> (r: u8)
        requires
            old(self)@.wf(),
        ensures
            (final(self)@, r) == spec_fetch_byte(old(self)@),
            final(self)@.wf(),
            final(self)@.cycles >= old(self)@.cycles + 1,
            final(self)@.bus.ppu.ticks == old(self)@.bus.ppu.ticks + 3 * (final(self)@.cycles
                - old(self)@.cycles),
            final(self)@.bus.ppu.skips >= old(self)@.bus.ppu.skips,
            final(self)@.bus.ppu.dot_positions == old(self)@.bus.ppu.dot_positions + (final(
            self)@.bus.ppu.ticks - old(self)@.bus.ppu.ticks) + (final(self)@.bus.ppu.skips - old(
            self)@.bus.ppu.skips),
    {
        if self.cpu_bus.halt_flag {
            self.execute_oam_dma();
        }
        let r = self.access_read(self.pc);
        self.pc = ((self.pc as u32 + 1) % 0x10000) as u16;
        self.nmi();
        r
    }

    /// Fetches a little-endian word at PC.
    #[verifier::rlimit(60)]
    #[verifier::spinoff_prover]
        pub fn fetch_word(&mut self) -> (r: u16)
        requires
            old(self)@.wf(),
        ensures
            (final(self)@, r) == spec_fetch_word(old(self)@),
            final(self)@.wf(),
            final(self)@.cycles >= old(self)@.cycles + 2,
            final(self)@.bus.ppu.ticks == old(self)@.bus.ppu.ticks + 3 * (final(self)@.cycles
                - old(self)@.cycles),
            final(self)@.bus.ppu.skips >= old(self)@.bus.ppu.skips,
            final(self)@.bus.ppu.dot_positions == old(self)@.bus.ppu.dot_positions + (final(
            self)@.bus.ppu.ticks - old(self)@.bus.ppu.ticks) + (final(self)@.bus.ppu.skips - old(
            self)@.bus.ppu.skips),
    {
        let lo = self.fetch_byte();
        let hi = self.fetch_byte();
        (hi as u16) * 0x100 + lo as u16
    }

    /// Sets the zero and negative flags from a value.
    pub fn set_zero_neg(&mut self, check: u8)
        ensures
            final(self)@ == (CpuModel { status: spec_zn(old(self)@.status, check), ..old(self)@ }),
    {
        if check == 0 {
            self.status = self.status | 0x02;
        } else {
            self.status = self.status & 0xFD;
        }
        if check & 0x80 != 0 {
            self.status = self.status | 0x80;
        } else {
            self.status = self.status & 0x7F;
        }
    }

    /// Sets the carry, zero and negative flags from a compare.
    pub fn set_cmp_flags(&mut self, check: u8, operand: u8)
        ensures
            final(self)@ == (CpuModel {
                status: spec_cmp(old(self)@.status, check, operand),
                ..old(self)@
            }),
    {
        if check >= operand {
            self.status = self.status | 0x01;
        } else {
            self.status = self.status & 0xFE;
        }
        if check == operand {
            self.status = self.status | 0x02;
        } else {
            self.status = self.status & 0xFD;
        }
        let diff = ((check as u16 + 0x100 - operand as u16) % 0x100) as u8;
        if diff & 0x80 != 0 {
            self.status = self.status | 0x80;
        } else {
            self.status = self.status & 0x7F;
        }
    }

    /// Preloads memory through ordinary CPU writes, for hosts that set up
    /// a machine state before running: each pair is an address and a byte.
    pub fn load_testing_ram(&mut self, initial_state: &Vec<(i64, i64)>)
        requires
            old(self)@.wf(),
            forall|i: int|
                0 <= i < initial_state@.len() ==> 0 <= #[trigger] initial_state@[i].0 < 0x10000
                    && 0 <= initial_state@[i].1 < 0x100,
        ensures
            final(self)@ == spec_load_ram(old(self)@, initial_state@, 0),
            final(self)@.wf(),
    {
        let ghost c0 = self@;
        let n = initial_state.len();
        let mut i: usize = 0;
        while i < n
            invariant
                self@.wf(),
                i <= n == initial_state@.len(),
                forall|j: int|
                    0 <= j < initial_state@.len() ==> 0 <= #[trigger] initial_state@[j].0 < 0x10000
                        && 0 <= initial_state@[j].1 < 0x100,
                spec_load_ram(self@, initial_state@, i as int) == spec_load_ram(
                    c0,
                    initial_state@,
                    0,
                ),
            decreases n - i,
        {
            let pair = initial_state[i];
            self.write_byte(pair.0 as u16, pair.1 as u8);
            i = i + 1;
        }
    }
}

/// The machine after the writes of `pairs[i..]` have been applied in
/// order.
pub open spec fn spec_load_ram(c: CpuModel, pairs: Seq<(i64, i64)>, i: int) -> CpuModel
    decreases pairs.len() - i,
{
    if i < 0 || i >= pairs.len() {
        c
    } else {
        spec_load_ram(spec_write_byte(c, pairs[i].0 as u16, pairs[i].1 as u8), pairs, i + 1)
    }
}

} // verus!
