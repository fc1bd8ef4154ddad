//! The 6502 instruction set: addressing-mode resolution and one function
//! per instruction family, each an exact mirror of its specification. The
//! cycle pattern of every instruction is carried by its bus accesses —
//! operand fetches, the dummy reads of indexed addressing and page
//! crossings, the double write of read-modify-write instructions — so the
//! clock coupling with the PPU follows from the access layer.

use vstd::prelude::*;
use crate::cpu::{
    CPU, CpuModel, spec_cmp, spec_fetch_byte, spec_fetch_word, spec_read_byte, spec_write_byte,
    spec_zn,
};

verus! {

/// A 6502 addressing mode.
#[derive(Debug, Clone, Copy, PartialEq, Eq)]
pub enum Mode {
    Immediate,
    ZeroPage,
    ZeroPageX,
    ZeroPageY,
    Absolute,
    AbsoluteX,
    AbsoluteY,
    IndexedIndirect,
    IndirectIndexed,
}

/// State and effective address of addressing-mode resolution for a read
/// instruction: indexed zero-page modes spend a dummy read on the
/// unindexed address, and absolute-indexed and indirect-indexed modes
/// spend one on the partially-carried address only when the index crosses
/// a page.
pub open spec fn spec_resolve_read(c: CpuModel, m: Mode) -> (CpuModel, u16) {
    match m {
        Mode::Immediate => (c, 0),
        Mode::ZeroPage => {
            let r = spec_fetch_byte(c);
            (r.0, r.1 as u16)
        },
        Mode::ZeroPageX => {
            let r = spec_fetch_byte(c);
            let d = spec_read_byte(r.0, r.1 as u16);
            (d.0, (((r.1 + d.0.x) % 0x100) as u16))
        },
        Mode::ZeroPageY => {
            let r = spec_fetch_byte(c);
            let d = spec_read_byte(r.0, r.1 as u16);
            (d.0, (((r.1 + d.0.y) % 0x100) as u16))
        },
        Mode::Absolute => {
            let r = spec_fetch_word(c);
            (r.0, r.1)
        },
        Mode::AbsoluteX => {
            let r = spec_fetch_word(c);
            let addr = (((r.1 + r.0.x) % 0x10000) as u16);
            if r.1 % 0x100 + r.0.x > 0xFF {
                let wrong = (((r.1 / 0x100) * 0x100 + (r.1 + r.0.x) % 0x100) as u16);
                (spec_read_byte(r.0, wrong).0, addr)
            } else {
                (r.0, addr)
            }
        },
        Mode::AbsoluteY => {
            let r = spec_fetch_word(c);
            let addr = (((r.1 + r.0.y) % 0x10000) as u16);
            if r.1 % 0x100 + r.0.y > 0xFF {
                let wrong = (((r.1 / 0x100) * 0x100 + (r.1 + r.0.y) % 0x100) as u16);
                (spec_read_byte(r.0, wrong).0, addr)
            } else {
                (r.0, addr)
            }
        },
        Mode::IndexedIndirect => {
            let r = spec_fetch_byte(c);
            let d = spec_read_byte(r.0, r.1 as u16);
            let lo = spec_read_byte(d.0, ((r.1 + d.0.x) % 0x100) as u16);
            let hi = spec_read_byte(lo.0, ((r.1 + lo.0.x + 1) % 0x100) as u16);
            (hi.0, ((hi.1 * 0x100 + lo.1) as u16))
        },
        Mode::IndirectIndexed => {
            let r = spec_fetch_byte(c);
            let lo = spec_read_byte(r.0, r.1 as u16);
            let hi = spec_read_byte(lo.0, ((r.1 + 1) % 0x100) as u16);
            let base = (hi.1 * 0x100 + lo.1) as u16;
            let addr = (((base + hi.0.y) % 0x10000) as u16);
            if base % 0x100 + hi.0.y > 0xFF {
                let wrong = (((base / 0x100) * 0x100 + (base + hi.0.y) % 0x100) as u16);
                (spec_read_byte(hi.0, wrong).0, addr)
            } else {
                (hi.0, addr)
            }
        },
    }
}

/// State and effective address of addressing-mode resolution for a write
/// or read-modify-write instruction: as for reads, except that the
/// absolute-indexed and indirect-indexed modes always spend the dummy read
/// on the partially-carried address.
pub open spec fn spec_resolve_write(c: CpuModel, m: Mode) -> (CpuModel, u16) {
    match m {
        Mode::AbsoluteX => {
            let r = spec_fetch_word(c);
            let addr = (((r.1 + r.0.x) % 0x10000) as u16);
            let wrong = (((r.1 / 0x100) * 0x100 + (r.1 + r.0.x) % 0x100) as u16);
            (spec_read_byte(r.0, wrong).0, addr)
        },
        Mode::AbsoluteY => {
            let r = spec_fetch_word(c);
            let addr = (((r.1 + r.0.y) % 0x10000) as u16);
            let wrong = (((r.1 / 0x100) * 0x100 + (r.1 + r.0.y) % 0x100) as u16);
            (spec_read_byte(r.0, wrong).0, addr)
        },
        Mode::IndirectIndexed => {
            let r = spec_fetch_byte(c);
            let lo = spec_read_byte(r.0, r.1 as u16);
            let hi = spec_read_byte(lo.0, ((r.1 + 1) % 0x100) as u16);
            let base = (hi.1 * 0x100 + lo.1) as u16;
            let addr = (((base + hi.0.y) % 0x10000) as u16);
            let wrong = (((base / 0x100) * 0x100 + (base + hi.0.y) % 0x100) as u16);
            (spec_read_byte(hi.0, wrong).0, addr)
        },
        _ => spec_resolve_read(c, m),
    }
}

/// State and operand value of a read instruction: an immediate fetch, or a
/// resolution followed by the data read.
pub open spec fn spec_operand(c: CpuModel, m: Mode) -> (CpuModel, u8) {
    if m is Immediate {
        spec_fetch_byte(c)
    } else {
        let r = spec_resolve_read(c, m);
        spec_read_byte(r.0, r.1)
    }
}

impl CPU {
    /// Resolves a read instruction's effective address.
    #[verifier::rlimit(60)]
    #[verifier::spinoff_prover]
    pub fn resolve_read(&mut self, m: Mode) -> (addr: u16)
        requires
            old(self)@.wf(),
        ensures
            (final(self)@, addr) == spec_resolve_read(old(self)@, m),
            final(self)@.wf(),
            final(self)@.cycles >= old(self)@.cycles,
            final(self)@.bus.ppu.ticks == old(self)@.bus.ppu.ticks + 3 * (final(self)@.cycles
                - old(self)@.cycles),
            final(self)@.bus.ppu.skips >= old(self)@.bus.ppu.skips,
            final(self)@.bus.ppu.dot_positions == old(self)@.bus.ppu.dot_positions + (final(
            self)@.bus.ppu.ticks - old(self)@.bus.ppu.ticks) + (final(self)@.bus.ppu.skips - old(
            self)@.bus.ppu.skips),
    {
        match m {
            Mode::Immediate => 0,
            Mode::ZeroPage => {
                let zp = self.fetch_byte();
                zp as u16
            },
            Mode::ZeroPageX => {
                let zp = self.fetch_byte();
                let _ = self.read_byte(zp as u16);
                ((zp as u16 + self.x as u16) % 0x100)
            },
            Mode::ZeroPageY => {
                let zp = self.fetch_byte();
                let _ = self.read_byte(zp as u16);
                ((zp as u16 + self.y as u16) % 0x100)
            },
            Mode::Absolute => self.fetch_word(),
            Mode::AbsoluteX => {
                let base = self.fetch_word();
                let addr = ((base as u32 + self.x as u32) % 0x10000) as u16;
                if base % 0x100 + self.x as u16 > 0xFF {
                    let wrong = (base / 0x100) * 0x100 + ((base as u32 + self.x as u32) % 0x100)
                        as u16;
                    let _ = self.read_byte(wrong);
                }
                addr
            },
            Mode::AbsoluteY => {
                let base = self.fetch_word();
                let addr = ((base as u32 + self.y as u32) % 0x10000) as u16;
                if base % 0x100 + self.y as u16 > 0xFF {
                    let wrong = (base / 0x100) * 0x100 + ((base as u32 + self.y as u32) % 0x100)
                        as u16;
                    let _ = self.read_byte(wrong);
                }
                addr
            },
            Mode::IndexedIndirect => {
                let zp = self.fetch_byte();
                let _ = self.read_byte(zp as u16);
                let lo = self.read_byte((zp as u16 + self.x as u16) % 0x100);
                let hi = self.read_byte((zp as u16 + self.x as u16 + 1) % 0x100);
                (hi as u16) * 0x100 + lo as u16
            },
            Mode::IndirectIndexed => {
                let zp = self.fetch_byte();
                let lo = self.read_byte(zp as u16);
                let hi = self.read_byte((zp as u16 + 1) % 0x100);
                let base = (hi as u16) * 0x100 + lo as u16;
                let addr = ((base as u32 + self.y as u32) % 0x10000) as u16;
                if base % 0x100 + self.y as u16 > 0xFF {
                    let wrong = (base / 0x100) * 0x100 + ((base as u32 + self.y as u32) % 0x100)
                        as u16;
                    let _ = self.read_byte(wrong);
                }
                addr
            },
        }
    }

    /// Resolves a write or read-modify-write instruction's effective
    /// address.
    #[verifier::rlimit(60)]
    #[verifier::spinoff_prover]
    pub fn resolve_write(&mut self, m: Mode) -> (addr: u16)
        requires
            old(self)@.wf(),
        ensures
            (final(self)@, addr) == spec_resolve_write(old(self)@, m),
            final(self)@.wf(),
            final(self)@.cycles >= old(self)@.cycles,
            final(self)@.bus.ppu.ticks == old(self)@.bus.ppu.ticks + 3 * (final(self)@.cycles
                - old(self)@.cycles),
            final(self)@.bus.ppu.skips >= old(self)@.bus.ppu.skips,
            final(self)@.bus.ppu.dot_positions == old(self)@.bus.ppu.dot_positions + (final(
            self)@.bus.ppu.ticks - old(self)@.bus.ppu.ticks) + (final(self)@.bus.ppu.skips - old(
            self)@.bus.ppu.skips),
    {
        match m {
            Mode::AbsoluteX => {
                let base = self.fetch_word();
                let addr = ((base as u32 + self.x as u32) % 0x10000) as u16;
                let wrong = (base / 0x100) * 0x100 + ((base as u32 + self.x as u32) % 0x100)
                    as u16;
                let _ = self.read_byte(wrong);
                addr
            },
            Mode::AbsoluteY => {
                let base = self.fetch_word();
                let addr = ((base as u32 + self.y as u32) % 0x10000) as u16;
                let wrong = (base / 0x100) * 0x100 + ((base as u32 + self.y as u32) % 0x100)
                    as u16;
                let _ = self.read_byte(wrong);
                addr
            },
            Mode::IndirectIndexed => {
                let zp = self.fetch_byte();
                let lo = self.read_byte(zp as u16);
                let hi = self.read_byte((zp as u16 + 1) % 0x100);
                let base = (hi as u16) * 0x100 + lo as u16;
                let addr = ((base as u32 + self.y as u32) % 0x10000) as u16;
                let wrong = (base / 0x100) * 0x100 + ((base as u32 + self.y as u32) % 0x100)
                    as u16;
                let _ = self.read_byte(wrong);
                addr
            },
            _ => self.resolve_read(m),
        }
    }

    /// Fetches or reads a read instruction's operand.
    pub fn operand(&mut self, m: Mode) -> (v: u8)
        requires
            old(self)@.wf(),
        ensures
            (final(self)@, v) == spec_operand(old(self)@, m),
            final(self)@.wf(),
            final(self)@.cycles >= old(self)@.cycles,
            final(self)@.bus.ppu.ticks == old(self)@.bus.ppu.ticks + 3 * (final(self)@.cycles
                - old(self)@.cycles),
            final(self)@.bus.ppu.skips >= old(self)@.bus.ppu.skips,
            final(self)@.bus.ppu.dot_positions == old(self)@.bus.ppu.dot_positions + (final(
            self)@.bus.ppu.ticks - old(self)@.bus.ppu.ticks) + (final(self)@.bus.ppu.skips - old(
            self)@.bus.ppu.skips),
    {
        if matches!(m, Mode::Immediate) {
            self.fetch_byte()
        } else {
            let addr = self.resolve_read(m);
            self.read_byte(addr)
        }
    }

    /// ORA on the addressed operand.
    #[verifier::rlimit(60)]
    #[verifier::spinoff_prover]
    pub fn ora(&mut self, m: Mode)
        requires
            old(self)@.wf(),
        ensures
            final(self)@ == spec_ora(old(self)@, m),
            final(self)@.wf(),
            final(self)@.cycles >= old(self)@.cycles,
            final(self)@.bus.ppu.ticks == old(self)@.bus.ppu.ticks + 3 * (final(self)@.cycles
                - old(self)@.cycles),
            final(self)@.bus.ppu.skips >= old(self)@.bus.ppu.skips,
            final(self)@.bus.ppu.dot_positions == old(self)@.bus.ppu.dot_positions + (final(
            self)@.bus.ppu.ticks - old(self)@.bus.ppu.ticks) + (final(self)@.bus.ppu.skips - old(
            self)@.bus.ppu.skips),
    {
        let v = self.operand(m);
        self.accumulator = self.accumulator | v;
        self.set_zero_neg(self.accumulator);
    }

    /// AND on the addressed operand.
    #[verifier::rlimit(60)]
    #[verifier::spinoff_prover]
    pub fn and_m(&mut self, m: Mode)
        requires
            old(self)@.wf(),
        ensures
            final(self)@ == spec_and_m(old(self)@, m),
            final(self)@.wf(),
            final(self)@.cycles >= old(self)@.cycles,
            final(self)@.bus.ppu.ticks == old(self)@.bus.ppu.ticks + 3 * (final(self)@.cycles
                - old(self)@.cycles),
            final(self)@.bus.ppu.skips >= old(self)@.bus.ppu.skips,
            final(self)@.bus.ppu.dot_positions == old(self)@.bus.ppu.dot_positions + (final(
            self)@.bus.ppu.ticks - old(self)@.bus.ppu.ticks) + (final(self)@.bus.ppu.skips - old(
            self)@.bus.ppu.skips),
    {
        let v = self.operand(m);
        self.accumulator = self.accumulator & v;
        self.set_zero_neg(self.accumulator);
    }

    /// EOR on the addressed operand.
    #[verifier::rlimit(60)]
    #[verifier::spinoff_prover]
    pub fn eor(&mut self, m: Mode)
        requires
            old(self)@.wf(),
        ensures
            final(self)@ == spec_eor(old(self)@, m),
            final(self)@.wf(),
            final(self)@.cycles >= old(self)@.cycles,
            final(self)@.bus.ppu.ticks == old(self)@.bus.ppu.ticks + 3 * (final(self)@.cycles
                - old(self)@.cycles),
            final(self)@.bus.ppu.skips >= old(self)@.bus.ppu.skips,
            final(self)@.bus.ppu.dot_positions == old(self)@.bus.ppu.dot_positions + (final(
            self)@.bus.ppu.ticks - old(self)@.bus.ppu.ticks) + (final(self)@.bus.ppu.skips - old(
            self)@.bus.ppu.skips),
    {
        let v = self.operand(m);
        self.accumulator = self.accumulator ^ v;
        self.set_zero_neg(self.accumulator);
    }

    /// Applies ADC to a value already in hand.
    pub fn apply_adc(&mut self, operand: u8)
        ensures
            final(self)@ == spec_adc_val(old(self)@, operand),
    {
        let carry = self.status % 2;
        let sum: u16 = self.accumulator as u16 + operand as u16 + carry as u16;
        if sum > 0xFF {
            self.status = self.status | 0x1;
        } else {
            self.status = self.status & 0xFE;
        }
        let prev = self.accumulator;
        self.accumulator = (sum % 0x100) as u8;
        self.set_zero_neg(self.accumulator);
        if prev & 0x80 == operand & 0x80 && prev & 0x80 != self.accumulator & 0x80 {
            self.status = self.status | 0x40;
        } else {
            self.status = self.status & 0xBF;
        }
    }

    /// Applies SBC to a value already in hand.
    pub fn apply_sbc(&mut self, operand: u8)
        ensures
            final(self)@ == spec_sbc_val(old(self)@, operand),
    {
        let carry = self.status % 2;
        let prev = self.accumulator;
        self.accumulator = ((prev as u16 + 0x200 - operand as u16 - (1 - carry) as u16) % 0x100)
            as u8;
        if prev as u16 >= operand as u16 + (1 - carry) as u16 {
            self.status = self.status | 0x1;
        } else {
            self.status = self.status & 0xFE;
        }
        if operand & 0x80 != prev & 0x80 && prev & 0x80 != self.accumulator & 0x80 {
            self.status = self.status | 0x40;
        } else {
            self.status = self.status & 0xBF;
        }
        self.set_zero_neg(self.accumulator);
    }

    /// ADC on the addressed operand.
    #[verifier::rlimit(60)]
    #[verifier::spinoff_prover]
    pub fn adc_m(&mut self, m: Mode)
        requires
            old(self)@.wf(),
        ensures
            final(self)@ == spec_adc_m(old(self)@, m),
            final(self)@.wf(),
            final(self)@.cycles >= old(self)@.cycles,
            final(self)@.bus.ppu.ticks == old(self)@.bus.ppu.ticks + 3 * (final(self)@.cycles
                - old(self)@.cycles),
            final(self)@.bus.ppu.skips >= old(self)@.bus.ppu.skips,
            final(self)@.bus.ppu.dot_positions == old(self)@.bus.ppu.dot_positions + (final(
            self)@.bus.ppu.ticks - old(self)@.bus.ppu.ticks) + (final(self)@.bus.ppu.skips - old(
            self)@.bus.ppu.skips),
    {
        let v = self.operand(m);
        self.apply_adc(v);
    }

    /// SBC on the addressed operand.
    #[verifier::rlimit(60)]
    #[verifier::spinoff_prover]
    pub fn sbc_m(&mut self, m: Mode)
        requires
            old(self)@.wf(),
        ensures
            final(self)@ == spec_sbc_m(old(self)@, m),
            final(self)@.wf(),
            final(self)@.cycles >= old(self)@.cycles,
            final(self)@.bus.ppu.ticks == old(self)@.bus.ppu.ticks + 3 * (final(self)@.cycles
                - old(self)@.cycles),
            final(self)@.bus.ppu.skips >= old(self)@.bus.ppu.skips,
            final(self)@.bus.ppu.dot_positions == old(self)@.bus.ppu.dot_positions + (final(
            self)@.bus.ppu.ticks - old(self)@.bus.ppu.ticks) + (final(self)@.bus.ppu.skips - old(
            self)@.bus.ppu.skips),
    {
        let v = self.operand(m);
        self.apply_sbc(v);
    }

    /// CMP on the addressed operand.
    #[verifier::rlimit(60)]
    #[verifier::spinoff_prover]
    pub fn cmp_m(&mut self, m: Mode)
        requires
            old(self)@.wf(),
        ensures
            final(self)@ == spec_cmp_m(old(self)@, m),
            final(self)@.wf(),
            final(self)@.cycles >= old(self)@.cycles,
            final(self)@.bus.ppu.ticks == old(self)@.bus.ppu.ticks + 3 * (final(self)@.cycles
                - old(self)@.cycles),
            final(self)@.bus.ppu.skips >= old(self)@.bus.ppu.skips,
            final(self)@.bus.ppu.dot_positions == old(self)@.bus.ppu.dot_positions + (final(
            self)@.bus.ppu.ticks - old(self)@.bus.ppu.ticks) + (final(self)@.bus.ppu.skips - old(
            self)@.bus.ppu.skips),
    {
        let v = self.operand(m);
        let a = self.accumulator;
        self.set_cmp_flags(a, v);
    }

    /// CPX on the addressed operand.
    #[verifier::rlimit(60)]
    #[verifier::spinoff_prover]
    pub fn cpx_m(&mut self, m: Mode)
        requires
            old(self)@.wf(),
        ensures
            final(self)@ == spec_cpx_m(old(self)@, m),
            final(self)@.wf(),
            final(self)@.cycles >= old(self)@.cycles,
            final(self)@.bus.ppu.ticks == old(self)@.bus.ppu.ticks + 3 * (final(self)@.cycles
                - old(self)@.cycles),
            final(self)@.bus.ppu.skips >= old(self)@.bus.ppu.skips,
            final(self)@.bus.ppu.dot_positions == old(self)@.bus.ppu.dot_positions + (final(
            self)@.bus.ppu.ticks - old(self)@.bus.ppu.ticks) + (final(self)@.bus.ppu.skips - old(
            self)@.bus.ppu.skips),
    {
        let v = self.operand(m);
        let x = self.x;
        self.set_cmp_flags(x, v);
    }

    /// CPY on the addressed operand.
    #[verifier::rlimit(60)]
    #[verifier::spinoff_prover]
    pub fn cpy_m(&mut self, m: Mode)
        requires
            old(self)@.wf(),
        ensures
            final(self)@ == spec_cpy_m(old(self)@, m),
            final(self)@.wf(),
            final(self)@.cycles >= old(self)@.cycles,
            final(self)@.bus.ppu.ticks == old(self)@.bus.ppu.ticks + 3 * (final(self)@.cycles
                - old(self)@.cycles),
            final(self)@.bus.ppu.skips >= old(self)@.bus.ppu.skips,
            final(self)@.bus.ppu.dot_positions == old(self)@.bus.ppu.dot_positions + (final(
            self)@.bus.ppu.ticks - old(self)@.bus.ppu.ticks) + (final(self)@.bus.ppu.skips - old(
            self)@.bus.ppu.skips),
    {
        let v = self.operand(m);
        let y = self.y;
        self.set_cmp_flags(y, v);
    }

    /// LDA from the addressed operand.
    #[verifier::rlimit(60)]
    #[verifier::spinoff_prover]
    pub fn lda(&mut self, m: Mode)
        requires
            old(self)@.wf(),
        ensures
            final(self)@ == spec_lda(old(self)@, m),
            final(self)@.wf(),
            final(self)@.cycles >= old(self)@.cycles,
            final(self)@.bus.ppu.ticks == old(self)@.bus.ppu.ticks + 3 * (final(self)@.cycles
                - old(self)@.cycles),
            final(self)@.bus.ppu.skips >= old(self)@.bus.ppu.skips,
            final(self)@.bus.ppu.dot_positions == old(self)@.bus.ppu.dot_positions + (final(
            self)@.bus.ppu.ticks - old(self)@.bus.ppu.ticks) + (final(self)@.bus.ppu.skips - old(
            self)@.bus.ppu.skips),
    {
        let v = self.operand(m);
        self.accumulator = v;
        self.set_zero_neg(v);
    }

    /// LDX from the addressed operand.
    #[verifier::rlimit(60)]
    #[verifier::spinoff_prover]
    pub fn ldx(&mut self, m: Mode)
        requires
            old(self)@.wf(),
        ensures
            final(self)@ == spec_ldx(old(self)@, m),
            final(self)@.wf(),
            final(self)@.cycles >= old(self)@.cycles,
            final(self)@.bus.ppu.ticks == old(self)@.bus.ppu.ticks + 3 * (final(self)@.cycles
                - old(self)@.cycles),
            final(self)@.bus.ppu.skips >= old(self)@.bus.ppu.skips,
            final(self)@.bus.ppu.dot_positions == old(self)@.bus.ppu.dot_positions + (final(
            self)@.bus.ppu.ticks - old(self)@.bus.ppu.ticks) + (final(self)@.bus.ppu.skips - old(
            self)@.bus.ppu.skips),
    {
        let v = self.operand(m);
        self.x = v;
        self.set_zero_neg(v);
    }

    /// LDY from the addressed operand.
    #[verifier::rlimit(60)]
    #[verifier::spinoff_prover]
    pub fn ldy(&mut self, m: Mode)
        requires
            old(self)@.wf(),
        ensures
            final(self)@ == spec_ldy(old(self)@, m),
            final(self)@.wf(),
            final(self)@.cycles >= old(self)@.cycles,
            final(self)@.bus.ppu.ticks == old(self)@.bus.ppu.ticks + 3 * (final(self)@.cycles
                - old(self)@.cycles),
            final(self)@.bus.ppu.skips >= old(self)@.bus.ppu.skips,
            final(self)@.bus.ppu.dot_positions == old(self)@.bus.ppu.dot_positions + (final(
            self)@.bus.ppu.ticks - old(self)@.bus.ppu.ticks) + (final(self)@.bus.ppu.skips - old(
            self)@.bus.ppu.skips),
    {
        let v = self.operand(m);
        self.y = v;
        self.set_zero_neg(v);
    }

    /// Undocumented LAX from the addressed operand.
    #[verifier::rlimit(60)]
    #[verifier::spinoff_prover]
    pub fn lax(&mut self, m: Mode)
        requires
            old(self)@.wf(),
        ensures
            final(self)@ == spec_lax(old(self)@, m),
            final(self)@.wf(),
            final(self)@.cycles >= old(self)@.cycles,
            final(self)@.bus.ppu.ticks == old(self)@.bus.ppu.ticks + 3 * (final(self)@.cycles
                - old(self)@.cycles),
            final(self)@.bus.ppu.skips >= old(self)@.bus.ppu.skips,
            final(self)@.bus.ppu.dot_positions == old(self)@.bus.ppu.dot_positions + (final(
            self)@.bus.ppu.ticks - old(self)@.bus.ppu.ticks) + (final(self)@.bus.ppu.skips - old(
            self)@.bus.ppu.skips),
    {
        let v = self.operand(m);
        self.accumulator = v;
        self.x = v;
        self.set_zero_neg(v);
    }

    /// BIT on the addressed operand.
    #[verifier::rlimit(60)]
    #[verifier::spinoff_prover]
    pub fn bit_m(&mut self, m: Mode)
        requires
            old(self)@.wf(),
        ensures
            final(self)@ == spec_bit_m(old(self)@, m),
            final(self)@.wf(),
            final(self)@.cycles >= old(self)@.cycles,
            final(self)@.bus.ppu.ticks == old(self)@.bus.ppu.ticks + 3 * (final(self)@.cycles
                - old(self)@.cycles),
            final(self)@.bus.ppu.skips >= old(self)@.bus.ppu.skips,
            final(self)@.bus.ppu.dot_positions == old(self)@.bus.ppu.dot_positions + (final(
            self)@.bus.ppu.ticks - old(self)@.bus.ppu.ticks) + (final(self)@.bus.ppu.skips - old(
            self)@.bus.ppu.skips),
    {
        let v = self.operand(m);
        if v & 0x80 != 0 {
            self.status = self.status | 0x80;
        } else {
            self.status = self.status & 0x7F;
        }
        if v & 0x40 != 0 {
            self.status = self.status | 0x40;
        } else {
            self.status = self.status & 0xBF;
        }
        if self.accumulator & v == 0 {
            self.status = self.status | 0x02;
        } else {
            self.status = self.status & 0xFD;
        }
    }

    /// A read whose operand is discarded (undocumented NOPs).
    #[verifier::rlimit(60)]
    #[verifier::spinoff_prover]
    pub fn nop_read(&mut self, m: Mode)
        requires
            old(self)@.wf(),
        ensures
            final(self)@ == spec_nop_read(old(self)@, m),
            final(self)@.wf(),
            final(self)@.cycles >= old(self)@.cycles,
            final(self)@.bus.ppu.ticks == old(self)@.bus.ppu.ticks + 3 * (final(self)@.cycles
                - old(self)@.cycles),
            final(self)@.bus.ppu.skips >= old(self)@.bus.ppu.skips,
            final(self)@.bus.ppu.dot_positions == old(self)@.bus.ppu.dot_positions + (final(
            self)@.bus.ppu.ticks - old(self)@.bus.ppu.ticks) + (final(self)@.bus.ppu.skips - old(
            self)@.bus.ppu.skips),
    {
        let _ = self.operand(m);
    }

    /// STA to the addressed location.
    #[verifier::rlimit(60)]
    #[verifier::spinoff_prover]
    pub fn sta(&mut self, m: Mode)
        requires
            old(self)@.wf(),
        ensures
            final(self)@ == spec_sta(old(self)@, m),
            final(self)@.wf(),
            final(self)@.cycles >= old(self)@.cycles,
            final(self)@.bus.ppu.ticks == old(self)@.bus.ppu.ticks + 3 * (final(self)@.cycles
                - old(self)@.cycles),
            final(self)@.bus.ppu.skips >= old(self)@.bus.ppu.skips,
            final(self)@.bus.ppu.dot_positions == old(self)@.bus.ppu.dot_positions + (final(
            self)@.bus.ppu.ticks - old(self)@.bus.ppu.ticks) + (final(self)@.bus.ppu.skips - old(
            self)@.bus.ppu.skips),
    {
        let addr = self.resolve_write(m);
        let a = self.accumulator;
        self.write_byte(addr, a);
    }

    /// STX to the addressed location.
    #[verifier::rlimit(60)]
    #[verifier::spinoff_prover]
    pub fn stx(&mut self, m: Mode)
        requires
            old(self)@.wf(),
        ensures
            final(self)@ == spec_stx(old(self)@, m),
            final(self)@.wf(),
            final(self)@.cycles >= old(self)@.cycles,
            final(self)@.bus.ppu.ticks == old(self)@.bus.ppu.ticks + 3 * (final(self)@.cycles
                - old(self)@.cycles),
            final(self)@.bus.ppu.skips >= old(self)@.bus.ppu.skips,
            final(self)@.bus.ppu.dot_positions == old(self)@.bus.ppu.dot_positions + (final(
            self)@.bus.ppu.ticks - old(self)@.bus.ppu.ticks) + (final(self)@.bus.ppu.skips - old(
            self)@.bus.ppu.skips),
    {
        let addr = self.resolve_write(m);
        let x = self.x;
        self.write_byte(addr, x);
    }

    /// STY to the addressed location.
    #[verifier::rlimit(60)]
    #[verifier::spinoff_prover]
    pub fn sty(&mut self, m: Mode)
        requires
            old(self)@.wf(),
        ensures
            final(self)@ == spec_sty(old(self)@, m),
            final(self)@.wf(),
            final(self)@.cycles >= old(self)@.cycles,
            final(self)@.bus.ppu.ticks == old(self)@.bus.ppu.ticks + 3 * (final(self)@.cycles
                - old(self)@.cycles),
            final(self)@.bus.ppu.skips >= old(self)@.bus.ppu.skips,
            final(self)@.bus.ppu.dot_positions == old(self)@.bus.ppu.dot_positions + (final(
            self)@.bus.ppu.ticks - old(self)@.bus.ppu.ticks) + (final(self)@.bus.ppu.skips - old(
            self)@.bus.ppu.skips),
    {
        let addr = self.resolve_write(m);
        let y = self.y;
        self.write_byte(addr, y);
    }

    /// Undocumented SAX to the addressed location.
    #[verifier::rlimit(60)]
    #[verifier::spinoff_prover]
    pub fn sax(&mut self, m: Mode)
        requires
            old(self)@.wf(),
        ensures
            final(self)@ == spec_sax(old(self)@, m),
            final(self)@.wf(),
            final(self)@.cycles >= old(self)@.cycles,
            final(self)@.bus.ppu.ticks == old(self)@.bus.ppu.ticks + 3 * (final(self)@.cycles
                - old(self)@.cycles),
            final(self)@.bus.ppu.skips >= old(self)@.bus.ppu.skips,
            final(self)@.bus.ppu.dot_positions == old(self)@.bus.ppu.dot_positions + (final(
            self)@.bus.ppu.ticks - old(self)@.bus.ppu.ticks) + (final(self)@.bus.ppu.skips - old(
            self)@.bus.ppu.skips),
    {
        let addr = self.resolve_write(m);
        let v = self.accumulator & self.x;
        self.write_byte(addr, v);
    }

    /// A resolution and discarded read (unstable store opcodes).
    #[verifier::rlimit(60)]
    #[verifier::spinoff_prover]
    pub fn nop_write(&mut self, m: Mode)
        requires
            old(self)@.wf(),
        ensures
            final(self)@ == spec_nop_write(old(self)@, m),
            final(self)@.wf(),
            final(self)@.cycles >= old(self)@.cycles,
            final(self)@.bus.ppu.ticks == old(self)@.bus.ppu.ticks + 3 * (final(self)@.cycles
                - old(self)@.cycles),
            final(self)@.bus.ppu.skips >= old(self)@.bus.ppu.skips,
            final(self)@.bus.ppu.dot_positions == old(self)@.bus.ppu.dot_positions + (final(
            self)@.bus.ppu.ticks - old(self)@.bus.ppu.ticks) + (final(self)@.bus.ppu.skips - old(
            self)@.bus.ppu.skips),
    {
        let addr = self.resolve_write(m);
        let _ = self.read_byte(addr);
    }

    /// ASL in memory.
    #[verifier::rlimit(60)]
    #[verifier::spinoff_prover]
    pub fn asl_m(&mut self, m: Mode)
        requires
            old(self)@.wf(),
        ensures
            final(self)@ == spec_asl_m(old(self)@, m),
            final(self)@.wf(),
            final(self)@.cycles >= old(self)@.cycles,
            final(self)@.bus.ppu.ticks == old(self)@.bus.ppu.ticks + 3 * (final(self)@.cycles
                - old(self)@.cycles),
            final(self)@.bus.ppu.skips >= old(self)@.bus.ppu.skips,
            final(self)@.bus.ppu.dot_positions == old(self)@.bus.ppu.dot_positions + (final(
            self)@.bus.ppu.ticks - old(self)@.bus.ppu.ticks) + (final(self)@.bus.ppu.skips - old(
            self)@.bus.ppu.skips),
    {
        let addr = self.resolve_write(m);
        let v = self.read_byte(addr);
        self.write_byte(addr, v);
        if v & 0x80 != 0 {
            self.status = self.status | 0x1;
        } else {
            self.status = self.status & 0xFE;
        }
        let nv = ((v as u16 * 2) % 0x100) as u8;
        self.set_zero_neg(nv);
        self.write_byte(addr, nv);
    }

    /// LSR in memory.
    #[verifier::rlimit(60)]
    #[verifier::spinoff_prover]
    pub fn lsr_m(&mut self, m: Mode)
        requires
            old(self)@.wf(),
        ensures
            final(self)@ == spec_lsr_m(old(self)@, m),
            final(self)@.wf(),
            final(self)@.cycles >= old(self)@.cycles,
            final(self)@.bus.ppu.ticks == old(self)@.bus.ppu.ticks + 3 * (final(self)@.cycles
                - old(self)@.cycles),
            final(self)@.bus.ppu.skips >= old(self)@.bus.ppu.skips,
            final(self)@.bus.ppu.dot_positions == old(self)@.bus.ppu.dot_positions + (final(
            self)@.bus.ppu.ticks - old(self)@.bus.ppu.ticks) + (final(self)@.bus.ppu.skips - old(
            self)@.bus.ppu.skips),
    {
        let addr = self.resolve_write(m);
        let v = self.read_byte(addr);
        self.write_byte(addr, v);
        if v & 0x1 != 0 {
            self.status = self.status | 0x1;
        } else {
            self.status = self.status & 0xFE;
        }
        let nv = v / 2;
        self.set_zero_neg(nv);
        self.write_byte(addr, nv);
    }

    /// ROL in memory.
    #[verifier::rlimit(60)]
    #[verifier::spinoff_prover]
    pub fn rol_m(&mut self, m: Mode)
        requires
            old(self)@.wf(),
        ensures
            final(self)@ == spec_rol_m(old(self)@, m),
            final(self)@.wf(),
            final(self)@.cycles >= old(self)@.cycles,
            final(self)@.bus.ppu.ticks == old(self)@.bus.ppu.ticks + 3 * (final(self)@.cycles
                - old(self)@.cycles),
            final(self)@.bus.ppu.skips >= old(self)@.bus.ppu.skips,
            final(self)@.bus.ppu.dot_positions == old(self)@.bus.ppu.dot_positions + (final(
            self)@.bus.ppu.ticks - old(self)@.bus.ppu.ticks) + (final(self)@.bus.ppu.skips - old(
            self)@.bus.ppu.skips),
    {
        let addr = self.resolve_write(m);
        let v = self.read_byte(addr);
        self.write_byte(addr, v);
        let nv = (((v as u16 * 2) % 0x100) + (self.status % 2) as u16) as u8;
        if v & 0x80 != 0 {
            self.status = self.status | 0x1;
        } else {
            self.status = self.status & 0xFE;
        }
        self.set_zero_neg(nv);
        self.write_byte(addr, nv);
    }

    /// ROR in memory.
    #[verifier::rlimit(60)]
    #[verifier::spinoff_prover]
    pub fn ror_m(&mut self, m: Mode)
        requires
            old(self)@.wf(),
        ensures
            final(self)@ == spec_ror_m(old(self)@, m),
            final(self)@.wf(),
            final(self)@.cycles >= old(self)@.cycles,
            final(self)@.bus.ppu.ticks == old(self)@.bus.ppu.ticks + 3 * (final(self)@.cycles
                - old(self)@.cycles),
            final(self)@.bus.ppu.skips >= old(self)@.bus.ppu.skips,
            final(self)@.bus.ppu.dot_positions == old(self)@.bus.ppu.dot_positions + (final(
            self)@.bus.ppu.ticks - old(self)@.bus.ppu.ticks) + (final(self)@.bus.ppu.skips - old(
            self)@.bus.ppu.skips),
    {
        let addr = self.resolve_write(m);
        let v = self.read_byte(addr);
        self.write_byte(addr, v);
        let nv = (v / 2 + (self.status % 2) * 0x80) as u8;
        if v & 0x1 != 0 {
            self.status = self.status | 0x1;
        } else {
            self.status = self.status & 0xFE;
        }
        self.set_zero_neg(nv);
        self.write_byte(addr, nv);
    }

    /// INC in memory.
    #[verifier::rlimit(60)]
    #[verifier::spinoff_prover]
    pub fn inc_m(&mut self, m: Mode)
        requires
            old(self)@.wf(),
        ensures
            final(self)@ == spec_inc_m(old(self)@, m),
            final(self)@.wf(),
            final(self)@.cycles >= old(self)@.cycles,
            final(self)@.bus.ppu.ticks == old(self)@.bus.ppu.ticks + 3 * (final(self)@.cycles
                - old(self)@.cycles),
            final(self)@.bus.ppu.skips >= old(self)@.bus.ppu.skips,
            final(self)@.bus.ppu.dot_positions == old(self)@.bus.ppu.dot_positions + (final(
            self)@.bus.ppu.ticks - old(self)@.bus.ppu.ticks) + (final(self)@.bus.ppu.skips - old(
            self)@.bus.ppu.skips),
    {
        let addr = self.resolve_write(m);
        let v = self.read_byte(addr);
        self.write_byte(addr, v);
        let nv = ((v as u16 + 1) % 0x100) as u8;
        self.set_zero_neg(nv);
        self.write_byte(addr, nv);
    }

    /// DEC in memory.
    #[verifier::rlimit(60)]
    #[verifier::spinoff_prover]
    pub fn dec_m(&mut self, m: Mode)
        requires
            old(self)@.wf(),
        ensures
            final(self)@ == spec_dec_m(old(self)@, m),
            final(self)@.wf(),
            final(self)@.cycles >= old(self)@.cycles,
            final(self)@.bus.ppu.ticks == old(self)@.bus.ppu.ticks + 3 * (final(self)@.cycles
                - old(self)@.cycles),
            final(self)@.bus.ppu.skips >= old(self)@.bus.ppu.skips,
            final(self)@.bus.ppu.dot_positions == old(self)@.bus.ppu.dot_positions + (final(
            self)@.bus.ppu.ticks - old(self)@.bus.ppu.ticks) + (final(self)@.bus.ppu.skips - old(
            self)@.bus.ppu.skips),
    {
        let addr = self.resolve_write(m);
        let v = self.read_byte(addr);
        self.write_byte(addr, v);
        let nv = ((v as u16 + 0xFF) % 0x100) as u8;
        self.set_zero_neg(nv);
        self.write_byte(addr, nv);
    }

    /// Undocumented SLO.
    #[verifier::rlimit(60)]
    #[verifier::spinoff_prover]
    pub fn slo(&mut self, m: Mode)
        requires
            old(self)@.wf(),
        ensures
            final(self)@ == spec_slo(old(self)@, m),
            final(self)@.wf(),
            final(self)@.cycles >= old(self)@.cycles,
            final(self)@.bus.ppu.ticks == old(self)@.bus.ppu.ticks + 3 * (final(self)@.cycles
                - old(self)@.cycles),
            final(self)@.bus.ppu.skips >= old(self)@.bus.ppu.skips,
            final(self)@.bus.ppu.dot_positions == old(self)@.bus.ppu.dot_positions + (final(
            self)@.bus.ppu.ticks - old(self)@.bus.ppu.ticks) + (final(self)@.bus.ppu.skips - old(
            self)@.bus.ppu.skips),
    {
        let addr = self.resolve_write(m);
        let v = self.read_byte(addr);
        self.write_byte(addr, v);
        if v & 0x80 != 0 {
            self.status = self.status | 0x1;
        } else {
            self.status = self.status & 0xFE;
        }
        let nv = ((v as u16 * 2) % 0x100) as u8;
        self.write_byte(addr, nv);
        self.accumulator = self.accumulator | nv;
        self.set_zero_neg(self.accumulator);
    }

    /// Undocumented RLA.
    #[verifier::rlimit(60)]
    #[verifier::spinoff_prover]
    pub fn rla(&mut self, m: Mode)
        requires
            old(self)@.wf(),
        ensures
            final(self)@ == spec_rla(old(self)@, m),
            final(self)@.wf(),
            final(self)@.cycles >= old(self)@.cycles,
            final(self)@.bus.ppu.ticks == old(self)@.bus.ppu.ticks + 3 * (final(self)@.cycles
                - old(self)@.cycles),
            final(self)@.bus.ppu.skips >= old(self)@.bus.ppu.skips,
            final(self)@.bus.ppu.dot_positions == old(self)@.bus.ppu.dot_positions + (final(
            self)@.bus.ppu.ticks - old(self)@.bus.ppu.ticks) + (final(self)@.bus.ppu.skips - old(
            self)@.bus.ppu.skips),
    {
        let addr = self.resolve_write(m);
        let v = self.read_byte(addr);
        self.write_byte(addr, v);
        let nv = (((v as u16 * 2) % 0x100) + (self.status % 2) as u16) as u8;
        if v & 0x80 != 0 {
            self.status = self.status | 0x1;
        } else {
            self.status = self.status & 0xFE;
        }
        self.write_byte(addr, nv);
        self.accumulator = self.accumulator & nv;
        self.set_zero_neg(self.accumulator);
    }

    /// Undocumented SRE.
    #[verifier::rlimit(60)]
    #[verifier::spinoff_prover]
    pub fn sre(&mut self, m: Mode)
        requires
            old(self)@.wf(),
        ensures
            final(self)@ == spec_sre(old(self)@, m),
            final(self)@.wf(),
            final(self)@.cycles >= old(self)@.cycles,
            final(self)@.bus.ppu.ticks == old(self)@.bus.ppu.ticks + 3 * (final(self)@.cycles
                - old(self)@.cycles),
            final(self)@.bus.ppu.skips >= old(self)@.bus.ppu.skips,
            final(self)@.bus.ppu.dot_positions == old(self)@.bus.ppu.dot_positions + (final(
            self)@.bus.ppu.ticks - old(self)@.bus.ppu.ticks) + (final(self)@.bus.ppu.skips - old(
            self)@.bus.ppu.skips),
    {
        let addr = self.resolve_write(m);
        let v = self.read_byte(addr);
        self.write_byte(addr, v);
        if v & 0x1 != 0 {
            self.status = self.status | 0x1;
        } else {
            self.status = self.status & 0xFE;
        }
        let nv = v / 2;
        self.write_byte(addr, nv);
        self.accumulator = self.accumulator ^ nv;
        self.set_zero_neg(self.accumulator);
    }

    /// Undocumented RRA.
    #[verifier::rlimit(60)]
    #[verifier::spinoff_prover]
    pub fn rra(&mut self, m: Mode)
        requires
            old(self)@.wf(),
        ensures
            final(self)@ == spec_rra(old(self)@, m),
            final(self)@.wf(),
            final(self)@.cycles >= old(self)@.cycles,
            final(self)@.bus.ppu.ticks == old(self)@.bus.ppu.ticks + 3 * (final(self)@.cycles
                - old(self)@.cycles),
            final(self)@.bus.ppu.skips >= old(self)@.bus.ppu.skips,
            final(self)@.bus.ppu.dot_positions == old(self)@.bus.ppu.dot_positions + (final(
            self)@.bus.ppu.ticks - old(self)@.bus.ppu.ticks) + (final(self)@.bus.ppu.skips - old(
            self)@.bus.ppu.skips),
    {
        let addr = self.resolve_write(m);
        let v = self.read_byte(addr);
        self.write_byte(addr, v);
        let nv = (v / 2 + (self.status % 2) * 0x80) as u8;
        if v & 0x1 != 0 {
            self.status = self.status | 0x1;
        } else {
            self.status = self.status & 0xFE;
        }
        self.write_byte(addr, nv);
        self.apply_adc(nv);
    }

    /// Undocumented DCP.
    #[verifier::rlimit(60)]
    #[verifier::spinoff_prover]
    pub fn dcp(&mut self, m: Mode)
        requires
            old(self)@.wf(),
        ensures
            final(self)@ == spec_dcp(old(self)@, m),
            final(self)@.wf(),
            final(self)@.cycles >= old(self)@.cycles,
            final(self)@.bus.ppu.ticks == old(self)@.bus.ppu.ticks + 3 * (final(self)@.cycles
                - old(self)@.cycles),
            final(self)@.bus.ppu.skips >= old(self)@.bus.ppu.skips,
            final(self)@.bus.ppu.dot_positions == old(self)@.bus.ppu.dot_positions + (final(
            self)@.bus.ppu.ticks - old(self)@.bus.ppu.ticks) + (final(self)@.bus.ppu.skips - old(
            self)@.bus.ppu.skips),
    {
        let addr = self.resolve_write(m);
        let v = self.read_byte(addr);
        self.write_byte(addr, v);
        let nv = ((v as u16 + 0xFF) % 0x100) as u8;
        self.write_byte(addr, nv);
        let a = self.accumulator;
        self.set_cmp_flags(a, nv);
    }

    /// Undocumented ISB.
    #[verifier::rlimit(60)]
    #[verifier::spinoff_prover]
    pub fn isb(&mut self, m: Mode)
        requires
            old(self)@.wf(),
        ensures
            final(self)@ == spec_isb(old(self)@, m),
            final(self)@.wf(),
            final(self)@.cycles >= old(self)@.cycles,
            final(self)@.bus.ppu.ticks == old(self)@.bus.ppu.ticks + 3 * (final(self)@.cycles
                - old(self)@.cycles),
            final(self)@.bus.ppu.skips >= old(self)@.bus.ppu.skips,
            final(self)@.bus.ppu.dot_positions == old(self)@.bus.ppu.dot_positions + (final(
            self)@.bus.ppu.ticks - old(self)@.bus.ppu.ticks) + (final(self)@.bus.ppu.skips - old(
            self)@.bus.ppu.skips),
    {
        let addr = self.resolve_write(m);
        let v = self.read_byte(addr);
        self.write_byte(addr, v);
        let nv = ((v as u16 + 1) % 0x100) as u8;
        self.write_byte(addr, nv);
        self.apply_sbc(nv);
    }

    /// A conditional branch, selected by the opcode's top three bits.
    #[verifier::rlimit(60)]
    #[verifier::spinoff_prover]
    pub fn do_branch(&mut self, aaa: u8)
        requires
            old(self)@.wf(),
        ensures
            final(self)@ == spec_branch(old(self)@, aaa),
            final(self)@.wf(),
            final(self)@.cycles >= old(self)@.cycles,
            final(self)@.bus.ppu.ticks == old(self)@.bus.ppu.ticks + 3 * (final(self)@.cycles
                - old(self)@.cycles),
            final(self)@.bus.ppu.skips >= old(self)@.bus.ppu.skips,
            final(self)@.bus.ppu.dot_positions == old(self)@.bus.ppu.dot_positions + (final(
            self)@.bus.ppu.ticks - old(self)@.bus.ppu.ticks) + (final(self)@.bus.ppu.skips - old(
            self)@.bus.ppu.skips),
    {
        let disp = self.fetch_byte();
        let taken = if aaa == 0 {
            self.status & 0x80 == 0
        } else if aaa == 1 {
            self.status & 0x80 != 0
        } else if aaa == 2 {
            self.status & 0x40 == 0
        } else if aaa == 3 {
            self.status & 0x40 != 0
        } else if aaa == 4 {
            self.status & 0x01 == 0
        } else if aaa == 5 {
            self.status & 0x01 != 0
        } else if aaa == 6 {
            self.status & 0x02 == 0
        } else {
            self.status & 0x02 != 0
        };
        if taken {
            let _ = self.read_byte(self.pc);
            let target: u16 = if disp < 0x80 {
                ((self.pc as u32 + disp as u32) % 0x10000) as u16
            } else {
                ((self.pc as u32 + disp as u32 + 0xFF00) % 0x10000) as u16
            };
            if target / 0x100 != self.pc / 0x100 {
                let wrong = (self.pc / 0x100) * 0x100 + target % 0x100;
                let _ = self.read_byte(wrong);
            }
            self.pc = target;
        }
    }

    /// A one-byte instruction: dummy read, then register work.
    #[verifier::rlimit(60)]
    #[verifier::spinoff_prover]
    pub fn implied(&mut self, op: u8)
        requires
            old(self)@.wf(),
        ensures
            final(self)@ == spec_implied(old(self)@, op),
            final(self)@.wf(),
            final(self)@.cycles >= old(self)@.cycles,
            final(self)@.bus.ppu.ticks == old(self)@.bus.ppu.ticks + 3 * (final(self)@.cycles
                - old(self)@.cycles),
            final(self)@.bus.ppu.skips >= old(self)@.bus.ppu.skips,
            final(self)@.bus.ppu.dot_positions == old(self)@.bus.ppu.dot_positions + (final(
            self)@.bus.ppu.ticks - old(self)@.bus.ppu.ticks) + (final(self)@.bus.ppu.skips - old(
            self)@.bus.ppu.skips),
    {
        let _ = self.read_byte(self.pc);
        if op == 0x18 {
            self.status = self.status & 0xFE;
        } else if op == 0x38 {
            self.status = self.status | 0x01;
        } else if op == 0x58 {
            self.status = self.status & 0xFB;
        } else if op == 0x78 {
            self.status = self.status | 0x04;
        } else if op == 0xB8 {
            self.status = self.status & 0xBF;
        } else if op == 0xD8 {
            self.status = self.status & 0xF7;
        } else if op == 0xF8 {
            self.status = self.status | 0x08;
        } else if op == 0xAA {
            self.x = self.accumulator;
            let v = self.x;
            self.set_zero_neg(v);
        } else if op == 0x8A {
            self.accumulator = self.x;
            let v = self.accumulator;
            self.set_zero_neg(v);
        } else if op == 0xA8 {
            self.y = self.accumulator;
            let v = self.y;
            self.set_zero_neg(v);
        } else if op == 0x98 {
            self.accumulator = self.y;
            let v = self.accumulator;
            self.set_zero_neg(v);
        } else if op == 0xBA {
            self.x = self.sp;
            let v = self.x;
            self.set_zero_neg(v);
        } else if op == 0x9A {
            self.sp = self.x;
        } else if op == 0xC8 {
            self.y = ((self.y as u16 + 1) % 0x100) as u8;
            let v = self.y;
            self.set_zero_neg(v);
        } else if op == 0xE8 {
            self.x = ((self.x as u16 + 1) % 0x100) as u8;
            let v = self.x;
            self.set_zero_neg(v);
        } else if op == 0x88 {
            self.y = ((self.y as u16 + 0xFF) % 0x100) as u8;
            let v = self.y;
            self.set_zero_neg(v);
        } else if op == 0xCA {
            self.x = ((self.x as u16 + 0xFF) % 0x100) as u8;
            let v = self.x;
            self.set_zero_neg(v);
        } else if op == 0x0A {
            let a = self.accumulator;
            if a & 0x80 != 0 {
                self.status = self.status | 0x1;
            } else {
                self.status = self.status & 0xFE;
            }
            self.accumulator = ((a as u16 * 2) % 0x100) as u8;
            let v = self.accumulator;
            self.set_zero_neg(v);
        } else if op == 0x4A {
            let a = self.accumulator;
            if a & 0x1 != 0 {
                self.status = self.status | 0x1;
            } else {
                self.status = self.status & 0xFE;
            }
            self.accumulator = a / 2;
            let v = self.accumulator;
            self.set_zero_neg(v);
        } else if op == 0x2A {
            let a = self.accumulator;
            let nv = (((a as u16 * 2) % 0x100) + (self.status % 2) as u16) as u8;
            if a & 0x80 != 0 {
                self.status = self.status | 0x1;
            } else {
                self.status = self.status & 0xFE;
            }
            self.accumulator = nv;
            self.set_zero_neg(nv);
        } else if op == 0x6A {
            let a = self.accumulator;
            let nv = (a / 2 + (self.status % 2) * 0x80) as u8;
            if a & 0x1 != 0 {
                self.status = self.status | 0x1;
            } else {
                self.status = self.status & 0xFE;
            }
            self.accumulator = nv;
            self.set_zero_neg(nv);
        }
    }

    /// PHP.
    #[verifier::rlimit(60)]
    #[verifier::spinoff_prover]
    pub fn php(&mut self)
        requires
            old(self)@.wf(),
        ensures
            final(self)@ == spec_php(old(self)@),
            final(self)@.wf(),
            final(self)@.cycles >= old(self)@.cycles,
            final(self)@.bus.ppu.ticks == old(self)@.bus.ppu.ticks + 3 * (final(self)@.cycles
                - old(self)@.cycles),
            final(self)@.bus.ppu.skips >= old(self)@.bus.ppu.skips,
            final(self)@.bus.ppu.dot_positions == old(self)@.bus.ppu.dot_positions + (final(
            self)@.bus.ppu.ticks - old(self)@.bus.ppu.ticks) + (final(self)@.bus.ppu.skips - old(
            self)@.bus.ppu.skips),
    {
        let _ = self.read_byte(self.pc);
        let v = self.status | 0x30;
        self.push_stack(v);
    }

    /// PHA.
    #[verifier::rlimit(60)]
    #[verifier::spinoff_prover]
    pub fn pha(&mut self)
        requires
            old(self)@.wf(),
        ensures
            final(self)@ == spec_pha(old(self)@),
            final(self)@.wf(),
            final(self)@.cycles >= old(self)@.cycles,
            final(self)@.bus.ppu.ticks == old(self)@.bus.ppu.ticks + 3 * (final(self)@.cycles
                - old(self)@.cycles),
            final(self)@.bus.ppu.skips >= old(self)@.bus.ppu.skips,
            final(self)@.bus.ppu.dot_positions == old(self)@.bus.ppu.dot_positions + (final(
            self)@.bus.ppu.ticks - old(self)@.bus.ppu.ticks) + (final(self)@.bus.ppu.skips - old(
            self)@.bus.ppu.skips),
    {
        let _ = self.read_byte(self.pc);
        let v = self.accumulator;
        self.push_stack(v);
    }

    /// PLP.
    #[verifier::rlimit(60)]
    #[verifier::spinoff_prover]
    pub fn plp(&mut self)
        requires
            old(self)@.wf(),
        ensures
            final(self)@ == spec_plp(old(self)@),
            final(self)@.wf(),
            final(self)@.cycles >= old(self)@.cycles,
            final(self)@.bus.ppu.ticks == old(self)@.bus.ppu.ticks + 3 * (final(self)@.cycles
                - old(self)@.cycles),
            final(self)@.bus.ppu.skips >= old(self)@.bus.ppu.skips,
            final(self)@.bus.ppu.dot_positions == old(self)@.bus.ppu.dot_positions + (final(
            self)@.bus.ppu.ticks - old(self)@.bus.ppu.ticks) + (final(self)@.bus.ppu.skips - old(
            self)@.bus.ppu.skips),
    {
        let _ = self.read_byte(self.pc);
        let _ = self.read_byte(0x100 + self.sp as u16);
        let v = self.pop_stack();
        self.status = (v | 0x20) & 0xEF;
    }

    /// PLA.
    #[verifier::rlimit(60)]
    #[verifier::spinoff_prover]
    pub fn pla(&mut self)
        requires
            old(self)@.wf(),
        ensures
            final(self)@ == spec_pla(old(self)@),
            final(self)@.wf(),
            final(self)@.cycles >= old(self)@.cycles,
            final(self)@.bus.ppu.ticks == old(self)@.bus.ppu.ticks + 3 * (final(self)@.cycles
                - old(self)@.cycles),
            final(self)@.bus.ppu.skips >= old(self)@.bus.ppu.skips,
            final(self)@.bus.ppu.dot_positions == old(self)@.bus.ppu.dot_positions + (final(
            self)@.bus.ppu.ticks - old(self)@.bus.ppu.ticks) + (final(self)@.bus.ppu.skips - old(
            self)@.bus.ppu.skips),
    {
        let _ = self.read_byte(self.pc);
        let _ = self.read_byte(0x100 + self.sp as u16);
        let v = self.pop_stack();
        self.accumulator = v;
        self.set_zero_neg(v);
    }

    /// JSR.
    #[verifier::rlimit(60)]
    #[verifier::spinoff_prover]
    pub fn jsr(&mut self)
        requires
            old(self)@.wf(),
        ensures
            final(self)@ == spec_jsr(old(self)@),
            final(self)@.wf(),
            final(self)@.cycles >= old(self)@.cycles,
            final(self)@.bus.ppu.ticks == old(self)@.bus.ppu.ticks + 3 * (final(self)@.cycles
                - old(self)@.cycles),
            final(self)@.bus.ppu.skips >= old(self)@.bus.ppu.skips,
            final(self)@.bus.ppu.dot_positions == old(self)@.bus.ppu.dot_positions + (final(
            self)@.bus.ppu.ticks - old(self)@.bus.ppu.ticks) + (final(self)@.bus.ppu.skips - old(
            self)@.bus.ppu.skips),
    {
        let lo = self.fetch_byte();
        let _ = self.read_byte(0x100 + self.sp as u16);
        let hi_pc = (self.pc / 0x100) as u8;
        self.push_stack(hi_pc);
        let lo_pc = (self.pc % 0x100) as u8;
        self.push_stack(lo_pc);
        let hi = self.fetch_byte();
        self.pc = (hi as u16) * 0x100 + lo as u16;
    }

    /// RTS.
    #[verifier::rlimit(60)]
    #[verifier::spinoff_prover]
    pub fn rts(&mut self)
        requires
            old(self)@.wf(),
        ensures
            final(self)@ == spec_rts(old(self)@),
            final(self)@.wf(),
            final(self)@.cycles >= old(self)@.cycles,
            final(self)@.bus.ppu.ticks == old(self)@.bus.ppu.ticks + 3 * (final(self)@.cycles
                - old(self)@.cycles),
            final(self)@.bus.ppu.skips >= old(self)@.bus.ppu.skips,
            final(self)@.bus.ppu.dot_positions == old(self)@.bus.ppu.dot_positions + (final(
            self)@.bus.ppu.ticks - old(self)@.bus.ppu.ticks) + (final(self)@.bus.ppu.skips - old(
            self)@.bus.ppu.skips),
    {
        let _ = self.read_byte(self.pc);
        let _ = self.read_byte(0x100 + self.sp as u16);
        let lo = self.pop_stack();
        let hi = self.pop_stack();
        self.pc = (hi as u16) * 0x100 + lo as u16;
        let _ = self.read_byte(self.pc);
        self.pc = ((self.pc as u32 + 1) % 0x10000) as u16;
    }

    /// RTI.
    #[verifier::rlimit(60)]
    #[verifier::spinoff_prover]
    pub fn rti(&mut self)
        requires
            old(self)@.wf(),
        ensures
            final(self)@ == spec_rti(old(self)@),
            final(self)@.wf(),
            final(self)@.cycles >= old(self)@.cycles,
            final(self)@.bus.ppu.ticks == old(self)@.bus.ppu.ticks + 3 * (final(self)@.cycles
                - old(self)@.cycles),
            final(self)@.bus.ppu.skips >= old(self)@.bus.ppu.skips,
            final(self)@.bus.ppu.dot_positions == old(self)@.bus.ppu.dot_positions + (final(
            self)@.bus.ppu.ticks - old(self)@.bus.ppu.ticks) + (final(self)@.bus.ppu.skips - old(
            self)@.bus.ppu.skips),
    {
        let _ = self.read_byte(self.pc);
        let _ = self.read_byte(0x100 + self.sp as u16);
        let p = self.pop_stack();
        self.status = (p | 0x20) & 0xEF;
        let lo = self.pop_stack();
        let hi = self.pop_stack();
        self.pc = (hi as u16) * 0x100 + lo as u16;
    }

    /// BRK.
    #[verifier::rlimit(60)]
    #[verifier::spinoff_prover]
    pub fn brk(&mut self)
        requires
            old(self)@.wf(),
        ensures
            final(self)@ == spec_brk(old(self)@),
            final(self)@.wf(),
            final(self)@.cycles >= old(self)@.cycles,
            final(self)@.bus.ppu.ticks == old(self)@.bus.ppu.ticks + 3 * (final(self)@.cycles
                - old(self)@.cycles),
            final(self)@.bus.ppu.skips >= old(self)@.bus.ppu.skips,
            final(self)@.bus.ppu.dot_positions == old(self)@.bus.ppu.dot_positions + (final(
            self)@.bus.ppu.ticks - old(self)@.bus.ppu.ticks) + (final(self)@.bus.ppu.skips - old(
            self)@.bus.ppu.skips),
    {
        let _ = self.fetch_byte();
        let hi_pc = (self.pc / 0x100) as u8;
        self.push_stack(hi_pc);
        let lo_pc = (self.pc % 0x100) as u8;
        self.push_stack(lo_pc);
        let p = self.status | 0x30;
        self.push_stack(p);
        self.status = self.status | 0x04;
        let lo = self.read_byte(0xFFFE);
        let hi = self.read_byte(0xFFFF);
        self.pc = (hi as u16) * 0x100 + lo as u16;
    }

    /// JMP absolute.
    #[verifier::rlimit(60)]
    #[verifier::spinoff_prover]
    pub fn jmp_abs(&mut self)
        requires
            old(self)@.wf(),
        ensures
            final(self)@ == spec_jmp_abs(old(self)@),
            final(self)@.wf(),
            final(self)@.cycles >= old(self)@.cycles,
            final(self)@.bus.ppu.ticks == old(self)@.bus.ppu.ticks + 3 * (final(self)@.cycles
                - old(self)@.cycles),
            final(self)@.bus.ppu.skips >= old(self)@.bus.ppu.skips,
            final(self)@.bus.ppu.dot_positions == old(self)@.bus.ppu.dot_positions + (final(
            self)@.bus.ppu.ticks - old(self)@.bus.ppu.ticks) + (final(self)@.bus.ppu.skips - old(
            self)@.bus.ppu.skips),
    {
        let w = self.fetch_word();
        self.pc = w;
    }

    /// JMP indirect, with the page-wrap defect.
    #[verifier::rlimit(60)]
    #[verifier::spinoff_prover]
    pub fn jmp_ind(&mut self)
        requires
            old(self)@.wf(),
        ensures
            final(self)@ == spec_jmp_ind(old(self)@),
            final(self)@.wf(),
            final(self)@.cycles >= old(self)@.cycles,
            final(self)@.bus.ppu.ticks == old(self)@.bus.ppu.ticks + 3 * (final(self)@.cycles
                - old(self)@.cycles),
            final(self)@.bus.ppu.skips >= old(self)@.bus.ppu.skips,
            final(self)@.bus.ppu.dot_positions == old(self)@.bus.ppu.dot_positions + (final(
            self)@.bus.ppu.ticks - old(self)@.bus.ppu.ticks) + (final(self)@.bus.ppu.skips - old(
            self)@.bus.ppu.skips),
    {
        let w = self.fetch_word();
        let lo = self.read_byte(w);
        let hi = if w % 0x100 == 0xFF {
            self.read_byte(w - 0xFF)
        } else {
            self.read_byte(w + 1)
        };
        self.pc = (hi as u16) * 0x100 + lo as u16;
    }

}


/// Accumulator OR with the operand, setting zero and negative.
pub open spec fn spec_ora(c: CpuModel, m: Mode) -> CpuModel {
    let r = spec_operand(c, m);
    let res = r.0.a | r.1;
    CpuModel { a: res, status: spec_zn(r.0.status, res), ..r.0 }
}

/// Accumulator AND with the operand, setting zero and negative.
pub open spec fn spec_and_m(c: CpuModel, m: Mode) -> CpuModel {
    let r = spec_operand(c, m);
    let res = r.0.a & r.1;
    CpuModel { a: res, status: spec_zn(r.0.status, res), ..r.0 }
}

/// Accumulator exclusive-OR with the operand, setting zero and negative.
pub open spec fn spec_eor(c: CpuModel, m: Mode) -> CpuModel {
    let r = spec_operand(c, m);
    let res = r.0.a ^ r.1;
    CpuModel { a: res, status: spec_zn(r.0.status, res), ..r.0 }
}

/// Add with carry applied to a value already in hand: carry out on an
/// unsigned sum above 0xFF, signed overflow when both addends share a sign
/// the result lacks, then zero and negative from the sum.
pub open spec fn spec_adc_val(c: CpuModel, v: u8) -> CpuModel {
    let carry = c.status % 2;
    let sum = c.a + v + carry;
    let st1 = if sum > 0xFF {
        c.status | 0x1
    } else {
        c.status & 0xFE
    };
    let res = (sum % 0x100) as u8;
    let st2 = spec_zn(st1, res);
    let st3 = if c.a & 0x80 == v & 0x80 && c.a & 0x80 != res & 0x80 {
        st2 | 0x40
    } else {
        st2 & 0xBF
    };
    CpuModel { a: res, status: st3, ..c }
}

/// Subtract with borrow applied to a value already in hand: carry kept
/// exactly when no borrow was needed, signed overflow from the complement
/// of the operand, then zero and negative from the difference.
pub open spec fn spec_sbc_val(c: CpuModel, v: u8) -> CpuModel {
    let carry = c.status % 2;
    let res = ((c.a + 0x200 - v - (1 - carry)) % 0x100) as u8;
    let st1 = if c.a >= v + (1 - carry) {
        c.status | 0x1
    } else {
        c.status & 0xFE
    };
    let st2 = if v & 0x80 != c.a & 0x80 && c.a & 0x80 != res & 0x80 {
        st1 | 0x40
    } else {
        st1 & 0xBF
    };
    let st3 = spec_zn(st2, res);
    CpuModel { a: res, status: st3, ..c }
}

/// ADC on a fetched operand.
pub open spec fn spec_adc_m(c: CpuModel, m: Mode) -> CpuModel {
    let r = spec_operand(c, m);
    spec_adc_val(r.0, r.1)
}

/// SBC on a fetched operand.
pub open spec fn spec_sbc_m(c: CpuModel, m: Mode) -> CpuModel {
    let r = spec_operand(c, m);
    spec_sbc_val(r.0, r.1)
}

/// Compare of the accumulator with the operand.
pub open spec fn spec_cmp_m(c: CpuModel, m: Mode) -> CpuModel {
    let r = spec_operand(c, m);
    CpuModel { status: spec_cmp(r.0.status, r.0.a, r.1), ..r.0 }
}

/// Compare of X with the operand.
pub open spec fn spec_cpx_m(c: CpuModel, m: Mode) -> CpuModel {
    let r = spec_operand(c, m);
    CpuModel { status: spec_cmp(r.0.status, r.0.x, r.1), ..r.0 }
}

/// Compare of Y with the operand.
pub open spec fn spec_cpy_m(c: CpuModel, m: Mode) -> CpuModel {
    let r = spec_operand(c, m);
    CpuModel { status: spec_cmp(r.0.status, r.0.y, r.1), ..r.0 }
}

/// Load of the accumulator, setting zero and negative.
pub open spec fn spec_lda(c: CpuModel, m: Mode) -> CpuModel {
    let r = spec_operand(c, m);
    CpuModel { a: r.1, status: spec_zn(r.0.status, r.1), ..r.0 }
}

/// Load of X, setting zero and negative.
pub open spec fn spec_ldx(c: CpuModel, m: Mode) -> CpuModel {
    let r = spec_operand(c, m);
    CpuModel { x: r.1, status: spec_zn(r.0.status, r.1), ..r.0 }
}

/// Load of Y, setting zero and negative.
pub open spec fn spec_ldy(c: CpuModel, m: Mode) -> CpuModel {
    let r = spec_operand(c, m);
    CpuModel { y: r.1, status: spec_zn(r.0.status, r.1), ..r.0 }
}

/// Combined load of the accumulator and X, setting zero and negative.
pub open spec fn spec_lax(c: CpuModel, m: Mode) -> CpuModel {
    let r = spec_operand(c, m);
    CpuModel { a: r.1, x: r.1, status: spec_zn(r.0.status, r.1), ..r.0 }
}

/// BIT: negative and overflow from the operand's top bits, zero from the
/// AND with the accumulator.
pub open spec fn spec_bit_m(c: CpuModel, m: Mode) -> CpuModel {
    let r = spec_operand(c, m);
    let s1 = if r.1 & 0x80 != 0 {
        r.0.status | 0x80
    } else {
        r.0.status & 0x7F
    };
    let s2 = if r.1 & 0x40 != 0 {
        s1 | 0x40
    } else {
        s1 & 0xBF
    };
    let s3 = if r.0.a & r.1 == 0 {
        s2 | 0x02
    } else {
        s2 & 0xFD
    };
    CpuModel { status: s3, ..r.0 }
}

/// A read that discards its operand: the timing of the undocumented NOPs.
pub open spec fn spec_nop_read(c: CpuModel, m: Mode) -> CpuModel {
    spec_operand(c, m).0
}

/// Store of the accumulator.
pub open spec fn spec_sta(c: CpuModel, m: Mode) -> CpuModel {
    let r = spec_resolve_write(c, m);
    spec_write_byte(r.0, r.1, r.0.a)
}

/// Store of X.
pub open spec fn spec_stx(c: CpuModel, m: Mode) -> CpuModel {
    let r = spec_resolve_write(c, m);
    spec_write_byte(r.0, r.1, r.0.x)
}

/// Store of Y.
pub open spec fn spec_sty(c: CpuModel, m: Mode) -> CpuModel {
    let r = spec_resolve_write(c, m);
    spec_write_byte(r.0, r.1, r.0.y)
}

/// Store of the accumulator AND X (undocumented SAX).
pub open spec fn spec_sax(c: CpuModel, m: Mode) -> CpuModel {
    let r = spec_resolve_write(c, m);
    spec_write_byte(r.0, r.1, r.0.a & r.0.x)
}

/// A resolution followed by a discarded read: the timing stand-in for the
/// unstable store-class opcodes.
pub open spec fn spec_nop_write(c: CpuModel, m: Mode) -> CpuModel {
    let r = spec_resolve_write(c, m);
    spec_read_byte(r.0, r.1).0
}

/// Arithmetic shift left in memory: read, write back the old value, then
/// write the shifted value; carry from bit 7, zero and negative from the
/// result.
pub open spec fn spec_asl_m(c: CpuModel, m: Mode) -> CpuModel {
    let r = spec_resolve_write(c, m);
    let rv = spec_read_byte(r.0, r.1);
    let c2 = spec_write_byte(rv.0, r.1, rv.1);
    let st1 = if rv.1 & 0x80 != 0 {
        c2.status | 0x1
    } else {
        c2.status & 0xFE
    };
    let nv = ((rv.1 * 2) % 0x100) as u8;
    let st2 = spec_zn(st1, nv);
    spec_write_byte(CpuModel { status: st2, ..c2 }, r.1, nv)
}

/// Logical shift right in memory; carry from bit 0.
pub open spec fn spec_lsr_m(c: CpuModel, m: Mode) -> CpuModel {
    let r = spec_resolve_write(c, m);
    let rv = spec_read_byte(r.0, r.1);
    let c2 = spec_write_byte(rv.0, r.1, rv.1);
    let st1 = if rv.1 & 0x1 != 0 {
        c2.status | 0x1
    } else {
        c2.status & 0xFE
    };
    let nv = rv.1 / 2;
    let st2 = spec_zn(st1, nv);
    spec_write_byte(CpuModel { status: st2, ..c2 }, r.1, nv)
}

/// Rotate left in memory: the old carry enters bit 0 and bit 7 leaves into
/// the carry.
pub open spec fn spec_rol_m(c: CpuModel, m: Mode) -> CpuModel {
    let r = spec_resolve_write(c, m);
    let rv = spec_read_byte(r.0, r.1);
    let c2 = spec_write_byte(rv.0, r.1, rv.1);
    let nv = (((rv.1 * 2) % 0x100) + (c2.status % 2)) as u8;
    let st1 = if rv.1 & 0x80 != 0 {
        c2.status | 0x1
    } else {
        c2.status & 0xFE
    };
    let st2 = spec_zn(st1, nv);
    spec_write_byte(CpuModel { status: st2, ..c2 }, r.1, nv)
}

/// Rotate right in memory: the old carry enters bit 7 and bit 0 leaves
/// into the carry.
pub open spec fn spec_ror_m(c: CpuModel, m: Mode) -> CpuModel {
    let r = spec_resolve_write(c, m);
    let rv = spec_read_byte(r.0, r.1);
    let c2 = spec_write_byte(rv.0, r.1, rv.1);
    let nv = (rv.1 / 2 + (c2.status % 2) * 0x80) as u8;
    let st1 = if rv.1 & 0x1 != 0 {
        c2.status | 0x1
    } else {
        c2.status & 0xFE
    };
    let st2 = spec_zn(st1, nv);
    spec_write_byte(CpuModel { status: st2, ..c2 }, r.1, nv)
}

/// Increment in memory, setting zero and negative.
pub open spec fn spec_inc_m(c: CpuModel, m: Mode) -> CpuModel {
    let r = spec_resolve_write(c, m);
    let rv = spec_read_byte(r.0, r.1);
    let c2 = spec_write_byte(rv.0, r.1, rv.1);
    let nv = ((rv.1 + 1) % 0x100) as u8;
    let st2 = spec_zn(c2.status, nv);
    spec_write_byte(CpuModel { status: st2, ..c2 }, r.1, nv)
}

/// Decrement in memory, setting zero and negative.
pub open spec fn spec_dec_m(c: CpuModel, m: Mode) -> CpuModel {
    let r = spec_resolve_write(c, m);
    let rv = spec_read_byte(r.0, r.1);
    let c2 = spec_write_byte(rv.0, r.1, rv.1);
    let nv = ((rv.1 + 0xFF) % 0x100) as u8;
    let st2 = spec_zn(c2.status, nv);
    spec_write_byte(CpuModel { status: st2, ..c2 }, r.1, nv)
}

/// Undocumented SLO: shift left in memory, then OR the accumulator with
/// the result.
pub open spec fn spec_slo(c: CpuModel, m: Mode) -> CpuModel {
    let r = spec_resolve_write(c, m);
    let rv = spec_read_byte(r.0, r.1);
    let c2 = spec_write_byte(rv.0, r.1, rv.1);
    let st1 = if rv.1 & 0x80 != 0 {
        c2.status | 0x1
    } else {
        c2.status & 0xFE
    };
    let nv = ((rv.1 * 2) % 0x100) as u8;
    let c3 = spec_write_byte(CpuModel { status: st1, ..c2 }, r.1, nv);
    let res = c3.a | nv;
    CpuModel { a: res, status: spec_zn(c3.status, res), ..c3 }
}

/// Undocumented RLA: rotate left in memory, then AND the accumulator with
/// the result.
pub open spec fn spec_rla(c: CpuModel, m: Mode) -> CpuModel {
    let r = spec_resolve_write(c, m);
    let rv = spec_read_byte(r.0, r.1);
    let c2 = spec_write_byte(rv.0, r.1, rv.1);
    let nv = (((rv.1 * 2) % 0x100) + (c2.status % 2)) as u8;
    let st1 = if rv.1 & 0x80 != 0 {
        c2.status | 0x1
    } else {
        c2.status & 0xFE
    };
    let c3 = spec_write_byte(CpuModel { status: st1, ..c2 }, r.1, nv);
    let res = c3.a & nv;
    CpuModel { a: res, status: spec_zn(c3.status, res), ..c3 }
}

/// Undocumented SRE: shift right in memory, then exclusive-OR the
/// accumulator with the result.
pub open spec fn spec_sre(c: CpuModel, m: Mode) -> CpuModel {
    let r = spec_resolve_write(c, m);
    let rv = spec_read_byte(r.0, r.1);
    let c2 = spec_write_byte(rv.0, r.1, rv.1);
    let st1 = if rv.1 & 0x1 != 0 {
        c2.status | 0x1
    } else {
        c2.status & 0xFE
    };
    let nv = rv.1 / 2;
    let c3 = spec_write_byte(CpuModel { status: st1, ..c2 }, r.1, nv);
    let res = c3.a ^ nv;
    CpuModel { a: res, status: spec_zn(c3.status, res), ..c3 }
}

/// Undocumented RRA: rotate right in memory, then add the result to the
/// accumulator with the rotate's carry out.
pub open spec fn spec_rra(c: CpuModel, m: Mode) -> CpuModel {
    let r = spec_resolve_write(c, m);
    let rv = spec_read_byte(r.0, r.1);
    let c2 = spec_write_byte(rv.0, r.1, rv.1);
    let nv = (rv.1 / 2 + (c2.status % 2) * 0x80) as u8;
    let st1 = if rv.1 & 0x1 != 0 {
        c2.status | 0x1
    } else {
        c2.status & 0xFE
    };
    let c3 = spec_write_byte(CpuModel { status: st1, ..c2 }, r.1, nv);
    spec_adc_val(c3, nv)
}

/// Undocumented DCP: decrement in memory, then compare the accumulator
/// with the result.
pub open spec fn spec_dcp(c: CpuModel, m: Mode) -> CpuModel {
    let r = spec_resolve_write(c, m);
    let rv = spec_read_byte(r.0, r.1);
    let c2 = spec_write_byte(rv.0, r.1, rv.1);
    let nv = ((rv.1 + 0xFF) % 0x100) as u8;
    let c3 = spec_write_byte(c2, r.1, nv);
    CpuModel { status: spec_cmp(c3.status, c3.a, nv), ..c3 }
}

/// Undocumented ISB: increment in memory, then subtract the result from
/// the accumulator with borrow.
pub open spec fn spec_isb(c: CpuModel, m: Mode) -> CpuModel {
    let r = spec_resolve_write(c, m);
    let rv = spec_read_byte(r.0, r.1);
    let c2 = spec_write_byte(rv.0, r.1, rv.1);
    let nv = ((rv.1 + 1) % 0x100) as u8;
    let c3 = spec_write_byte(c2, r.1, nv);
    spec_sbc_val(c3, nv)
}

/// Whether the branch selected by the opcode's top three bits is taken,
/// given the status byte: the pairs test N, V, C and Z, clear first.
pub open spec fn spec_branch_cond(st: u8, aaa: u8) -> bool {
    if aaa == 0 {
        st & 0x80 == 0
    } else if aaa == 1 {
        st & 0x80 != 0
    } else if aaa == 2 {
        st & 0x40 == 0
    } else if aaa == 3 {
        st & 0x40 != 0
    } else if aaa == 4 {
        st & 0x01 == 0
    } else if aaa == 5 {
        st & 0x01 != 0
    } else if aaa == 6 {
        st & 0x02 == 0
    } else {
        st & 0x02 != 0
    }
}

/// A branch: the displacement is fetched (two cycles with the opcode); a
/// taken branch costs a dummy read, and a page crossing costs another at
/// the partially-carried address, before PC moves by the signed
/// displacement.
pub open spec fn spec_branch(c: CpuModel, aaa: u8) -> CpuModel {
    let r = spec_fetch_byte(c);
    let c1 = r.0;
    let disp = r.1;
    if spec_branch_cond(c1.status, aaa) {
        let c2 = spec_read_byte(c1, c1.pc).0;
        let target = if disp < 0x80 {
            ((c2.pc + disp) % 0x10000) as u16
        } else {
            ((c2.pc + disp + 0xFF00) % 0x10000) as u16
        };
        let c3 = if target / 0x100 != c2.pc / 0x100 {
            spec_read_byte(c2, ((c2.pc / 0x100) * 0x100 + target % 0x100) as u16).0
        } else {
            c2
        };
        CpuModel { pc: target, ..c3 }
    } else {
        c1
    }
}

/// The register-only work of a one-byte instruction, by opcode: flag sets
/// and clears, register transfers, register increments and decrements, the
/// accumulator shifts and rotates, and NOP.
pub open spec fn spec_implied_effect(c: CpuModel, op: u8) -> CpuModel {
    if op == 0x18 {
        CpuModel { status: c.status & 0xFE, ..c }
    } else if op == 0x38 {
        CpuModel { status: c.status | 0x01, ..c }
    } else if op == 0x58 {
        CpuModel { status: c.status & 0xFB, ..c }
    } else if op == 0x78 {
        CpuModel { status: c.status | 0x04, ..c }
    } else if op == 0xB8 {
        CpuModel { status: c.status & 0xBF, ..c }
    } else if op == 0xD8 {
        CpuModel { status: c.status & 0xF7, ..c }
    } else if op == 0xF8 {
        CpuModel { status: c.status | 0x08, ..c }
    } else if op == 0xAA {
        CpuModel { x: c.a, status: spec_zn(c.status, c.a), ..c }
    } else if op == 0x8A {
        CpuModel { a: c.x, status: spec_zn(c.status, c.x), ..c }
    } else if op == 0xA8 {
        CpuModel { y: c.a, status: spec_zn(c.status, c.a), ..c }
    } else if op == 0x98 {
        CpuModel { a: c.y, status: spec_zn(c.status, c.y), ..c }
    } else if op == 0xBA {
        CpuModel { x: c.sp, status: spec_zn(c.status, c.sp), ..c }
    } else if op == 0x9A {
        CpuModel { sp: c.x, ..c }
    } else if op == 0xC8 {
        let nv = ((c.y + 1) % 0x100) as u8;
        CpuModel { y: nv, status: spec_zn(c.status, nv), ..c }
    } else if op == 0xE8 {
        let nv = ((c.x + 1) % 0x100) as u8;
        CpuModel { x: nv, status: spec_zn(c.status, nv), ..c }
    } else if op == 0x88 {
        let nv = ((c.y + 0xFF) % 0x100) as u8;
        CpuModel { y: nv, status: spec_zn(c.status, nv), ..c }
    } else if op == 0xCA {
        let nv = ((c.x + 0xFF) % 0x100) as u8;
        CpuModel { x: nv, status: spec_zn(c.status, nv), ..c }
    } else if op == 0x0A {
        let st1 = if c.a & 0x80 != 0 {
            c.status | 0x1
        } else {
            c.status & 0xFE
        };
        let nv = ((c.a * 2) % 0x100) as u8;
        CpuModel { a: nv, status: spec_zn(st1, nv), ..c }
    } else if op == 0x4A {
        let st1 = if c.a & 0x1 != 0 {
            c.status | 0x1
        } else {
            c.status & 0xFE
        };
        let nv = c.a / 2;
        CpuModel { a: nv, status: spec_zn(st1, nv), ..c }
    } else if op == 0x2A {
        let nv = (((c.a * 2) % 0x100) + (c.status % 2)) as u8;
        let st1 = if c.a & 0x80 != 0 {
            c.status | 0x1
        } else {
            c.status & 0xFE
        };
        CpuModel { a: nv, status: spec_zn(st1, nv), ..c }
    } else if op == 0x6A {
        let nv = (c.a / 2 + (c.status % 2) * 0x80) as u8;
        let st1 = if c.a & 0x1 != 0 {
            c.status | 0x1
        } else {
            c.status & 0xFE
        };
        CpuModel { a: nv, status: spec_zn(st1, nv), ..c }
    } else {
        c
    }
}

/// A one-byte instruction: the dummy read at PC that every such
/// instruction spends its second cycle on, then the register work.
pub open spec fn spec_implied(c: CpuModel, op: u8) -> CpuModel {
    let c1 = spec_read_byte(c, c.pc).0;
    spec_implied_effect(c1, op)
}

/// PHP: a dummy read, then the status byte pushed with B and bit 5 set.
pub open spec fn spec_php(c: CpuModel) -> CpuModel {
    let c1 = spec_read_byte(c, c.pc).0;
    crate::cpu::spec_push_poll(c1, c1.status | 0x30)
}

/// PHA: a dummy read, then the accumulator pushed.
pub open spec fn spec_pha(c: CpuModel) -> CpuModel {
    let c1 = spec_read_byte(c, c.pc).0;
    crate::cpu::spec_push_poll(c1, c1.a)
}

/// PLP: two dummy reads, then the pulled byte becomes the status with B
/// cleared and bit 5 forced.
pub open spec fn spec_plp(c: CpuModel) -> CpuModel {
    let c1 = spec_read_byte(c, c.pc).0;
    let c2 = spec_read_byte(c1, (0x100 + c1.sp) as u16).0;
    let r = crate::cpu::spec_pull_poll(c2);
    CpuModel { status: (r.1 | 0x20) & 0xEF, ..r.0 }
}

/// PLA: two dummy reads, then the pulled byte becomes the accumulator,
/// setting zero and negative.
pub open spec fn spec_pla(c: CpuModel) -> CpuModel {
    let c1 = spec_read_byte(c, c.pc).0;
    let c2 = spec_read_byte(c1, (0x100 + c1.sp) as u16).0;
    let r = crate::cpu::spec_pull_poll(c2);
    CpuModel { a: r.1, status: spec_zn(r.0.status, r.1), ..r.0 }
}

/// JSR: the target low byte is fetched, a dummy stack read passes, the
/// address of the target's high byte is pushed, and the high byte fetch
/// completes the jump.
pub open spec fn spec_jsr(c: CpuModel) -> CpuModel {
    let r1 = spec_fetch_byte(c);
    let c1 = spec_read_byte(r1.0, (0x100 + r1.0.sp) as u16).0;
    let c2 = crate::cpu::spec_push_poll(c1, (c1.pc / 0x100) as u8);
    let c3 = crate::cpu::spec_push_poll(c2, (c2.pc % 0x100) as u8);
    let r4 = spec_fetch_byte(c3);
    CpuModel { pc: (r4.1 * 0x100 + r1.1) as u16, ..r4.0 }
}

/// RTS: two dummy reads, the return address is pulled low byte first, a
/// third dummy read passes at it, and PC steps past it.
pub open spec fn spec_rts(c: CpuModel) -> CpuModel {
    let c1 = spec_read_byte(c, c.pc).0;
    let c2 = spec_read_byte(c1, (0x100 + c1.sp) as u16).0;
    let lo = crate::cpu::spec_pull_poll(c2);
    let hi = crate::cpu::spec_pull_poll(lo.0);
    let c3 = CpuModel { pc: (hi.1 * 0x100 + lo.1) as u16, ..hi.0 };
    let c4 = spec_read_byte(c3, c3.pc).0;
    CpuModel { pc: ((c4.pc + 1) % 0x10000) as u16, ..c4 }
}

/// RTI: two dummy reads, the status is pulled (B cleared, bit 5 forced),
/// then the return address, low byte first.
pub open spec fn spec_rti(c: CpuModel) -> CpuModel {
    let c1 = spec_read_byte(c, c.pc).0;
    let c2 = spec_read_byte(c1, (0x100 + c1.sp) as u16).0;
    let p = crate::cpu::spec_pull_poll(c2);
    let c3 = CpuModel { status: (p.1 | 0x20) & 0xEF, ..p.0 };
    let lo = crate::cpu::spec_pull_poll(c3);
    let hi = crate::cpu::spec_pull_poll(lo.0);
    CpuModel { pc: (hi.1 * 0x100 + lo.1) as u16, ..hi.0 }
}

/// BRK: the padding byte is consumed, PCH, PCL and the status with B set
/// are pushed, interrupts are disabled, and PC loads from 0xFFFE/0xFFFF.
pub open spec fn spec_brk(c: CpuModel) -> CpuModel {
    let r = spec_fetch_byte(c);
    let c1 = crate::cpu::spec_push_poll(r.0, (r.0.pc / 0x100) as u8);
    let c2 = crate::cpu::spec_push_poll(c1, (c1.pc % 0x100) as u8);
    let c3 = crate::cpu::spec_push_poll(c2, c2.status | 0x30);
    let c4 = CpuModel { status: c3.status | 0x04, ..c3 };
    let lo = spec_read_byte(c4, 0xFFFE);
    let hi = spec_read_byte(lo.0, 0xFFFF);
    CpuModel { pc: (hi.1 * 0x100 + lo.1) as u16, ..hi.0 }
}

/// JMP absolute.
pub open spec fn spec_jmp_abs(c: CpuModel) -> CpuModel {
    let r = spec_fetch_word(c);
    CpuModel { pc: r.1, ..r.0 }
}

/// JMP indirect, with the page-wrap defect: when the pointer's low byte is
/// 0xFF the high byte of the target comes from the start of the same page.
pub open spec fn spec_jmp_ind(c: CpuModel) -> CpuModel {
    let r = spec_fetch_word(c);
    let lo = spec_read_byte(r.0, r.1);
    let hi = if r.1 % 0x100 == 0xFF {
        spec_read_byte(lo.0, (r.1 - 0xFF) as u16)
    } else {
        spec_read_byte(lo.0, (r.1 + 1) as u16)
    };
    CpuModel { pc: (hi.1 * 0x100 + lo.1) as u16, ..hi.0 }
}


} // verus!
