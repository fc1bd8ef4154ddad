//! The opcode decoder: one call of `decode` fetches the byte at PC and
//! runs one whole instruction, with every one of the 256 opcode values
//! accounted for. The 151 documented instructions and the common
//! undocumented ones (SLO, RLA, SRE, RRA, SAX, LAX, DCP, ISB, the extra
//! NOPs, and SBC 0xEB) execute; the unstable ones run as NOPs with their
//! addressing mode's cycle pattern; the twelve halt opcodes are refused
//! with an error naming the opcode and its address.

use vstd::prelude::*;
use crate::cpu::{CPU, CpuModel, spec_clock_ok, spec_fetch_byte};
use crate::cpu_instr::{
    Mode, spec_adc_m, spec_and_m, spec_asl_m, spec_bit_m, spec_branch, spec_brk, spec_cmp_m,
    spec_cpx_m, spec_cpy_m, spec_dcp, spec_dec_m, spec_eor, spec_implied, spec_inc_m, spec_isb,
    spec_jmp_abs, spec_jmp_ind, spec_jsr, spec_lax, spec_lda, spec_ldx, spec_ldy, spec_lsr_m,
    spec_nop_read, spec_nop_write, spec_ora, spec_pha, spec_php, spec_pla, spec_plp, spec_rla,
    spec_rol_m, spec_ror_m, spec_rra, spec_rti, spec_rts, spec_sax, spec_sbc_m, spec_slo,
    spec_sre, spec_sta, spec_stx, spec_sty,
};

verus! {

/// The fatal decoder error: an opcode none of the 244 accepted encodings
/// covers, together with the address it was fetched from.
#[derive(Debug, Clone, Copy, PartialEq, Eq)]
pub struct DecodeError {
    pub opcode: u8,
    pub pc: u16,
}

/// The twelve opcodes that halt a real 6502; the decoder refuses them.
pub open spec fn spec_jam(op: u8) -> bool {
    op == 0x02 || op == 0x12 || op == 0x22 || op == 0x32 || op == 0x42 || op == 0x52 || op == 0x62
        || op == 0x72 || op == 0x92 || op == 0xB2 || op == 0xD2 || op == 0xF2
}

/// Addressing mode of the ALU block (opcodes with low bits 01), selected
/// by bits 4-2.
pub open spec fn spec_mode1(bbb: u8) -> Mode {
    if bbb == 0 {
        Mode::IndexedIndirect
    } else if bbb == 1 {
        Mode::ZeroPage
    } else if bbb == 2 {
        Mode::Immediate
    } else if bbb == 3 {
        Mode::Absolute
    } else if bbb == 4 {
        Mode::IndirectIndexed
    } else if bbb == 5 {
        Mode::ZeroPageX
    } else if bbb == 6 {
        Mode::AbsoluteY
    } else {
        Mode::AbsoluteX
    }
}

/// Addressing mode of the shift/load block (low bits 10): the X-indexed
/// modes become Y-indexed for STX and LDX.
pub open spec fn spec_mode2(bbb: u8, aaa: u8) -> Mode {
    if bbb == 0 {
        Mode::Immediate
    } else if bbb == 1 {
        Mode::ZeroPage
    } else if bbb == 3 {
        Mode::Absolute
    } else if bbb == 5 {
        if aaa == 4 || aaa == 5 {
            Mode::ZeroPageY
        } else {
            Mode::ZeroPageX
        }
    } else {
        if aaa == 5 {
            Mode::AbsoluteY
        } else {
            Mode::AbsoluteX
        }
    }
}

/// Addressing mode of the control block (low bits 00).
pub open spec fn spec_mode0(bbb: u8) -> Mode {
    if bbb == 0 {
        Mode::Immediate
    } else if bbb == 1 {
        Mode::ZeroPage
    } else if bbb == 3 {
        Mode::Absolute
    } else if bbb == 5 {
        Mode::ZeroPageX
    } else {
        Mode::AbsoluteX
    }
}

/// Addressing mode of the undocumented block (low bits 11): as the ALU
/// block, with Y-indexing for SAX and LAX.
pub open spec fn spec_mode3(bbb: u8, aaa: u8) -> Mode {
    if bbb == 5 {
        if aaa == 4 || aaa == 5 {
            Mode::ZeroPageY
        } else {
            Mode::ZeroPageX
        }
    } else if bbb == 7 {
        if aaa == 5 {
            Mode::AbsoluteY
        } else {
            Mode::AbsoluteX
        }
    } else {
        spec_mode1(bbb)
    }
}

/// The ALU block, dispatched on bits 7-5.
pub open spec fn spec_exec_cc1(c: CpuModel, op: u8) -> CpuModel {
    let aaa = op / 32;
    let m = spec_mode1((op / 4) % 8);
    if aaa == 0 {
        spec_ora(c, m)
    } else if aaa == 1 {
        spec_and_m(c, m)
    } else if aaa == 2 {
        spec_eor(c, m)
    } else if aaa == 3 {
        spec_adc_m(c, m)
    } else if aaa == 4 {
        spec_sta(c, m)
    } else if aaa == 5 {
        spec_lda(c, m)
    } else if aaa == 6 {
        spec_cmp_m(c, m)
    } else {
        spec_sbc_m(c, m)
    }
}

/// The shift/load block, dispatched on bits 7-5.
pub open spec fn spec_exec_cc2(c: CpuModel, op: u8) -> CpuModel {
    let aaa = op / 32;
    let m = spec_mode2((op / 4) % 8, aaa);
    if aaa == 0 {
        spec_asl_m(c, m)
    } else if aaa == 1 {
        spec_rol_m(c, m)
    } else if aaa == 2 {
        spec_lsr_m(c, m)
    } else if aaa == 3 {
        spec_ror_m(c, m)
    } else if aaa == 4 {
        spec_stx(c, m)
    } else if aaa == 5 {
        spec_ldx(c, m)
    } else if aaa == 6 {
        spec_dec_m(c, m)
    } else {
        spec_inc_m(c, m)
    }
}

/// The control block remainder: BIT, STY, LDY, CPY and CPX.
pub open spec fn spec_exec_cc0(c: CpuModel, op: u8) -> CpuModel {
    let aaa = op / 32;
    let m = spec_mode0((op / 4) % 8);
    if aaa == 1 {
        spec_bit_m(c, m)
    } else if aaa == 4 {
        spec_sty(c, m)
    } else if aaa == 5 {
        spec_ldy(c, m)
    } else if aaa == 6 {
        spec_cpy_m(c, m)
    } else if aaa == 7 {
        spec_cpx_m(c, m)
    } else {
        c
    }
}

/// The undocumented block, dispatched on bits 7-5.
pub open spec fn spec_exec_cc3(c: CpuModel, op: u8) -> CpuModel {
    let aaa = op / 32;
    let m = spec_mode3((op / 4) % 8, aaa);
    if aaa == 0 {
        spec_slo(c, m)
    } else if aaa == 1 {
        spec_rla(c, m)
    } else if aaa == 2 {
        spec_sre(c, m)
    } else if aaa == 3 {
        spec_rra(c, m)
    } else if aaa == 4 {
        spec_sax(c, m)
    } else if aaa == 5 {
        spec_lax(c, m)
    } else if aaa == 6 {
        spec_dcp(c, m)
    } else {
        spec_isb(c, m)
    }
}

/// Execution of one fetched (non-halt) opcode: branches first, then the
/// individually-encoded instructions and the NOP families, then the four
/// regular blocks. Opaque so that reasoning about one opcode's dispatch
/// does not expand every arm; proofs reveal it.
#[verifier::opaque]
pub open spec fn spec_exec_op(c: CpuModel, op: u8) -> CpuModel {
    if op % 0x20 == 0x10 {
        spec_branch(c, op / 32)
    } else if op == 0x00 {
        spec_brk(c)
    } else if op == 0x20 {
        spec_jsr(c)
    } else if op == 0x40 {
        spec_rti(c)
    } else if op == 0x60 {
        spec_rts(c)
    } else if op == 0x08 {
        spec_php(c)
    } else if op == 0x28 {
        spec_plp(c)
    } else if op == 0x48 {
        spec_pha(c)
    } else if op == 0x68 {
        spec_pla(c)
    } else if op == 0x4C {
        spec_jmp_abs(c)
    } else if op == 0x6C {
        spec_jmp_ind(c)
    } else if op == 0xEB {
        spec_sbc_m(c, Mode::Immediate)
    } else if op == 0x18 || op == 0x38 || op == 0x58 || op == 0x78 || op == 0xB8 || op == 0xD8
        || op == 0xF8 || op == 0xAA || op == 0x8A || op == 0xA8 || op == 0x98 || op == 0xBA || op
        == 0x9A || op == 0xC8 || op == 0xE8 || op == 0x88 || op == 0xCA || op == 0xEA || op == 0x1A
        || op == 0x3A || op == 0x5A || op == 0x7A || op == 0xDA || op == 0xFA || op == 0x0A || op
        == 0x2A || op == 0x4A || op == 0x6A {
        spec_implied(c, op)
    } else if op == 0x80 || op == 0x82 || op == 0x89 || op == 0xC2 || op == 0xE2 || op == 0x0B
        || op == 0x2B || op == 0x4B || op == 0x6B || op == 0x8B || op == 0xAB || op == 0xCB {
        spec_nop_read(c, Mode::Immediate)
    } else if op == 0x04 || op == 0x44 || op == 0x64 {
        spec_nop_read(c, Mode::ZeroPage)
    } else if op == 0x14 || op == 0x34 || op == 0x54 || op == 0x74 || op == 0xD4 || op == 0xF4 {
        spec_nop_read(c, Mode::ZeroPageX)
    } else if op == 0x0C {
        spec_nop_read(c, Mode::Absolute)
    } else if op == 0x1C || op == 0x3C || op == 0x5C || op == 0x7C || op == 0xDC || op == 0xFC {
        spec_nop_read(c, Mode::AbsoluteX)
    } else if op == 0xBB {
        spec_nop_read(c, Mode::AbsoluteY)
    } else if op == 0x9C {
        spec_nop_write(c, Mode::AbsoluteX)
    } else if op == 0x9E || op == 0x9B || op == 0x9F {
        spec_nop_write(c, Mode::AbsoluteY)
    } else if op == 0x93 {
        spec_nop_write(c, Mode::IndirectIndexed)
    } else if op % 4 == 1 {
        spec_exec_cc1(c, op)
    } else if op % 4 == 2 {
        spec_exec_cc2(c, op)
    } else if op % 4 == 0 {
        spec_exec_cc0(c, op)
    } else {
        spec_exec_cc3(c, op)
    }
}

/// One whole decode step: the opcode fetch, then either the halt error or
/// the instruction's execution.
pub open spec fn spec_decode(c: CpuModel) -> (CpuModel, Option<DecodeError>) {
    let f = spec_fetch_byte(c);
    if spec_jam(f.1) {
        (f.0, Some(DecodeError { opcode: f.1, pc: c.pc }))
    } else {
        (spec_exec_op(f.0, f.1), None)
    }
}

impl CPU {
    /// Runs an ALU-block opcode (low bits 01).
    #[verifier::rlimit(80)]
    #[verifier::spinoff_prover]
    fn exec_cc1(&mut self, op: u8)
        requires
            old(self)@.wf(),
        ensures
            final(self)@ == spec_exec_cc1(old(self)@, op),
            final(self)@.wf(),
            final(self)@.cycles >= old(self)@.cycles,
            final(self)@.bus.ppu.ticks == old(self)@.bus.ppu.ticks + 3 * (final(self)@.cycles
                - old(self)@.cycles),
            final(self)@.bus.ppu.skips >= old(self)@.bus.ppu.skips,
            final(self)@.bus.ppu.dot_positions == old(self)@.bus.ppu.dot_positions + (final(
            self)@.bus.ppu.ticks - old(self)@.bus.ppu.ticks) + (final(self)@.bus.ppu.skips - old(
            self)@.bus.ppu.skips),
    {
        let aaa = op / 32;
        let bbb = (op / 4) % 8;
            let m = if bbb == 0 {
                Mode::IndexedIndirect
            } else if bbb == 1 {
                Mode::ZeroPage
            } else if bbb == 2 {
                Mode::Immediate
            } else if bbb == 3 {
                Mode::Absolute
            } else if bbb == 4 {
                Mode::IndirectIndexed
            } else if bbb == 5 {
                Mode::ZeroPageX
            } else if bbb == 6 {
                Mode::AbsoluteY
            } else {
                Mode::AbsoluteX
            };
            if aaa == 0 {
                self.ora(m);
            } else if aaa == 1 {
                self.and_m(m);
            } else if aaa == 2 {
                self.eor(m);
            } else if aaa == 3 {
                self.adc_m(m);
            } else if aaa == 4 {
                self.sta(m);
            } else if aaa == 5 {
                self.lda(m);
            } else if aaa == 6 {
                self.cmp_m(m);
            } else {
                self.sbc_m(m);
            }
    }

    /// Runs a shift/load-block opcode (low bits 10).
    #[verifier::rlimit(80)]
    #[verifier::spinoff_prover]
    fn exec_cc2(&mut self, op: u8)
        requires
            old(self)@.wf(),
        ensures
            final(self)@ == spec_exec_cc2(old(self)@, op),
            final(self)@.wf(),
            final(self)@.cycles >= old(self)@.cycles,
            final(self)@.bus.ppu.ticks == old(self)@.bus.ppu.ticks + 3 * (final(self)@.cycles
                - old(self)@.cycles),
            final(self)@.bus.ppu.skips >= old(self)@.bus.ppu.skips,
            final(self)@.bus.ppu.dot_positions == old(self)@.bus.ppu.dot_positions + (final(
            self)@.bus.ppu.ticks - old(self)@.bus.ppu.ticks) + (final(self)@.bus.ppu.skips - old(
            self)@.bus.ppu.skips),
    {
        let aaa = op / 32;
        let bbb = (op / 4) % 8;
            let m = if bbb == 0 {
                Mode::Immediate
            } else if bbb == 1 {
                Mode::ZeroPage
            } else if bbb == 3 {
                Mode::Absolute
            } else if bbb == 5 {
                if aaa == 4 || aaa == 5 {
                    Mode::ZeroPageY
                } else {
                    Mode::ZeroPageX
                }
            } else {
                if aaa == 5 {
                    Mode::AbsoluteY
                } else {
                    Mode::AbsoluteX
                }
            };
            if aaa == 0 {
                self.asl_m(m);
            } else if aaa == 1 {
                self.rol_m(m);
            } else if aaa == 2 {
                self.lsr_m(m);
            } else if aaa == 3 {
                self.ror_m(m);
            } else if aaa == 4 {
                self.stx(m);
            } else if aaa == 5 {
                self.ldx(m);
            } else if aaa == 6 {
                self.dec_m(m);
            } else {
                self.inc_m(m);
            }
    }

    /// Runs a control-block opcode (low bits 00).
    #[verifier::rlimit(80)]
    #[verifier::spinoff_prover]
    fn exec_cc0(&mut self, op: u8)
        requires
            old(self)@.wf(),
        ensures
            final(self)@ == spec_exec_cc0(old(self)@, op),
            final(self)@.wf(),
            final(self)@.cycles >= old(self)@.cycles,
            final(self)@.bus.ppu.ticks == old(self)@.bus.ppu.ticks + 3 * (final(self)@.cycles
                - old(self)@.cycles),
            final(self)@.bus.ppu.skips >= old(self)@.bus.ppu.skips,
            final(self)@.bus.ppu.dot_positions == old(self)@.bus.ppu.dot_positions + (final(
            self)@.bus.ppu.ticks - old(self)@.bus.ppu.ticks) + (final(self)@.bus.ppu.skips - old(
            self)@.bus.ppu.skips),
    {
        let aaa = op / 32;
        let bbb = (op / 4) % 8;
            let m = if bbb == 0 {
                Mode::Immediate
            } else if bbb == 1 {
                Mode::ZeroPage
            } else if bbb == 3 {
                Mode::Absolute
            } else if bbb == 5 {
                Mode::ZeroPageX
            } else {
                Mode::AbsoluteX
            };
            if aaa == 1 {
                self.bit_m(m);
            } else if aaa == 4 {
                self.sty(m);
            } else if aaa == 5 {
                self.ldy(m);
            } else if aaa == 6 {
                self.cpy_m(m);
            } else if aaa == 7 {
                self.cpx_m(m);
            }
    }

    /// Runs an undocumented-block opcode (low bits 11).
    #[verifier::rlimit(80)]
    #[verifier::spinoff_prover]
    fn exec_cc3(&mut self, op: u8)
        requires
            old(self)@.wf(),
        ensures
            final(self)@ == spec_exec_cc3(old(self)@, op),
            final(self)@.wf(),
            final(self)@.cycles >= old(self)@.cycles,
            final(self)@.bus.ppu.ticks == old(self)@.bus.ppu.ticks + 3 * (final(self)@.cycles
                - old(self)@.cycles),
            final(self)@.bus.ppu.skips >= old(self)@.bus.ppu.skips,
            final(self)@.bus.ppu.dot_positions == old(self)@.bus.ppu.dot_positions + (final(
            self)@.bus.ppu.ticks - old(self)@.bus.ppu.ticks) + (final(self)@.bus.ppu.skips - old(
            self)@.bus.ppu.skips),
    {
        let aaa = op / 32;
        let bbb = (op / 4) % 8;
            let m = if bbb == 5 {
                if aaa == 4 || aaa == 5 {
                    Mode::ZeroPageY
                } else {
                    Mode::ZeroPageX
                }
            } else if bbb == 7 {
                if aaa == 5 {
                    Mode::AbsoluteY
                } else {
                    Mode::AbsoluteX
                }
            } else if bbb == 0 {
                Mode::IndexedIndirect
            } else if bbb == 1 {
                Mode::ZeroPage
            } else if bbb == 2 {
                Mode::Immediate
            } else if bbb == 3 {
                Mode::Absolute
            } else if bbb == 4 {
                Mode::IndirectIndexed
            } else {
                Mode::AbsoluteY
            };
            if aaa == 0 {
                self.slo(m);
            } else if aaa == 1 {
                self.rla(m);
            } else if aaa == 2 {
                self.sre(m);
            } else if aaa == 3 {
                self.rra(m);
            } else if aaa == 4 {
                self.sax(m);
            } else if aaa == 5 {
                self.lax(m);
            } else if aaa == 6 {
                self.dcp(m);
            } else {
                self.isb(m);
            }
    }

    /// Runs one fetched (non-halt) opcode.
    #[verifier::rlimit(100)]
    #[verifier::spinoff_prover]
    fn exec_op(&mut self, op: u8)
        requires
            old(self)@.wf(),
        ensures
            final(self)@ == spec_exec_op(old(self)@, op),
            final(self)@.wf(),
            final(self)@.cycles >= old(self)@.cycles,
            final(self)@.bus.ppu.ticks == old(self)@.bus.ppu.ticks + 3 * (final(self)@.cycles
                - old(self)@.cycles),
            final(self)@.bus.ppu.skips >= old(self)@.bus.ppu.skips,
            final(self)@.bus.ppu.dot_positions == old(self)@.bus.ppu.dot_positions + (final(
            self)@.bus.ppu.ticks - old(self)@.bus.ppu.ticks) + (final(self)@.bus.ppu.skips - old(
            self)@.bus.ppu.skips),
    {
        proof {
            reveal(spec_exec_op);
        }
        if op % 0x20 == 0x10 {
            let aaa = op / 32;
            self.do_branch(aaa);
        } else if op == 0x00 {
            self.brk();
        } else if op == 0x20 {
            self.jsr();
        } else if op == 0x40 {
            self.rti();
        } else if op == 0x60 {
            self.rts();
        } else if op == 0x08 {
            self.php();
        } else if op == 0x28 {
            self.plp();
        } else if op == 0x48 {
            self.pha();
        } else if op == 0x68 {
            self.pla();
        } else if op == 0x4C {
            self.jmp_abs();
        } else if op == 0x6C {
            self.jmp_ind();
        } else if op == 0xEB {
            self.sbc_m(Mode::Immediate);
        } else if op == 0x18 || op == 0x38 || op == 0x58 || op == 0x78 || op == 0xB8 || op == 0xD8
            || op == 0xF8 || op == 0xAA || op == 0x8A || op == 0xA8 || op == 0x98 || op == 0xBA
            || op == 0x9A || op == 0xC8 || op == 0xE8 || op == 0x88 || op == 0xCA || op == 0xEA
            || op == 0x1A || op == 0x3A || op == 0x5A || op == 0x7A || op == 0xDA || op == 0xFA
            || op == 0x0A || op == 0x2A || op == 0x4A || op == 0x6A {
            self.implied(op);
        } else if op == 0x80 || op == 0x82 || op == 0x89 || op == 0xC2 || op == 0xE2 || op == 0x0B
            || op == 0x2B || op == 0x4B || op == 0x6B || op == 0x8B || op == 0xAB || op == 0xCB {
            self.nop_read(Mode::Immediate);
        } else if op == 0x04 || op == 0x44 || op == 0x64 {
            self.nop_read(Mode::ZeroPage);
        } else if op == 0x14 || op == 0x34 || op == 0x54 || op == 0x74 || op == 0xD4 || op == 0xF4 {
            self.nop_read(Mode::ZeroPageX);
        } else if op == 0x0C {
            self.nop_read(Mode::Absolute);
        } else if op == 0x1C || op == 0x3C || op == 0x5C || op == 0x7C || op == 0xDC || op == 0xFC {
            self.nop_read(Mode::AbsoluteX);
        } else if op == 0xBB {
            self.nop_read(Mode::AbsoluteY);
        } else if op == 0x9C {
            self.nop_write(Mode::AbsoluteX);
        } else if op == 0x9E || op == 0x9B || op == 0x9F {
            self.nop_write(Mode::AbsoluteY);
        } else if op == 0x93 {
            self.nop_write(Mode::IndirectIndexed);
        } else if op % 4 == 1 {
            self.exec_cc1(op);
        } else if op % 4 == 2 {
            self.exec_cc2(op);
        } else if op % 4 == 0 {
            self.exec_cc0(op);
        } else {
            self.exec_cc3(op);
        }
    }

    /// Fetches and runs one whole instruction. Returns the decoder error,
    /// with the opcode and the address it came from, exactly on the twelve
    /// halt opcodes; every other opcode value executes. One call keeps the
    /// PPU's clock coupled at three dots per CPU cycle.
    #[verifier::rlimit(60)]
    #[verifier::spinoff_prover]
    pub fn decode(&mut self) -> (r: Result<(), DecodeError>)
        requires
            old(self)@.wf(),
        ensures
            final(self)@ == spec_decode(old(self)@).0,
            (r matches Err(e) ==> spec_decode(old(self)@).1 == Some(e)),
            (r is Ok ==> spec_decode(old(self)@).1 is None),
            spec_clock_ok(old(self)@) ==> spec_clock_ok(final(self)@),
            final(self)@.wf(),
            final(self)@.cycles >= old(self)@.cycles,
            final(self)@.bus.ppu.ticks == old(self)@.bus.ppu.ticks + 3 * (final(self)@.cycles
                - old(self)@.cycles),
            final(self)@.bus.ppu.skips >= old(self)@.bus.ppu.skips,
            final(self)@.bus.ppu.dot_positions == old(self)@.bus.ppu.dot_positions + (final(
            self)@.bus.ppu.ticks - old(self)@.bus.ppu.ticks) + (final(self)@.bus.ppu.skips - old(
            self)@.bus.ppu.skips),
    {
        let entry_pc = self.pc;
        let op = self.fetch_byte();
        if op == 0x02 || op == 0x12 || op == 0x22 || op == 0x32 || op == 0x42 || op == 0x52 || op
            == 0x62 || op == 0x72 || op == 0x92 || op == 0xB2 || op == 0xD2 || op == 0xF2 {
            return Err(DecodeError { opcode: op, pc: entry_pc });
        }
        self.exec_op(op);
        Ok(())
    }
}

} // verus!
