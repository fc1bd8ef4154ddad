//! The CPU-side memory map: 2 KiB of internal RAM mirrored across
//! 0x0000-0x1FFF, the eight PPU registers mirrored across 0x2000-0x3FFF,
//! the APU and controller stubs, the OAM DMA port at 0x4014, an open-bus
//! latch holding the last value placed on the bus, and PRG ROM from 0x8000
//! up (a 16 KiB cartridge is mirrored across the upper half).

use vstd::prelude::*;
use crate::ppu::{
    PPU, PpuModel, spec_cpu_write_byte, spec_load_addr_byte, spec_load_scroll, spec_oam_data_set,
    spec_read_data, spec_read_oam_data, spec_read_status, spec_write_ctrl,
};

verus! {

/// Mathematical state of the CPU bus.
#[verifier::ext_equal]
pub ghost struct CpuBusModel {
    pub ram: Seq<u8>,
    pub prg: Seq<u8>,
    pub halt: bool,
    pub open_bus: u8,
    pub ppu_latch: u8,
    pub dma_page: u8,
    pub ppu: PpuModel,
}

impl CpuBusModel {
    /// Structural invariant: RAM size and a well-formed PPU.
    pub open spec fn wf(self) -> bool {
        &&& self.ram.len() == 0x800
        &&& self.ppu.wf()
    }
}

/// Value of a PRG ROM read: the offset from 0x8000, folded onto the first
/// 16 KiB when only 16 KiB are present; reads past the ROM return 0.
pub open spec fn spec_prg_read(b: CpuBusModel, addr: u16) -> u8 {
    let idx0 = addr - 0x8000;
    let idx = if b.prg.len() == 0x4000 {
        idx0 % 0x4000
    } else {
        idx0
    };
    if idx < b.prg.len() {
        b.prg[idx]
    } else {
        0
    }
}

/// State and value of one CPU bus read. RAM and ROM answer by address; the
/// PPU register mirror dispatches on the low three bits, where PPUSTATUS,
/// OAMDATA and PPUDATA have read side effects and every other register
/// answers from the data-bus latch; the APU and controller stubs read 0;
/// the unmapped range answers from the open-bus latch. Whatever is read
/// becomes the last value placed on the bus, so every read refreshes the
/// open-bus latch with its result.
#[verifier::opaque]
pub open spec fn spec_bus_read8(b: CpuBusModel, addr: u16) -> (CpuBusModel, u8) {
    let r = if addr < 0x2000 {
        (b, b.ram[addr as int % 0x800])
    } else if addr < 0x4000 {
        let reg = addr % 8;
        if reg == 2 {
            let pr = spec_read_status(b.ppu, b.ppu_latch);
            (CpuBusModel { ppu: pr.0, ppu_latch: pr.1, ..b }, pr.1)
        } else if reg == 4 {
            let rr = spec_read_oam_data(b.ppu);
            (CpuBusModel { ppu_latch: rr, ..b }, rr)
        } else if reg == 7 {
            let pr = spec_read_data(b.ppu);
            (CpuBusModel { ppu: pr.0, ppu_latch: pr.1, ..b }, pr.1)
        } else {
            (b, b.ppu_latch)
        }
    } else if addr < 0x4018 {
        (b, 0)
    } else if addr < 0x8000 {
        (b, b.open_bus)
    } else {
        (b, spec_prg_read(b, addr))
    };
    (CpuBusModel { open_bus: r.1, ..r.0 }, r.1)
}

/// State after one CPU bus write. RAM stores; the PPU register mirror
/// dispatches on the low three bits and refreshes the data-bus latch; a
/// write to 0x4014 stores the DMA page and raises the halt flag; the APU
/// stub ignores writes; and writes into ROM space are silently ignored.
/// Every write places its byte on the bus, so the open-bus latch always
/// takes the written value.
#[verifier::opaque]
pub open spec fn spec_bus_write8(b: CpuBusModel, addr: u16, data: u8) -> CpuBusModel {
    let b1 = if addr < 0x2000 {
        CpuBusModel { ram: b.ram.update(addr as int % 0x800, data), ..b }
    } else if addr < 0x4000 {
        let reg = addr % 8;
        let ppu = if reg == 0 {
            spec_write_ctrl(b.ppu, data)
        } else if reg == 1 {
            PpuModel { mask: data, ..b.ppu }
        } else if reg == 3 {
            PpuModel { oam_addr: data, ..b.ppu }
        } else if reg == 4 {
            spec_oam_data_set(b.ppu, data)
        } else if reg == 5 {
            spec_load_scroll(b.ppu, data)
        } else if reg == 6 {
            spec_load_addr_byte(b.ppu, data)
        } else if reg == 7 {
            spec_cpu_write_byte(b.ppu, data)
        } else {
            b.ppu
        };
        CpuBusModel { ppu: ppu, ppu_latch: data, ..b }
    } else if addr == 0x4014 {
        CpuBusModel { dma_page: data, halt: true, ..b }
    } else {
        b
    };
    CpuBusModel { open_bus: data, ..b1 }
}

/// State and value of a little-endian 16-bit read: two bus reads, low byte
/// first.
pub open spec fn spec_bus_read16(b: CpuBusModel, addr: u16) -> (CpuBusModel, u16) {
    let r0 = spec_bus_read8(b, addr);
    let r1 = spec_bus_read8(r0.0, ((addr + 1) % 0x10000) as u16);
    (r1.0, (r1.1 * 0x100 + r0.1) as u16)
}

/// State after a little-endian 16-bit write: two bus writes, low byte
/// first.
pub open spec fn spec_bus_write16(b: CpuBusModel, pos: u16, data: u16) -> CpuBusModel {
    let b1 = spec_bus_write8(b, pos, (data % 0x100) as u8);
    spec_bus_write8(b1, ((pos + 1) % 0x10000) as u16, (data / 0x100) as u8)
}

/// The byte-addressed operations every memory-mapped component offers.
/// `inv` is the component's well-formedness, which every operation
/// preserves.
pub trait Mem {
    spec fn inv(&self) -> bool;

    fn mem_read(&mut self, addr: u16) -> (r: u8)
        requires
            old(self).inv(),
        ensures
            final(self).inv(),
    ;

    fn mem_write(&mut self, addr: u16, data: u8)
        requires
            old(self).inv(),
        ensures
            final(self).inv(),
    ;

    fn mem_read_u16(&mut self, addr: u16) -> (r: u16)
        requires
            old(self).inv(),
        ensures
            final(self).inv(),
    ;

    fn mem_write_u16(&mut self, pos: u16, data: u16)
        requires
            old(self).inv(),
        ensures
            final(self).inv(),
    ;
}

/// The CPU bus: internal RAM, PRG ROM, the PPU with its data-bus latch,
/// the DMA port state, and the open-bus latch.
pub struct CPUBus {
    pub cpu_ram: Vec<u8>,
    pub prg_rom: Vec<u8>,
    pub halt_flag: bool,
    pub open_bus: u8,
    pub ppu_latch: u8,
    pub dma_page: u8,
    pub ppu: PPU,
}

impl View for CPUBus {
    type V = CpuBusModel;

    open spec fn view(&self) -> CpuBusModel {
        CpuBusModel {
            ram: self.cpu_ram@,
            prg: self.prg_rom@,
            halt: self.halt_flag,
            open_bus: self.open_bus,
            ppu_latch: self.ppu_latch,
            dma_page: self.dma_page,
            ppu: self.ppu@,
        }
    }
}

impl CPUBus {
    /// Builds the bus around a cartridge's PRG ROM and a PPU, with RAM
    /// zeroed and the latches clear.
    pub fn new(prg_rom: Vec<u8>, ppu_connection: PPU) -> (r: Self)
        requires
            ppu_connection@.wf(),
        ensures
            r@.wf(),
            r@.ram == Seq::new(0x800, |i: int| 0u8),
            r@.prg == prg_rom@,
            !r@.halt,
            r@.open_bus == 0 && r@.ppu_latch == 0 && r@.dma_page == 0,
            r@.ppu == ppu_connection@,
    {
        let cpu_ram: Vec<u8> = vec![0u8; 0x800];
        proof {
            assert(cpu_ram@ =~= Seq::new(0x800, |i: int| 0u8));
        }
        CPUBus {
            cpu_ram,
            prg_rom,
            halt_flag: false,
            open_bus: 0,
            ppu_latch: 0,
            dma_page: 0,
            ppu: ppu_connection,
        }
    }

    /// Reads a PRG ROM byte through the cartridge mirroring.
    pub fn read_prg_rom(&self, addr: &u16) -> (r: u8)
        requires
            *addr >= 0x8000,
        ensures
            r == spec_prg_read(self@, *addr),
    {
        let mut mirrored_addr: u16 = *addr - 0x8000;
        if self.prg_rom.len() == 0x4000 {
            mirrored_addr = mirrored_addr % 0x4000;
        }
        if (mirrored_addr as usize) < self.prg_rom.len() {
            self.prg_rom[mirrored_addr as usize]
        } else {
            0
        }
    }

    /// One CPU bus read, with the register side effects of the address.
    pub fn read8(&mut self, addr: u16) -> (r: u8)
        requires
            old(self)@.wf(),
        ensures
            (final(self)@, r) == spec_bus_read8(old(self)@, addr),
            final(self)@.wf(),
            final(self)@.ppu.ticks == old(self)@.ppu.ticks,
            final(self)@.ppu.skips == old(self)@.ppu.skips,
            final(self)@.ppu.dot_positions == old(self)@.ppu.dot_positions,
    {
        proof {
            reveal(spec_bus_read8);
        }
        let r: u8 = if addr < 0x2000 {
            self.cpu_ram[(addr % 0x800) as usize]
        } else if addr < 0x4000 {
            let reg = addr % 8;
            if reg == 2 {
                let v = self.ppu.read_status(self.ppu_latch);
                self.ppu_latch = v;
                v
            } else if reg == 4 {
                let v = self.ppu.read_oam_data();
                self.ppu_latch = v;
                v
            } else if reg == 7 {
                let v = self.ppu.read_data();
                self.ppu_latch = v;
                v
            } else {
                self.ppu_latch
            }
        } else if addr < 0x4018 {
            0
        } else if addr < 0x8000 {
            self.open_bus
        } else {
            self.read_prg_rom(&addr)
        };
        self.open_bus = r;
        r
    }

    /// One CPU bus write, with the register side effects of the address.
    pub fn write8(&mut self, addr: u16, data: u8)
        requires
            old(self)@.wf(),
        ensures
            final(self)@ == spec_bus_write8(old(self)@, addr, data),
            final(self)@.wf(),
            final(self)@.ppu.ticks == old(self)@.ppu.ticks,
            final(self)@.ppu.skips == old(self)@.ppu.skips,
            final(self)@.ppu.dot_positions == old(self)@.ppu.dot_positions,
    {
        proof {
            reveal(spec_bus_write8);
        }
        if addr < 0x2000 {
            let i = (addr % 0x800) as usize;
            self.cpu_ram.set(i, data);
        } else if addr < 0x4000 {
            let reg = addr % 8;
            if reg == 0 {
                self.ppu.write_ctrl(data);
            } else if reg == 1 {
                self.ppu.mask = data;
            } else if reg == 3 {
                self.ppu.oam_addr = data;
            } else if reg == 4 {
                self.ppu.oam_data_set(data);
            } else if reg == 5 {
                self.ppu.load_scroll(data);
            } else if reg == 6 {
                self.ppu.load_addr_byte(data);
            } else if reg == 7 {
                self.ppu.cpu_write_byte(data);
            }
            self.ppu_latch = data;
        } else if addr == 0x4014 {
            self.dma_page = data;
            self.halt_flag = true;
        } else {
            // APU stub writes and writes into ROM space are ignored
        }
        self.open_bus = data;
    }

    /// A little-endian 16-bit read: two bus reads, low byte first.
    pub fn read16(&mut self, addr: u16) -> (r: u16)
        requires
            old(self)@.wf(),
        ensures
            (final(self)@, r) == spec_bus_read16(old(self)@, addr),
            final(self)@.wf(),
    {
        let lo = self.read8(addr);
        let hi = self.read8(((addr as u32 + 1) % 0x10000) as u16);
        (hi as u16) * 0x100 + lo as u16
    }
}

impl Mem for CPUBus {
    open spec fn inv(&self) -> bool {
        self@.wf()
    }

    fn mem_read(&mut self, addr: u16) -> (r: u8)
        ensures
            (final(self)@, r) == spec_bus_read8(old(self)@, addr),
    {
        self.read8(addr)
    }

    fn mem_write(&mut self, addr: u16, data: u8)
        ensures
            final(self)@ == spec_bus_write8(old(self)@, addr, data),
    {
        self.write8(addr, data);
    }

    fn mem_read_u16(&mut self, addr: u16) -> (r: u16)
        ensures
            (final(self)@, r) == spec_bus_read16(old(self)@, addr),
    {
        self.read16(addr)
    }

    fn mem_write_u16(&mut self, pos: u16, data: u16)
        ensures
            final(self)@ == spec_bus_write16(old(self)@, pos, data),
    {
        self.write8(pos, (data % 0x100) as u8);
        let hi_addr = ((pos as u32 + 1) % 0x10000) as u16;
        self.write8(hi_addr, (data / 0x100) as u8);
    }
}

} // verus!
