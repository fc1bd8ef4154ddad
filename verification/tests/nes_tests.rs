use nes_components::{Mem, Mirroring, CPU, PPU, PPUBus, Rom};

fn palette_table() -> Vec<u8> {
    let mut p = vec![0u8; 192];
    for i in 0..64 {
        p[3 * i] = i as u8;
        p[3 * i + 1] = (i * 2) as u8;
        p[3 * i + 2] = (i * 3) as u8;
    }
    p
}

fn make_cpu(prg: Vec<u8>) -> CPU {
    let ppu = PPU::init_ppu(vec![0u8; 0x2000], Mirroring::HORIZONTAL, palette_table());
    CPU::init_cpu(prg, ppu)
}

/// A 16 KiB PRG ROM whose reset vector points at 0x8000 and whose start
/// holds the given program.
fn prg_with(program: &[u8]) -> Vec<u8> {
    let mut prg = vec![0xEAu8; 0x4000];
    prg[0x3FFC] = 0x00;
    prg[0x3FFD] = 0x80;
    prg[..program.len()].copy_from_slice(program);
    prg
}

#[test]
fn rom_parses_ines_header() {
    let mut raw = vec![0x4E, 0x45, 0x53, 0x1A, 1, 1, 0b0000_0001, 0x40];
    raw.resize(16, 0);
    for i in 0..0x4000 {
        raw.push((i % 251) as u8);
    }
    for i in 0..0x2000 {
        raw.push((i % 241) as u8);
    }
    let rom = Rom::new(&raw).expect("well-formed image");
    assert_eq!(rom.prg_rom.len(), 0x4000);
    assert_eq!(rom.chr_rom.len(), 0x2000);
    assert_eq!(rom.prg_rom[5], 5);
    assert_eq!(rom.chr_rom[5], 5);
    assert_eq!(rom.mapper, 0x40);
    assert_eq!(rom.screen_mirroring, Mirroring::VERTICAL);
}

#[test]
fn rom_rejects_bad_magic() {
    let raw = vec![0u8; 32];
    assert!(Rom::new(&raw).is_err());
}

#[test]
fn rom_rejects_truncated_image() {
    let mut raw = vec![0x4E, 0x45, 0x53, 0x1A, 2, 1, 0, 0];
    raw.resize(16 + 100, 0);
    assert!(Rom::new(&raw).is_err());
}

#[test]
fn reset_vector_loads_pc() {
    let mut prg = vec![0u8; 0x4000];
    prg[0x3FFC] = 0x34;
    prg[0x3FFD] = 0xC0;
    let cpu = make_cpu(prg);
    assert_eq!(cpu.pc, 0xC034);
    assert_eq!(cpu.sp, 0xFD);
    assert_eq!(cpu.status, 0x24);
}

#[test]
fn adc_sets_carry_and_overflow() {
    // LDA #0x50; ADC #0x50
    let mut cpu = make_cpu(prg_with(&[0xA9, 0x50, 0x69, 0x50]));
    cpu.decode().unwrap();
    cpu.decode().unwrap();
    assert_eq!(cpu.accumulator, 0xA0);
    assert_ne!(cpu.status & 0x40, 0, "overflow set");
    assert_ne!(cpu.status & 0x80, 0, "negative set");
    assert_eq!(cpu.status & 0x01, 0, "carry clear");
    assert_eq!(cpu.status & 0x02, 0, "zero clear");
}

#[test]
fn sbc_borrow() {
    // LDA #0x50; SEC; SBC #0xB0
    let mut cpu = make_cpu(prg_with(&[0xA9, 0x50, 0x38, 0xE9, 0xB0]));
    cpu.decode().unwrap();
    cpu.decode().unwrap();
    cpu.decode().unwrap();
    assert_eq!(cpu.accumulator, 0xA0);
    assert_eq!(cpu.status & 0x01, 0, "borrow: carry clear");
    assert_ne!(cpu.status & 0x40, 0, "overflow set");
}

#[test]
fn push_pull_status_round_trip() {
    // PHP; PLP
    let mut cpu = make_cpu(prg_with(&[0x08, 0x28]));
    cpu.status = 0b1100_0011;
    cpu.decode().unwrap();
    cpu.decode().unwrap();
    assert_eq!(cpu.status, (0b1100_0011 | 0x20) & !0x10);
}

#[test]
fn branch_cycle_counts() {
    // BCC +2 with carry clear: 3 cycles, same page.
    let mut cpu = make_cpu(prg_with(&[0x90, 0x02]));
    let c0 = cpu.cpu_clk;
    cpu.decode().unwrap();
    assert_eq!(cpu.cpu_clk - c0, 3);
    assert_eq!(cpu.pc, 0x8004);

    // BCS not taken: 2 cycles.
    let mut cpu = make_cpu(prg_with(&[0xB0, 0x02]));
    let c0 = cpu.cpu_clk;
    cpu.decode().unwrap();
    assert_eq!(cpu.cpu_clk - c0, 2);
    assert_eq!(cpu.pc, 0x8002);

    // BCC backwards across the page boundary: 4 cycles.
    let mut cpu = make_cpu(prg_with(&[0x90, 0x80]));
    let c0 = cpu.cpu_clk;
    cpu.decode().unwrap();
    assert_eq!(cpu.cpu_clk - c0, 4);
    assert_eq!(cpu.pc, 0x7F82);
}

#[test]
fn jmp_indirect_page_wrap() {
    // JMP (0x10FF) takes its low byte from 0x10FF and its high byte from
    // 0x1000, not 0x1100.
    let mut cpu = make_cpu(prg_with(&[0x6C, 0xFF, 0x10]));
    cpu.write_byte(0x10FF, 0x34);
    cpu.write_byte(0x1000, 0x12);
    cpu.write_byte(0x1100, 0x99);
    cpu.decode().unwrap();
    assert_eq!(cpu.pc, 0x1234);
}

#[test]
fn palette_write_aliases_backdrop() {
    let mut bus = PPUBus::new(vec![0u8; 0x2000], Mirroring::HORIZONTAL, vec![0u8; 32], palette_table());
    bus.mem_write(0x3F10, 0xAB);
    assert_eq!(bus.mem_read(0x3F00), 0xAB);
}

#[test]
fn nametable_mirroring() {
    let mut h = PPUBus::new(vec![0u8; 0x2000], Mirroring::HORIZONTAL, vec![0u8; 32], palette_table());
    h.mem_write(0x2000, 0xAA);
    assert_eq!(h.mem_read(0x2400), 0xAA);
    let mut v = PPUBus::new(vec![0u8; 0x2000], Mirroring::VERTICAL, vec![0u8; 32], palette_table());
    v.mem_write(0x2000, 0xAA);
    assert_eq!(v.mem_read(0x2800), 0xAA);
}

#[test]
fn ppudata_reads_are_buffered() {
    let mut cpu = make_cpu(prg_with(&[]));
    cpu.cpu_bus.ppu.ppu_bus.mem_write(0x2005, 0x77);
    // point v at 0x2005 through two PPUADDR writes
    cpu.write_byte(0x2006, 0x20);
    cpu.write_byte(0x2006, 0x05);
    // the first PPUDATA read returns the stale buffer, the second the byte
    let first = cpu.read_byte(0x2007);
    let second = cpu.read_byte(0x2007);
    assert_eq!(first, 0x00);
    assert_eq!(second, 0x77);
}

#[test]
fn ppudata_palette_reads_are_immediate() {
    let mut cpu = make_cpu(prg_with(&[]));
    cpu.cpu_bus.ppu.ppu_bus.mem_write(0x3F07, 0x2C);
    cpu.write_byte(0x2006, 0x3F);
    cpu.write_byte(0x2006, 0x07);
    assert_eq!(cpu.read_byte(0x2007), 0x2C);
}

#[test]
fn status_read_clears_vblank_flag() {
    let mut cpu = make_cpu(prg_with(&[]));
    cpu.cpu_bus.ppu.status = 0x80;
    let first = cpu.read_byte(0x2002);
    let second = cpu.read_byte(0x2002);
    assert_ne!(first & 0x80, 0);
    assert_eq!(second & 0x80, 0);
}

#[test]
fn status_read_resets_write_toggle() {
    let mut cpu = make_cpu(prg_with(&[]));
    cpu.write_byte(0x2005, 0x15);
    assert_eq!(cpu.cpu_bus.ppu.w, 1);
    let _ = cpu.read_byte(0x2002);
    assert_eq!(cpu.cpu_bus.ppu.w, 0);
}

#[test]
fn scroll_and_addr_writes_merge() {
    let mut cpu = make_cpu(prg_with(&[]));
    cpu.write_byte(0x2005, 0b10101_101);
    cpu.write_byte(0x2005, 0x33);
    cpu.write_byte(0x2006, 0x21);
    cpu.write_byte(0x2006, 0x08);
    let ppu = &cpu.cpu_bus.ppu;
    assert_eq!(ppu.x, 0b101);
    assert_eq!(ppu.w, 0);
    assert_eq!(ppu.v, 0x2108);
    assert_eq!(ppu.t, 0x2108);
}

#[test]
fn ctrl_write_during_vblank_raises_nmi() {
    let mut prg = prg_with(&[0xEA]);
    prg[0x3FFA] = 0x00;
    prg[0x3FFB] = 0x90;
    let mut cpu = make_cpu(prg);
    cpu.cpu_bus.ppu.status = 0x80;
    // Enabling PPUCTRL bit 7 while the vblank flag is set raises an NMI
    // within this access, and the write's end-of-access sample consumes it.
    cpu.write_byte(0x2000, 0x80);
    assert_eq!(cpu.cpu_bus.ppu.nmi, 0, "consumed within the same access");
    assert_eq!(cpu.pc, 0x9000, "handler entered");
    assert_ne!(cpu.status & 0x04, 0, "interrupt-disable set");
    // pushed return address (the interrupted PC, unincremented) and
    // status (B clear, bit 5 set)
    assert_eq!(cpu.cpu_bus.cpu_ram[0x1FD], 0x80);
    assert_eq!(cpu.cpu_bus.cpu_ram[0x1FC], 0x00);
    let pushed_p = cpu.cpu_bus.cpu_ram[0x1FB];
    assert_eq!(pushed_p & 0x10, 0);
    assert_ne!(pushed_p & 0x20, 0);
}

#[test]
fn open_bus_holds_last_bus_value() {
    let mut cpu = make_cpu(prg_with(&[]));
    // a RAM write places its byte on the bus; the unmapped range reads it
    cpu.write_byte(0x0042, 0x5A);
    assert_eq!(cpu.read_byte(0x4020), 0x5A);
    // a ROM read refreshes the latch with the byte read
    let v = cpu.read_byte(0x8000);
    assert_eq!(cpu.read_byte(0x4020), v);
}

#[test]
fn mem_trait_round_trip() {
    let mut cpu = make_cpu(prg_with(&[]));
    cpu.cpu_bus.mem_write(0x0010, 0x77);
    assert_eq!(cpu.cpu_bus.mem_read(0x0010), 0x77);
    cpu.cpu_bus.mem_write_u16(0x0020, 0xBEEF);
    assert_eq!(cpu.cpu_bus.mem_read_u16(0x0020), 0xBEEF);
}

#[test]
fn oam_dma_copies_a_page_in_513_cycles() {
    let mut cpu = make_cpu(prg_with(&[]));
    for i in 0..256u32 {
        cpu.write_byte(0x0700 + i as u16, i as u8);
    }
    cpu.write_byte(0x4014, 0x07);
    let c0 = cpu.cpu_clk;
    let parity = c0 % 2;
    let _ = cpu.read_byte(0x8000);
    // the DMA (513 cycles from an even cycle, 514 from an odd one) runs
    // before the read's own cycle
    assert_eq!(cpu.cpu_clk - c0, 513 + parity + 1);
    for i in 0..256usize {
        assert_eq!(cpu.cpu_bus.ppu.oam[i], i as u8);
    }
}

#[test]
fn ppu_runs_three_dots_per_cpu_cycle() {
    let mut cpu = make_cpu(prg_with(&[]));
    for _ in 0..200 {
        cpu.decode().unwrap();
    }
    let p = &cpu.cpu_bus.ppu.state;
    assert_eq!(
        (p.scanline as u64) * 341 + p.dots as u64,
        3 * cpu.cpu_clk,
        "dot position tracks three dots per cycle before any frame wrap"
    );
}

#[test]
fn frame_completes_at_vblank_entry() {
    let mut cpu = make_cpu(prg_with(&[]));
    // run until well past scanline 241, on NOPs
    while cpu.cpu_clk < 30000 {
        cpu.decode().unwrap();
    }
    assert!(cpu.cpu_bus.ppu.frame_complete);
    assert!(cpu.cpu_bus.ppu.state.scanline >= 241 || cpu.cpu_bus.ppu.frame_complete);
    cpu.cpu_bus.ppu.ack_frame();
    assert!(!cpu.cpu_bus.ppu.frame_complete);
}

#[test]
fn halt_opcode_is_a_decoder_error() {
    let mut cpu = make_cpu(prg_with(&[0x02]));
    let err = cpu.decode().unwrap_err();
    assert_eq!(err.opcode, 0x02);
    assert_eq!(err.pc, 0x8000);
}

#[test]
fn read_modify_write_in_ram() {
    // LDX #0x05; INC 0x10,X  (0x15 holds 0x41)
    let mut cpu = make_cpu(prg_with(&[0xA2, 0x05, 0xF6, 0x10]));
    cpu.write_byte(0x0015, 0x41);
    cpu.decode().unwrap();
    cpu.decode().unwrap();
    assert_eq!(cpu.read_byte(0x0015), 0x42);
}

#[test]
fn stack_round_trip_through_subroutine() {
    // JSR 0x8005; (padding 0xEA); at 0x8005: RTS
    let mut cpu = make_cpu(prg_with(&[0x20, 0x05, 0x80, 0xEA, 0xEA, 0x60]));
    cpu.decode().unwrap();
    assert_eq!(cpu.pc, 0x8005);
    cpu.decode().unwrap();
    assert_eq!(cpu.pc, 0x8003, "RTS returns past the JSR operand");
    assert_eq!(cpu.sp, 0xFD);
}
