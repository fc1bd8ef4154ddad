//! Core of a cycle-stepped emulator for the Nintendo Entertainment System:
//! a 6502 CPU interpreter, the 2C02 picture processing unit, and the two
//! memory-mapped buses that join them, with the CPU and PPU clocks held in
//! a strict 1:3 ratio. Everything here is pure state-machine logic; reading
//! cartridge files and presenting finished frames belong to the host.

use vstd::prelude::*;

pub mod rom;
pub mod ppu_bus;
pub mod ppu;
pub mod ppu_tick;
pub mod cpu_bus;
pub mod cpu;
pub mod cpu_instr;
pub mod cpu_decode;
pub mod laws;

pub use rom::Mirroring;
pub use rom::Rom;
pub use ppu_bus::PPUBus;
pub use ppu::PPU;
pub use ppu::PpuState;
pub use ppu::Sprite;
pub use cpu_bus::CPUBus;
pub use cpu_bus::Mem;
pub use cpu::CPU;
pub use cpu_decode::DecodeError;

verus! {

/// Width of the visible picture, in pixels.
pub const SCREEN_WIDTH: usize = 256;

/// Height of the visible picture, in pixels.
pub const SCREEN_HEIGHT: usize = 240;

/// CPU clock rate in Hz, kept for hosts that pace emulation in real time.
pub const CPU_SPEED: usize = 1790000;

/// Base address of the 6502 stack page.
pub const STACK_BASE: usize = 0x100;

/// Number of usable stack slots below the initial stack pointer.
pub const STACK_SIZE: usize = 255;

/// Entry point for hosts that drive the core; the host itself constructs the
/// parts and runs the loop, so there is nothing to do here.
pub fn nes_start() {
}

} // verus!
