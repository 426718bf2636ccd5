//! Cycle-stepped emulation core for the Nintendo Entertainment System: a 6502
//! CPU interpreter, the picture processing unit, the system bus that clocks
//! the PPU at three dots per CPU cycle, the cartridge with its NROM mapper,
//! and the controller port.

pub mod address_mode;
pub mod bus;
pub mod cartridge;
pub mod cpu;
pub mod errors;
pub mod hardware;
pub mod mapper;
pub mod memory;
pub mod opcode;
pub mod ppu;
pub mod render;
