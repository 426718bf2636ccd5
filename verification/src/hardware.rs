//! The machine proper: CPU, system bus, interrupt latches, controller port,
//! and the shared register primitive.

pub mod apu;
pub mod address_mode;
pub mod bus;
pub mod cpu;
pub mod interrupt;
pub mod joypad;
pub mod opcode;
pub mod register;
