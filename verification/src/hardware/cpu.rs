//! The 6502 CPU: registers, status flags, the stack in page $0100, operand
//! address decoding for every addressing mode (including the indirect-JMP
//! page-wrap quirk), and the interrupt entry sequence.

use vstd::prelude::*;

use super::bus::{bus_peek, Bus};
use super::address_mode::{AddressMode, AddressModeValue};
use super::interrupt::interrupt_is_ready;
use super::opcode::{execute, spec_invalid_opcode, spec_opcode_effect};
use crate::cartridge::rom::NESRom;
use crate::errors::EmuError;

verus! {

pub const STACK_PAGE: u16 = 0x0100;

#[derive(Clone, Copy, PartialEq, Eq, Structural, Debug)]
pub enum CpuStatus {
    Carry,
    Zero,
    InterruptDisable,
    Decimal,
    Break,
    Push,
    Overflow,
    Negative,
}

#[derive(Clone, Copy, PartialEq, Eq, Structural, Debug)]
pub enum InterruptType {
    Nmi,
    Reset,
    Irq,
    Break,
}

#[derive(Clone, Copy, PartialEq, Eq, Structural, Debug)]
pub enum InterruptVector {
    Nmi,
    Reset,
    Irq,
}

/// The status-byte mask of one flag, Carry in bit 0 through Negative in
/// bit 7.
pub open spec fn spec_flag_mask(bit: CpuStatus) -> u8 {
    match bit {
        CpuStatus::Carry => 0x01,
        CpuStatus::Zero => 0x02,
        CpuStatus::InterruptDisable => 0x04,
        CpuStatus::Decimal => 0x08,
        CpuStatus::Break => 0x10,
        CpuStatus::Push => 0x20,
        CpuStatus::Overflow => 0x40,
        CpuStatus::Negative => 0x80,
    }
}

/// The status byte with one flag forced on or off.
pub open spec fn spec_set_flag(p: u8, bit: CpuStatus, is_set: bool) -> u8 {
    (p & !spec_flag_mask(bit)) | (if is_set {
        spec_flag_mask(bit)
    } else {
        0u8
    })
}

pub fn flag_mask(bit: CpuStatus) -> (r: u8)
    ensures
        r == spec_flag_mask(bit),
{
    match bit {
        CpuStatus::Carry => 0x01,
        CpuStatus::Zero => 0x02,
        CpuStatus::InterruptDisable => 0x04,
        CpuStatus::Decimal => 0x08,
        CpuStatus::Break => 0x10,
        CpuStatus::Push => 0x20,
        CpuStatus::Overflow => 0x40,
        CpuStatus::Negative => 0x80,
    }
}

/// The 16-bit address a vector name stands for.
pub open spec fn spec_vector_address(v: InterruptVector) -> u16 {
    match v {
        InterruptVector::Nmi => 0xFFFA,
        InterruptVector::Reset => 0xFFFC,
        InterruptVector::Irq => 0xFFFE,
    }
}

pub fn vector_address(v: InterruptVector) -> (r: u16)
    ensures
        r == spec_vector_address(v),
{
    match v {
        InterruptVector::Nmi => 0xFFFA,
        InterruptVector::Reset => 0xFFFC,
        InterruptVector::Irq => 0xFFFE,
    }
}

/// Addresses whose bus value is a function of RAM or cartridge contents
/// alone, so that reads elsewhere cannot disturb it.
pub open spec fn spec_stable_addr(a: u16) -> bool {
    a <= 0x1FFF || a >= 0x4020
}

/// The little-endian word read from two consecutive bus addresses.
pub open spec fn spec_peek16(b: Bus, a: u16) -> int {
    bus_peek(b, a) + bus_peek(b, a.wrapping_add(1)) * 0x100
}

/// The cycle counter after `n` more bus ticks, with the same wrap-around
/// the counter itself has.
pub open spec fn spec_cycles_plus(c: u64, n: int) -> u64
    decreases n,
{
    if n <= 0 {
        c
    } else {
        spec_cycles_plus(c, n - 1).wrapping_add(1)
    }
}

/// A branch offset sign-extended to 16 bits.
pub open spec fn spec_sign_extend(off: u8) -> u16 {
    if off < 0x80 {
        off as u16
    } else {
        (off + 0xFF00) as u16
    }
}

pub struct Cpu {
    // 6502 CPU Registers
    pub bus: Bus,
    pub a: u8,  // Accumulator
    pub x: u8,  // X register (index)
    pub y: u8,  // Y register (index)
    pub pc: u16,  // Program counter
    pub sp: u8,  // Stack pointer
    pub p: u8,  // Status register
    pub cyc: u16,  // Cycle count
}

impl Cpu {
    pub open spec fn wf(self) -> bool {
        self.bus.wf()
    }

    pub fn new(cartridge: Box<NESRom>) -> (r: Cpu)
        requires
            cartridge.wf(),
        ensures
            r.wf(),
            r.a == 0,
            r.x == 0,
            r.y == 0,
            r.pc == 0,
            r.sp == 0xFD,
            r.p == 0x24,
            r.cyc == 0,
            r.bus.cartridge == cartridge,
            r.bus.cycles == 0,
            r.bus.nmi.schedule == Option::<usize>::None,
            r.bus.irq.schedule == Option::<usize>::None,
            forall|i: int| 0 <= i < 0x800 ==> r.bus.ram@[i] == 0u8,
    {
        Cpu {
            bus: Bus::new(cartridge),
            a: 0,
            x: 0,
            y: 0,
            pc: 0,
            sp: 0xFD,
            p: 0x24,
            cyc: 0,
        }
    }

    /// Power-on values, then the reset vector fetch.
    pub fn reset(&mut self)
        requires
            old(self).wf(),
        ensures
            final(self).wf(),
            final(self).sp == 0xFD,
            final(self).p == 0x24,
            final(self).pc == spec_peek16(old(self).bus, 0xFFFC),
            final(self).bus.ram == old(self).bus.ram,
            final(self).bus.cycles == spec_cycles_plus(old(self).bus.cycles, 7),
            final(self).a == old(self).a,
            final(self).x == old(self).x,
            final(self).y == old(self).y,
    {
        self.sp = 0xFD;
        self.p = 0x24;
        self.interrupt(InterruptType::Reset);
    }

    /// The carry flag as the 0-or-1 value arithmetic feeds on.
    pub fn carry(&self) -> (r: u8)
        ensures
            r == (if self.p & 1 != 0 {
                1u8
            } else {
                0u8
            }),
    {
        if self.get_flag(CpuStatus::Carry) {
            1
        } else {
            0
        }
    }

    /// Whether indexing from `address` by `offset` leaves the 256-byte page.
    pub fn crossed_page(address: u16, offset: u8) -> (r: bool)
        ensures
            r == ((address.wrapping_add(offset as u16) & 0xFF00) != (address & 0xFF00)),
    {
        (address.wrapping_add(offset as u16)) & 0xFF00 != address & 0xFF00
    }

    /// Take a pending interrupt: a ready NMI wins; a ready IRQ enters only
    /// while the interrupt-disable flag is clear; otherwise nothing happens.
    pub fn service_interrupts(&mut self)
        requires
            old(self).wf(),
        ensures
            final(self).wf(),
            final(self).a == old(self).a,
            final(self).x == old(self).x,
            final(self).y == old(self).y,
            final(self).cyc == old(self).cyc,
            final(self).bus.cartridge == old(self).bus.cartridge,
            interrupt_is_ready(old(self).bus.nmi) ==> {
                &&& final(self).pc == spec_peek16(old(self).bus, 0xFFFA)
                &&& final(self).sp == old(self).sp.wrapping_sub(3)
                &&& final(self).p == spec_set_flag(old(self).p, CpuStatus::InterruptDisable, true)
                &&& final(self).bus.ram@ == old(self).bus.ram@.update(
                    STACK_PAGE + old(self).sp,
                    (old(self).pc >> 8) as u8,
                ).update(STACK_PAGE + old(self).sp.wrapping_sub(1), (old(self).pc & 0xFF) as u8)
                    .update(
                    STACK_PAGE + old(self).sp.wrapping_sub(2),
                    (old(self).p & 0xEF) | 0x20,
                )
                &&& final(self).bus.cycles == spec_cycles_plus(old(self).bus.cycles, 7)
            },
            !interrupt_is_ready(old(self).bus.nmi) && interrupt_is_ready(old(self).bus.irq) && old(
                self,
            ).p & 0x04 == 0 ==> {
                &&& final(self).pc == spec_peek16(old(self).bus, 0xFFFE)
                &&& final(self).sp == old(self).sp.wrapping_sub(3)
                &&& final(self).p == spec_set_flag(old(self).p, CpuStatus::InterruptDisable, true)
                &&& final(self).bus.ram@ == old(self).bus.ram@.update(
                    STACK_PAGE + old(self).sp,
                    (old(self).pc >> 8) as u8,
                ).update(STACK_PAGE + old(self).sp.wrapping_sub(1), (old(self).pc & 0xFF) as u8)
                    .update(
                    STACK_PAGE + old(self).sp.wrapping_sub(2),
                    (old(self).p & 0xEF) | 0x20,
                )
                &&& final(self).bus.cycles == spec_cycles_plus(old(self).bus.cycles, 7)
            },
            !interrupt_is_ready(old(self).bus.nmi) && !(interrupt_is_ready(old(self).bus.irq)
                && old(self).p & 0x04 == 0) ==> *final(self) == *old(self),
    {
        if self.bus.nmi.ready() {
            self.bus.nmi.acknowledge();
            self.interrupt(InterruptType::Nmi);
        } else if self.bus.irq.ready() && !self.get_flag(CpuStatus::InterruptDisable) {
            self.bus.irq.acknowledge();
            self.interrupt(InterruptType::Irq);
        }
    }

    /// One CPU step: service a pending interrupt, then fetch the opcode at
    /// PC and execute it. With no interrupt pending and PC in RAM or
    /// cartridge space, the step is exactly the fetched opcode's effect on
    /// the machine with PC moved past the opcode byte; the interrupt entry
    /// itself is contracted on `service_interrupts`.
    pub fn execute_next_opcode(&mut self) -> (r: Result<(), EmuError>)
        requires
            old(self).wf(),
        ensures
            final(self).wf(),
            r matches Err(e) ==> (e is InvalidOpcode || e is DisabledRegion
                || e is WriteToReadOnly),
            ({
                let quiet = !interrupt_is_ready(old(self).bus.nmi) && !(interrupt_is_ready(
                    old(self).bus.irq,
                ) && old(self).p & 0x04 == 0);
                let fetchable = (old(self).pc <= 0x1FFF || 0x4020 <= old(self).pc) && !(0x4018
                    <= old(self).pc <= 0x401F);
                quiet && fetchable ==> {
                    let code = bus_peek(old(self).bus, old(self).pc);
                    let fetched = (Cpu { pc: old(self).pc.wrapping_add(1), ..*old(self) });
                    &&& (spec_invalid_opcode(code) ==> r == Err::<(), EmuError>(
                        EmuError::InvalidOpcode(code, old(self).pc),
                    ) && *final(self) == fetched)
                    &&& (!spec_invalid_opcode(code) ==> spec_opcode_effect(
                        code,
                        fetched,
                        *final(self),
                        r is Ok,
                    ))
                }
            }),
    {
        self.service_interrupts();

        let opcode = match self.bus.unclocked_read(self.pc) {
            Ok(v) => v,
            Err(e) => {
                return Err(e);
            },
        };
        self.pc = self.pc.wrapping_add(1);
        execute(self, opcode)
    }

    /// Push a byte at $0100 + SP, then move SP down with wrap-around.
    pub fn push_stack(&mut self, value: u8)
        requires
            old(self).wf(),
        ensures
            final(self).wf(),
            final(self).bus.ram@ == old(self).bus.ram@.update(
                STACK_PAGE + old(self).sp,
                value,
            ),
            final(self).sp == old(self).sp.wrapping_sub(1),
            final(self).bus.cycles == old(self).bus.cycles.wrapping_add(1),
            final(self).bus.cartridge == old(self).bus.cartridge,
            final(self).bus.joypad1 == old(self).bus.joypad1,
            final(self).a == old(self).a,
            final(self).x == old(self).x,
            final(self).y == old(self).y,
            final(self).pc == old(self).pc,
            final(self).p == old(self).p,
            final(self).cyc == old(self).cyc,
    {
        let address = STACK_PAGE + self.sp as u16;
        proof {
            assert(address & 0x7FF == address) by (bit_vector)
                requires 0x100 <= address <= 0x1FF;
        }
        let _ = self.bus.write(address, value);
        self.sp = self.sp.wrapping_sub(1);
    }

    /// Push a word high byte first, so the low byte sits at the lower stack
    /// address.
    pub fn push_stack_16(&mut self, value: u16)
        requires
            old(self).wf(),
        ensures
            final(self).wf(),
            final(self).bus.ram@ == old(self).bus.ram@.update(
                STACK_PAGE + old(self).sp,
                (value >> 8) as u8,
            ).update(STACK_PAGE + old(self).sp.wrapping_sub(1), (value & 0xFF) as u8),
            final(self).sp == old(self).sp.wrapping_sub(2),
            final(self).bus.cycles == old(self).bus.cycles.wrapping_add(1).wrapping_add(1),
            final(self).bus.cartridge == old(self).bus.cartridge,
            final(self).bus.joypad1 == old(self).bus.joypad1,
            final(self).a == old(self).a,
            final(self).x == old(self).x,
            final(self).y == old(self).y,
            final(self).pc == old(self).pc,
            final(self).p == old(self).p,
            final(self).cyc == old(self).cyc,
    {
        self.push_stack((value >> 8) as u8);
        self.push_stack((value & 0xFF) as u8);
    }

    /// Move SP up with wrap-around, then read the byte at $0100 + SP.
    pub fn pop_stack(&mut self) -> (r: u8)
        requires
            old(self).wf(),
        ensures
            final(self).wf(),
            r == old(self).bus.ram@[STACK_PAGE + old(self).sp.wrapping_add(1)],
            final(self).sp == old(self).sp.wrapping_add(1),
            final(self).bus.cycles == old(self).bus.cycles.wrapping_add(1),
            final(self).bus.ram == old(self).bus.ram,
            final(self).bus.cartridge == old(self).bus.cartridge,
            final(self).bus.joypad1 == old(self).bus.joypad1,
            final(self).a == old(self).a,
            final(self).x == old(self).x,
            final(self).y == old(self).y,
            final(self).pc == old(self).pc,
            final(self).p == old(self).p,
            final(self).cyc == old(self).cyc,
    {
        self.sp = self.sp.wrapping_add(1);
        let address = STACK_PAGE + self.sp as u16;
        proof {
            assert(address & 0x7FF == address) by (bit_vector)
                requires 0x100 <= address <= 0x1FF;
        }
        match self.bus.read(address) {
            Ok(v) => v,
            Err(_) => {
                proof {
                    assert(false);
                }
                0
            },
        }
    }

    pub(crate) fn next_byte(&mut self) -> (r: Result<u8, EmuError>)
        requires
            old(self).wf(),
        ensures
            final(self).wf(),
            (r is Err) <==> (0x4018 <= old(self).pc <= 0x401F),
            r matches Err(e) ==> e is DisabledRegion,
            !(0x2000 <= old(self).pc <= 0x3FFF) && r is Ok ==> r == Ok::<u8, EmuError>(
                bus_peek(old(self).bus, old(self).pc),
            ),
            r is Ok ==> final(self).pc == old(self).pc.wrapping_add(1),
            final(self).bus.cycles == old(self).bus.cycles.wrapping_add(1),
            final(self).bus.ram == old(self).bus.ram,
            final(self).bus.cartridge == old(self).bus.cartridge,
            final(self).a == old(self).a,
            final(self).x == old(self).x,
            final(self).y == old(self).y,
            final(self).sp == old(self).sp,
            final(self).p == old(self).p,
            final(self).cyc == old(self).cyc,
    {
        let value = match self.bus.read(self.pc) {
            Ok(v) => v,
            Err(e) => {
                return Err(e);
            },
        };
        self.pc = self.pc.wrapping_add(1);
        Ok(value)
    }

    pub(crate) fn next_word(&mut self) -> (r: Result<u16, EmuError>)
        requires
            old(self).wf(),
        ensures
            final(self).wf(),
            r matches Err(e) ==> e is DisabledRegion,
            spec_stable_addr(old(self).pc) && spec_stable_addr(old(self).pc.wrapping_add(1)) ==> r
                == Ok::<u16, EmuError>(spec_peek16(old(self).bus, old(self).pc) as u16),
            r is Ok ==> final(self).pc == old(self).pc.wrapping_add(1).wrapping_add(1),
            r is Ok ==> final(self).bus.cycles == old(self).bus.cycles.wrapping_add(
                1,
            ).wrapping_add(1),
            final(self).bus.ram == old(self).bus.ram,
            final(self).bus.cartridge == old(self).bus.cartridge,
            final(self).a == old(self).a,
            final(self).x == old(self).x,
            final(self).y == old(self).y,
            final(self).sp == old(self).sp,
            final(self).p == old(self).p,
            final(self).cyc == old(self).cyc,
    {
        let low_byte = match self.next_byte() {
            Ok(v) => v as u16,
            Err(e) => {
                return Err(e);
            },
        };
        let high_byte = match self.next_byte() {
            Ok(v) => v as u16,
            Err(e) => {
                return Err(e);
            },
        };

        proof {
            let l = low_byte;
            let h = high_byte;
            assert(l | (h << 8u16) == l + h * 0x100) by (bit_vector)
                requires l < 0x100 && h < 0x100;
        }
        Ok(low_byte | (high_byte << 8))
    }

    /// Pop a word: low byte first, then the high byte.
    pub fn pop_stack_16(&mut self) -> (r: u16)
        requires
            old(self).wf(),
        ensures
            final(self).wf(),
            r == old(self).bus.ram@[STACK_PAGE + old(self).sp.wrapping_add(1)] + old(
                self,
            ).bus.ram@[STACK_PAGE + old(self).sp.wrapping_add(2)] * 0x100,
            final(self).sp == old(self).sp.wrapping_add(2),
            final(self).bus.cycles == old(self).bus.cycles.wrapping_add(1).wrapping_add(1),
            final(self).bus.ram == old(self).bus.ram,
            final(self).bus.cartridge == old(self).bus.cartridge,
            final(self).a == old(self).a,
            final(self).x == old(self).x,
            final(self).y == old(self).y,
            final(self).pc == old(self).pc,
            final(self).p == old(self).p,
            final(self).cyc == old(self).cyc,
    {
        let low_byte = self.pop_stack() as u16;
        let high_byte = self.pop_stack() as u16;

        proof {
            let l = low_byte;
            let h = high_byte;
            assert(l | (h << 8u16) == l + h * 0x100) by (bit_vector)
                requires l < 0x100 && h < 0x100;
        }
        low_byte | (high_byte << 8)
    }

    pub fn set_flag(&mut self, bit: CpuStatus, is_set: bool)
        ensures
            final(self).p == spec_set_flag(old(self).p, bit, is_set),
            final(self).bus == old(self).bus,
            final(self).a == old(self).a,
            final(self).x == old(self).x,
            final(self).y == old(self).y,
            final(self).pc == old(self).pc,
            final(self).sp == old(self).sp,
            final(self).cyc == old(self).cyc,
    {
        let mask = flag_mask(bit);
        self.p = (self.p & !mask) | (if is_set { mask } else { 0 });
    }

    pub fn get_flag(&self, bit: CpuStatus) -> (r: bool)
        ensures
            r == (self.p & spec_flag_mask(bit) != 0),
    {
        self.p & flag_mask(bit) > 0
    }

    /// Decode the operand for an addressing mode, consuming operand bytes at
    /// PC and paying the mode's internal cycles.
    pub fn operand_address(&mut self, mode: AddressMode) -> (r: Result<AddressModeValue, EmuError>)
        requires
            old(self).wf(),
            mode != AddressMode::Implied,
            mode != AddressMode::Offset,
        ensures
            final(self).wf(),
            r matches Err(e) ==> e is DisabledRegion,
            (mode == AddressMode::Immediate || mode == AddressMode::ZeroPage || mode
                == AddressMode::ZeroPageIndexedX || mode == AddressMode::ZeroPageIndexedY || mode
                == AddressMode::IndirectX || mode == AddressMode::IndirectY(true) || mode
                == AddressMode::IndirectY(false)) ==> ((r is Err) <==> (0x4018 <= old(self).pc
                <= 0x401F)),
            (mode == AddressMode::ZeroPage || mode == AddressMode::ZeroPageIndexedX || mode
                == AddressMode::ZeroPageIndexedY) ==> (r matches Ok(
                AddressModeValue::Absolute(a),
            ) ==> a <= 0xFF),
            mode == AddressMode::Immediate ==> (r matches Ok(v) ==> v is Immediate),
            r matches Ok(v) ==> !(v matches AddressModeValue::Relative(_)),
            final(self).a == old(self).a,
            final(self).x == old(self).x,
            final(self).y == old(self).y,
            final(self).sp == old(self).sp,
            final(self).p == old(self).p,
            final(self).bus.ram == old(self).bus.ram,
            final(self).bus.cartridge == old(self).bus.cartridge,
            mode == AddressMode::Immediate && r is Ok ==> {
                &&& final(self).pc == old(self).pc.wrapping_add(1)
                &&& (!(0x2000 <= old(self).pc <= 0x3FFF) ==> r == Ok::<AddressModeValue, EmuError>(
                    AddressModeValue::Immediate(bus_peek(old(self).bus, old(self).pc)),
                ))
            },
            mode == AddressMode::ZeroPage && r is Ok ==> {
                &&& final(self).pc == old(self).pc.wrapping_add(1)
                &&& (!(0x2000 <= old(self).pc <= 0x3FFF) ==> r == Ok::<AddressModeValue, EmuError>(
                    AddressModeValue::Absolute(bus_peek(old(self).bus, old(self).pc) as u16),
                ))
            },
            mode == AddressMode::ZeroPageIndexedX && r is Ok && !(0x2000 <= old(self).pc <= 0x3FFF)
                ==> r == Ok::<AddressModeValue, EmuError>(
                AddressModeValue::Absolute(
                    ((bus_peek(old(self).bus, old(self).pc) + old(self).x) % 256) as u16,
                ),
            ),
            mode == AddressMode::ZeroPageIndexedY && r is Ok && !(0x2000 <= old(self).pc <= 0x3FFF)
                ==> r == Ok::<AddressModeValue, EmuError>(
                AddressModeValue::Absolute(
                    ((bus_peek(old(self).bus, old(self).pc) + old(self).y) % 256) as u16,
                ),
            ),
            mode == AddressMode::Absolute ==> {
                &&& (r is Ok ==> final(self).pc == old(self).pc.wrapping_add(1).wrapping_add(1))
                &&& (spec_stable_addr(old(self).pc) && spec_stable_addr(old(self).pc.wrapping_add(1))
                    ==> r == Ok::<AddressModeValue, EmuError>(
                    AddressModeValue::Absolute(spec_peek16(old(self).bus, old(self).pc) as u16),
                ))
            },
            (mode == AddressMode::AbsoluteIndexedX(true) || mode == AddressMode::AbsoluteIndexedX(
                false,
            )) && spec_stable_addr(old(self).pc) && spec_stable_addr(old(self).pc.wrapping_add(1))
                ==> r == Ok::<AddressModeValue, EmuError>(
                AddressModeValue::Absolute(
                    (spec_peek16(old(self).bus, old(self).pc) as u16).wrapping_add(
                        old(self).x as u16,
                    ),
                ),
            ),
            (mode == AddressMode::AbsoluteIndexedY(true) || mode == AddressMode::AbsoluteIndexedY(
                false,
            )) && spec_stable_addr(old(self).pc) && spec_stable_addr(old(self).pc.wrapping_add(1))
                ==> r == Ok::<AddressModeValue, EmuError>(
                AddressModeValue::Absolute(
                    (spec_peek16(old(self).bus, old(self).pc) as u16).wrapping_add(
                        old(self).y as u16,
                    ),
                ),
            ),
            mode == AddressMode::Indirect ==> {
                &&& (r is Ok ==> final(self).pc == old(self).pc.wrapping_add(1).wrapping_add(1))
                &&& ({
                    let base = spec_peek16(old(self).bus, old(self).pc) as u16;
                    let high_addr = spec_indirect_high(base);
                    (spec_stable_addr(old(self).pc) && spec_stable_addr(old(self).pc.wrapping_add(1))
                        && spec_stable_addr(base) && spec_stable_addr(high_addr)) ==> r == Ok::<
                        AddressModeValue,
                        EmuError,
                    >(
                        AddressModeValue::Absolute(
                            ((bus_peek(old(self).bus, base) as u16) | ((bus_peek(
                                old(self).bus,
                                high_addr,
                            ) as u16) << 8)) as u16,
                        ),
                    )
                })
            },
    {
        match mode {
            AddressMode::ZeroPage => self.zero_page_read(),
            AddressMode::ZeroPageIndexedX => {
                let x = self.x;
                self.zero_page_index_read(x)
            },
            AddressMode::ZeroPageIndexedY => {
                let y = self.y;
                self.zero_page_index_read(y)
            },
            AddressMode::Absolute => self.absolute_read(),
            AddressMode::AbsoluteIndexedX(forced) => {
                let x = self.x;
                self.absolute_index_read(x, forced)
            },
            AddressMode::AbsoluteIndexedY(forced) => {
                let y = self.y;
                self.absolute_index_read(y, forced)
            },
            AddressMode::Indirect => self.indirect_read(),
            AddressMode::IndirectX => self.indirect_x_read(),
            AddressMode::IndirectY(forced) => self.indirect_y_read(forced),
            AddressMode::Immediate => {
                let v = match self.next_byte() {
                    Ok(v) => v,
                    Err(e) => {
                        return Err(e);
                    },
                };
                Ok(AddressModeValue::Immediate(v))
            },
            _ => {
                proof {
                    assert(false);
                }
                Ok(AddressModeValue::Immediate(0))
            },
        }
    }

    fn zero_page_index_read(&mut self, register: u8) -> (r: Result<AddressModeValue, EmuError>)
        requires
            old(self).wf(),
        ensures
            final(self).wf(),
            r matches Err(e) ==> e is DisabledRegion,
            (r is Err) <==> (0x4018 <= old(self).pc <= 0x401F),
            r matches Ok(v) ==> v is Absolute,
            r matches Ok(AddressModeValue::Absolute(a)) ==> a <= 0xFF,
            r is Ok ==> final(self).pc == old(self).pc.wrapping_add(1),
            r is Ok ==> final(self).bus.cycles == old(self).bus.cycles.wrapping_add(
                1,
            ).wrapping_add(1),
            final(self).bus.ram == old(self).bus.ram,
            final(self).bus.cartridge == old(self).bus.cartridge,
            !(0x2000 <= old(self).pc <= 0x3FFF) && r is Ok ==> r == Ok::<
                AddressModeValue,
                EmuError,
            >(AddressModeValue::Absolute(
                ((bus_peek(old(self).bus, old(self).pc) + register) % 256) as u16,
            )),
            final(self).a == old(self).a,
            final(self).x == old(self).x,
            final(self).y == old(self).y,
            final(self).sp == old(self).sp,
            final(self).p == old(self).p,
    {
        let offset = match self.next_byte() {
            Ok(v) => v as u16,
            Err(e) => {
                return Err(e);
            },
        };
        self.bus.tick();
        Ok(AddressModeValue::Absolute((offset + register as u16) % 256))
    }

    fn zero_page_read(&mut self) -> (r: Result<AddressModeValue, EmuError>)
        requires
            old(self).wf(),
        ensures
            final(self).wf(),
            r matches Err(e) ==> e is DisabledRegion,
            (r is Err) <==> (0x4018 <= old(self).pc <= 0x401F),
            r matches Ok(v) ==> v is Absolute,
            r matches Ok(AddressModeValue::Absolute(a)) ==> a <= 0xFF,
            r is Ok ==> final(self).pc == old(self).pc.wrapping_add(1),
            r is Ok ==> final(self).bus.cycles == old(self).bus.cycles.wrapping_add(1),
            final(self).bus.ram == old(self).bus.ram,
            final(self).bus.cartridge == old(self).bus.cartridge,
            !(0x2000 <= old(self).pc <= 0x3FFF) && r is Ok ==> r == Ok::<
                AddressModeValue,
                EmuError,
            >(AddressModeValue::Absolute(bus_peek(old(self).bus, old(self).pc) as u16)),
            final(self).a == old(self).a,
            final(self).x == old(self).x,
            final(self).y == old(self).y,
            final(self).sp == old(self).sp,
            final(self).p == old(self).p,
    {
        let v = match self.next_byte() {
            Ok(v) => v,
            Err(e) => {
                return Err(e);
            },
        };
        Ok(AddressModeValue::Absolute(v as u16))
    }

    fn absolute_read(&mut self) -> (r: Result<AddressModeValue, EmuError>)
        requires
            old(self).wf(),
        ensures
            final(self).wf(),
            r matches Err(e) ==> e is DisabledRegion,
            r matches Ok(v) ==> v is Absolute,
            r is Ok ==> final(self).pc == old(self).pc.wrapping_add(1).wrapping_add(1),
            r is Ok ==> final(self).bus.cycles == old(self).bus.cycles.wrapping_add(
                1,
            ).wrapping_add(1),
            final(self).bus.ram == old(self).bus.ram,
            final(self).bus.cartridge == old(self).bus.cartridge,
            spec_stable_addr(old(self).pc) && spec_stable_addr(old(self).pc.wrapping_add(1)) ==> r
                == Ok::<AddressModeValue, EmuError>(
                AddressModeValue::Absolute(spec_peek16(old(self).bus, old(self).pc) as u16),
            ),
            final(self).a == old(self).a,
            final(self).x == old(self).x,
            final(self).y == old(self).y,
            final(self).sp == old(self).sp,
            final(self).p == old(self).p,
    {
        let v = match self.next_word() {
            Ok(v) => v,
            Err(e) => {
                return Err(e);
            },
        };
        Ok(AddressModeValue::Absolute(v))
    }

    fn absolute_index_read(&mut self, register: u8, is_forced: bool) -> (r: Result<
        AddressModeValue,
        EmuError,
    >)
        requires
            old(self).wf(),
        ensures
            final(self).wf(),
            r matches Err(e) ==> e is DisabledRegion,
            r matches Ok(v) ==> v is Absolute,
            r is Ok ==> final(self).pc == old(self).pc.wrapping_add(1).wrapping_add(1),
            final(self).bus.ram == old(self).bus.ram,
            final(self).bus.cartridge == old(self).bus.cartridge,
            spec_stable_addr(old(self).pc) && spec_stable_addr(old(self).pc.wrapping_add(1)) ==> {
                let base = spec_peek16(old(self).bus, old(self).pc) as u16;
                &&& r == Ok::<AddressModeValue, EmuError>(
                    AddressModeValue::Absolute(base.wrapping_add(register as u16)),
                )
                &&& final(self).bus.cycles == (if is_forced || (base.wrapping_add(register as u16)
                    & 0xFF00) != (base & 0xFF00) {
                    old(self).bus.cycles.wrapping_add(1).wrapping_add(1).wrapping_add(1)
                } else {
                    old(self).bus.cycles.wrapping_add(1).wrapping_add(1)
                })
            },
            final(self).a == old(self).a,
            final(self).x == old(self).x,
            final(self).y == old(self).y,
            final(self).sp == old(self).sp,
            final(self).p == old(self).p,
    {
        let address = match self.next_word() {
            Ok(v) => v,
            Err(e) => {
                return Err(e);
            },
        };

        if is_forced || Cpu::crossed_page(address, register) {
            self.bus.tick();
        }

        Ok(AddressModeValue::Absolute(address.wrapping_add(register as u16)))
    }

    /// The 6502 indirect-JMP quirk: when the pointer sits at the end of a
    /// page, its high byte is fetched from the start of the same page, not
    /// the next one.
    fn indirect_read(&mut self) -> (r: Result<AddressModeValue, EmuError>)
        requires
            old(self).wf(),
        ensures
            final(self).wf(),
            r matches Err(e) ==> e is DisabledRegion,
            r matches Ok(v) ==> v is Absolute,
            r is Ok ==> final(self).pc == old(self).pc.wrapping_add(1).wrapping_add(1),
            final(self).bus.ram == old(self).bus.ram,
            final(self).bus.cartridge == old(self).bus.cartridge,
            ({
                let base = spec_peek16(old(self).bus, old(self).pc) as u16;
                let high_addr = spec_indirect_high(base);
                (spec_stable_addr(old(self).pc) && spec_stable_addr(old(self).pc.wrapping_add(1))
                    && spec_stable_addr(base) && spec_stable_addr(high_addr)) ==> r == Ok::<
                    AddressModeValue,
                    EmuError,
                >(
                    AddressModeValue::Absolute(
                        ((bus_peek(old(self).bus, base) as u16) | ((bus_peek(
                            old(self).bus,
                            high_addr,
                        ) as u16) << 8)) as u16,
                    ),
                )
            }),
            final(self).a == old(self).a,
            final(self).x == old(self).x,
            final(self).y == old(self).y,
            final(self).sp == old(self).sp,
            final(self).p == old(self).p,
    {
        let address = match self.next_word() {
            Ok(v) => v,
            Err(e) => {
                return Err(e);
            },
        };
        proof {
            let a = address;
            assert(a & 0xFF == 0xFF ==> a >= 0xFF) by (bit_vector);
            assert(!(a & 0xFF == 0xFF) ==> a != 0xFFFF) by (bit_vector);
        }
        let high_address = if address & 0xFF == 0xFF {
            address - 0xFF
        } else {
            address + 1
        };

        let low_byte = match self.bus.read(address) {
            Ok(v) => v as u16,
            Err(e) => {
                return Err(e);
            },
        };
        let high_byte = match self.bus.read(high_address) {
            Ok(v) => v as u16,
            Err(e) => {
                return Err(e);
            },
        };

        Ok(AddressModeValue::Absolute(low_byte | (high_byte << 8)))
    }

    fn indirect_x_read(&mut self) -> (r: Result<AddressModeValue, EmuError>)
        requires
            old(self).wf(),
        ensures
            final(self).wf(),
            r matches Err(e) ==> e is DisabledRegion,
            (r is Err) <==> (0x4018 <= old(self).pc <= 0x401F),
            r matches Ok(v) ==> v is Absolute,
            r is Ok ==> final(self).pc == old(self).pc.wrapping_add(1),
            r is Ok ==> final(self).bus.cycles == old(self).bus.cycles.wrapping_add(
                1,
            ).wrapping_add(1).wrapping_add(1).wrapping_add(1),
            final(self).bus.ram == old(self).bus.ram,
            final(self).bus.cartridge == old(self).bus.cartridge,
            !(0x2000 <= old(self).pc <= 0x3FFF) && r is Ok ==> {
                let arg_x = bus_peek(old(self).bus, old(self).pc) + old(self).x;
                let low_address = (arg_x % 256) as u16;
                let high_address = ((arg_x + 1) % 256) as u16;
                r == Ok::<AddressModeValue, EmuError>(
                    AddressModeValue::Absolute(
                        ((bus_peek(old(self).bus, low_address) as u16) | ((bus_peek(
                            old(self).bus,
                            high_address,
                        ) as u16) << 8)) as u16,
                    ),
                )
            },
            final(self).a == old(self).a,
            final(self).x == old(self).x,
            final(self).y == old(self).y,
            final(self).sp == old(self).sp,
            final(self).p == old(self).p,
    {
        // val = PEEK(PEEK((arg + X) % 256) + PEEK((arg + X + 1) % 256) * 256)
        self.bus.tick();
        let fetched = match self.next_byte() {
            Ok(v) => v,
            Err(e) => {
                return Err(e);
            },
        };
        let arg_x = (fetched as u16).wrapping_add(self.x as u16);
        let low_address = arg_x % 256;
        let high_address = arg_x.wrapping_add(1) % 256;

        let low_byte = match self.bus.read(low_address) {
            Ok(v) => v as u16,
            Err(e) => {
                return Err(e);
            },
        };
        let high_byte = match self.bus.read(high_address) {
            Ok(v) => v as u16,
            Err(e) => {
                return Err(e);
            },
        };

        Ok(AddressModeValue::Absolute(low_byte | high_byte << 8))
    }

    fn indirect_y_read(&mut self, is_forced: bool) -> (r: Result<AddressModeValue, EmuError>)
        requires
            old(self).wf(),
        ensures
            final(self).wf(),
            r matches Err(e) ==> e is DisabledRegion,
            (r is Err) <==> (0x4018 <= old(self).pc <= 0x401F),
            r matches Ok(v) ==> v is Absolute,
            r is Ok ==> final(self).pc == old(self).pc.wrapping_add(1),
            final(self).bus.ram == old(self).bus.ram,
            final(self).bus.cartridge == old(self).bus.cartridge,
            !(0x2000 <= old(self).pc <= 0x3FFF) && r is Ok ==> {
                let arg = bus_peek(old(self).bus, old(self).pc) as u16;
                let base = ((bus_peek(old(self).bus, arg) as u16) | ((bus_peek(
                    old(self).bus,
                    ((arg + 1) as u16) % 0x100,
                ) as u16) << 8)) as u16;
                &&& r == Ok::<AddressModeValue, EmuError>(
                    AddressModeValue::Absolute(base.wrapping_add(old(self).y as u16)),
                )
                &&& final(self).bus.cycles == (if is_forced || (base.wrapping_add(
                    old(self).y as u16,
                ) & 0xFF00) != (base & 0xFF00) {
                    old(self).bus.cycles.wrapping_add(1).wrapping_add(1).wrapping_add(
                        1,
                    ).wrapping_add(1)
                } else {
                    old(self).bus.cycles.wrapping_add(1).wrapping_add(1).wrapping_add(1)
                })
            },
            final(self).a == old(self).a,
            final(self).x == old(self).x,
            final(self).y == old(self).y,
            final(self).sp == old(self).sp,
            final(self).p == old(self).p,
    {
        let arg = match self.next_byte() {
            Ok(v) => v as u16,
            Err(e) => {
                return Err(e);
            },
        };

        let low_byte = match self.bus.read(arg) {
            Ok(v) => v as u16,
            Err(e) => {
                return Err(e);
            },
        };
        let high_byte = match self.bus.read((arg + 1) % 0x100) {
            Ok(v) => v as u16,
            Err(e) => {
                return Err(e);
            },
        };

        let base_address = low_byte | high_byte << 8;
        if is_forced || Cpu::crossed_page(base_address, self.y) {
            self.bus.tick();
        }

        Ok(AddressModeValue::Absolute(base_address.wrapping_add(self.y as u16)))
    }

    /// The interrupt entry sequence: internal cycles, then (except on reset)
    /// the return address and status byte are pushed with the unused bit
    /// set, interrupts are disabled, and PC vectors.
    pub fn interrupt(&mut self, interrupt: InterruptType)
        requires
            old(self).wf(),
        ensures
            final(self).wf(),
            final(self).a == old(self).a,
            final(self).x == old(self).x,
            final(self).y == old(self).y,
            final(self).cyc == old(self).cyc,
            final(self).bus.cartridge == old(self).bus.cartridge,
            final(self).bus.cycles == spec_cycles_plus(
                old(self).bus.cycles,
                match interrupt {
                    InterruptType::Nmi | InterruptType::Irq => 7int,
                    InterruptType::Reset => 7int,
                    InterruptType::Break => 6int,
                },
            ),
            interrupt == InterruptType::Reset ==> {
                &&& final(self).pc == spec_peek16(old(self).bus, 0xFFFC)
                &&& final(self).sp == old(self).sp
                &&& final(self).p == old(self).p
                &&& final(self).bus.ram == old(self).bus.ram
            },
            interrupt == InterruptType::Break ==> {
                &&& final(self).pc == spec_peek16(old(self).bus, 0xFFFE)
                &&& final(self).sp == old(self).sp.wrapping_sub(3)
                &&& final(self).p == spec_set_flag(old(self).p, CpuStatus::InterruptDisable, true)
                &&& final(self).bus.ram@ == old(self).bus.ram@.update(
                    STACK_PAGE + old(self).sp,
                    (old(self).pc >> 8) as u8,
                ).update(STACK_PAGE + old(self).sp.wrapping_sub(1), (old(self).pc & 0xFF) as u8)
                    .update(
                    STACK_PAGE + old(self).sp.wrapping_sub(2),
                    (old(self).p & 0xEF) | 0x20,
                )
            },
            interrupt == InterruptType::Nmi || interrupt == InterruptType::Irq ==> {
                &&& final(self).pc == spec_peek16(
                    old(self).bus,
                    if interrupt == InterruptType::Nmi {
                        0xFFFAu16
                    } else {
                        0xFFFEu16
                    },
                )
                &&& final(self).sp == old(self).sp.wrapping_sub(3)
                &&& final(self).p == spec_set_flag(old(self).p, CpuStatus::InterruptDisable, true)
                &&& final(self).bus.ram@ == old(self).bus.ram@.update(
                    STACK_PAGE + old(self).sp,
                    (old(self).pc >> 8) as u8,
                ).update(STACK_PAGE + old(self).sp.wrapping_sub(1), (old(self).pc & 0xFF) as u8)
                    .update(
                    STACK_PAGE + old(self).sp.wrapping_sub(2),
                    (old(self).p & 0xEF) | 0x20,
                )
            },
    {
        let ticks: u8 = match interrupt {
            InterruptType::Nmi | InterruptType::Irq => 2,
            InterruptType::Reset => 5,
            InterruptType::Break => 1,
        };

        let mut t: u8 = 0;
        while t < ticks
            invariant
                self.wf(),
                t <= ticks,
                self.bus.cycles == spec_cycles_plus(old(self).bus.cycles, t as int),
                self.bus.ram == old(self).bus.ram,
                self.bus.cartridge == old(self).bus.cartridge,
                self.a == old(self).a,
                self.x == old(self).x,
                self.y == old(self).y,
                self.pc == old(self).pc,
                self.sp == old(self).sp,
                self.p == old(self).p,
                self.cyc == old(self).cyc,
            decreases ticks - t,
        {
            self.bus.tick();
            t = t + 1;
        }

        if !matches!(interrupt, InterruptType::Reset) {
            self.push_stack_16(self.pc);
            let pushed = (self.p & 0xEF) | 0x20;
            self.push_stack(pushed);
            self.set_flag(CpuStatus::InterruptDisable, true);
        }

        let vector = match interrupt {
            InterruptType::Nmi => InterruptVector::Nmi,
            InterruptType::Reset => InterruptVector::Reset,
            InterruptType::Irq => InterruptVector::Irq,
            InterruptType::Break => InterruptVector::Irq,
        };

        let address = vector_address(vector);
        proof {
            let c0 = old(self).bus.cycles;
            let t = ticks as int;
            assert(spec_cycles_plus(c0, t + 1) == spec_cycles_plus(c0, t).wrapping_add(1));
            assert(spec_cycles_plus(c0, t + 2) == spec_cycles_plus(c0, t + 1).wrapping_add(1));
            assert(spec_cycles_plus(c0, t + 3) == spec_cycles_plus(c0, t + 2).wrapping_add(1));
            assert(spec_cycles_plus(c0, t + 4) == spec_cycles_plus(c0, t + 3).wrapping_add(1));
            assert(spec_cycles_plus(c0, t + 5) == spec_cycles_plus(c0, t + 4).wrapping_add(1));
            let lo = bus_peek(old(self).bus, address);
            let hi = bus_peek(old(self).bus, address.wrapping_add(1));
            assert(((lo as u16) | ((hi as u16) << 8)) == lo as u16 + (hi as u16) * 0x100)
                by (bit_vector);
        }
        let word = match self.bus.read_word(address) {
            Ok(v) => v,
            Err(_) => {
                proof {
                    assert(false);
                }
                0
            },
        };
        self.pc = word;
    }
}

/// The address the indirect-JMP high-byte fetch uses: one past the pointer,
/// except that crossing out of the page wraps back to its start.
pub open spec fn spec_indirect_high(address: u16) -> u16 {
    if address & 0xFF == 0xFF {
        (address - 0xFF) as u16
    } else {
        (address + 1) as u16
    }
}

/// The quirky high-byte fetch of an indirect JMP never leaves the pointer's
/// page: at $xxFF it reads from $xx00, not from the next page.
pub proof fn lemma_indirect_jmp_page_wrap(address: u16)
    requires
        address & 0xFF == 0xFF,
    ensures
        spec_indirect_high(address) == address & 0xFF00,
        spec_indirect_high(address) != address.wrapping_add(1),
{
    let a = address;
    assert(a & 0xFF == 0xFF ==> (a - 0xFF) as u16 == (a & 0xFF00)) by (bit_vector);
    assert(a & 0xFF == 0xFF ==> (a & 0xFF00) != ((a + 1) as u16) && (a & 0xFF00) != ((a + 1
        - 0x10000) as u16)) by (bit_vector)
        requires a & 0xFF == 0xFF;
}

} // verus!
