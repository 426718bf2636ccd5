//! Instruction handlers for the standalone register-file CPU.

use vstd::prelude::*;

use crate::address_mode::AddressModeValue;
use crate::bus::Bus;
use crate::cpu::{spec_set_flag, Cpu, CpuStatus};

verus! {

/// One decoded instruction: the operand it expects and its base cycle cost.
pub struct OpCode {
    pub address_mode: AddressModeValue,
    pub cycles: u8,
}

pub fn nop(cpu: &mut Cpu, bus: &mut Bus, _address_mode_value: AddressModeValue)
    ensures
        *final(cpu) == *old(cpu),
        *final(bus) == *old(bus),
{
}

/// Increment X with wrap-around; Z and N track the new value.
pub fn inx(cpu: &mut Cpu, bus: &mut Bus, mode: AddressModeValue)
    requires
        mode == AddressModeValue::Implied,
    ensures
        final(cpu).x == old(cpu).x.wrapping_add(1),
        final(cpu).p == spec_set_flag(
            spec_set_flag(old(cpu).p, CpuStatus::Zero, old(cpu).x.wrapping_add(1) == 0),
            CpuStatus::Negative,
            old(cpu).x.wrapping_add(1) >> 7 == 1,
        ),
        final(cpu).a == old(cpu).a,
        final(cpu).y == old(cpu).y,
        final(cpu).pc == old(cpu).pc,
        final(cpu).sp == old(cpu).sp,
        *final(bus) == *old(bus),
{
    cpu.x = cpu.x.wrapping_add(1);
    cpu.set_flag(CpuStatus::Zero, cpu.x == 0);
    cpu.set_flag(CpuStatus::Negative, cpu.x >> 7 == 1);
}

} // verus!
