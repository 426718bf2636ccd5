//! The instruction set: one handler per mnemonic, dispatched by a match
//! over the opcode byte. Documented instructions cover the full official
//! set; the undocumented ones the common validation programs rely on (LAX,
//! SAX, DCP, ISC, SLO, RLA, SRE, RRA and the extra NOP and SBC encodings)
//! are included, and every remaining encoding reports an invalid opcode.

use vstd::prelude::*;

use super::address_mode::{AddressMode, AddressModeValue};
use super::bus::bus_peek;
use super::cpu::{spec_indirect_high, spec_peek16, spec_set_flag, spec_sign_extend, spec_stable_addr, Cpu, CpuStatus, STACK_PAGE};
use crate::errors::EmuError;

verus! {

/// The status byte after the zero and negative flags have tracked `value`.
pub open spec fn spec_znp(p: u8, value: u8) -> u8 {
    spec_set_flag(
        spec_set_flag(p, CpuStatus::Zero, value == 0),
        CpuStatus::Negative,
        value >> 7 != 0,
    )
}

/// The status byte after a bit test of memory byte `m` against the
/// accumulator: zero from the masked accumulator, negative and overflow
/// copied from bits 7 and 6 of the operand.
pub open spec fn spec_bit_flags(p: u8, a: u8, m: u8) -> u8 {
    spec_set_flag(
        spec_set_flag(spec_set_flag(p, CpuStatus::Zero, m & a == 0), CpuStatus::Negative, m & 0x80 != 0),
        CpuStatus::Overflow,
        m & 0x40 != 0,
    )
}

/// The status byte after carry and overflow have tracked an addition of
/// `left` and `right` with 16-bit intermediate `result`.
pub open spec fn spec_carry_overflow(p: u8, left: u8, right: u8, result: u16) -> u8 {
    spec_set_flag(
        spec_set_flag(p, CpuStatus::Carry, result > 0xFF),
        CpuStatus::Overflow,
        (left ^ (result as u8)) & (right ^ (result as u8)) & 0x80 != 0,
    )
}

/// The 16-bit sum an add-with-carry produces before truncation.
pub open spec fn spec_adc_sum(a: u8, m: u8, p: u8) -> int {
    a + m + (if p & 1 != 0 {
        1int
    } else {
        0int
    })
}

/// The program counter and the zero-page operand it names are out of the
/// bus's side-effecting windows, so the operand byte is a stable value.
pub open spec fn spec_zp_stable(pre: Cpu) -> bool {
    &&& !(0x2000 <= pre.pc <= 0x3FFF)
    &&& !(0x4018 <= pre.pc <= 0x401F)
}

/// The zero-page address named by the operand byte at PC.
pub open spec fn spec_zp_target(pre: Cpu) -> u16 {
    bus_peek(pre.bus, pre.pc) as u16
}

/// The absolute target named by the operand word at PC.
pub open spec fn spec_abs_target(pre: Cpu) -> u16 {
    spec_peek16(pre.bus, pre.pc) as u16
}

/// Both operand bytes and the absolute target they name sit in RAM or
/// cartridge space, so the whole access is stable.
pub open spec fn spec_abs_stable(pre: Cpu) -> bool {
    &&& spec_stable_addr(pre.pc)
    &&& spec_stable_addr(pre.pc.wrapping_add(1))
    &&& spec_stable_addr(spec_abs_target(pre))
}

/// Whether the mode's operand is a stable function of the pre-state: an
/// immediate byte, zero-page cell or absolute cell read from RAM or
/// cartridge space.
pub open spec fn spec_operand_stable(mode: AddressMode, pre: Cpu) -> bool {
    if mode == AddressMode::Immediate || mode == AddressMode::ZeroPage {
        spec_zp_stable(pre)
    } else if mode == AddressMode::Absolute {
        spec_abs_stable(pre)
    } else {
        false
    }
}

/// The operand value such a stable mode reads.
pub open spec fn spec_stable_operand(mode: AddressMode, pre: Cpu) -> u8 {
    if mode == AddressMode::Immediate {
        bus_peek(pre.bus, pre.pc)
    } else if mode == AddressMode::ZeroPage {
        bus_peek(pre.bus, spec_zp_target(pre))
    } else {
        bus_peek(pre.bus, spec_abs_target(pre))
    }
}

/// Whether a handler's error could only have come from the bus: a read of
/// the disabled region or a write to a read-only register.
pub open spec fn spec_only_bus_errors(r: Result<(), EmuError>) -> bool {
    r matches Err(e) ==> (e is DisabledRegion || e is WriteToReadOnly)
}

/// The opcodes with no implementation.
pub open spec fn spec_invalid_opcode(code: u8) -> bool {
    ||| code == 0x02
    ||| code == 0x0B
    ||| code == 0x12
    ||| code == 0x22
    ||| code == 0x2B
    ||| code == 0x32
    ||| code == 0x42
    ||| code == 0x4B
    ||| code == 0x52
    ||| code == 0x62
    ||| code == 0x6B
    ||| code == 0x72
    ||| code == 0x8B
    ||| code == 0x92
    ||| code == 0x93
    ||| code == 0x9B
    ||| code == 0x9C
    ||| code == 0x9E
    ||| code == 0x9F
    ||| code == 0xAB
    ||| code == 0xB2
    ||| code == 0xBB
    ||| code == 0xCB
    ||| code == 0xD2
    ||| code == 0xF2
}

/// The zero and negative bits of the updated status byte track the value,
/// and every other bit keeps its old reading.
pub proof fn lemma_znp_bits(p: u8, value: u8)
    ensures
        (spec_znp(p, value) & 0x02 != 0) == (value == 0),
        (spec_znp(p, value) & 0x80 != 0) == (value >> 7 == 1),
        spec_znp(p, value) & 0x7D == p & 0x7D,
        spec_znp(p, value) & 0x7C == p & 0x7C,
{
    let z: u8 = if value == 0 { 2 } else { 0 };
    let n: u8 = if value >> 7 != 0 { 0x80 } else { 0 };
    assert(((((p & !2u8) | z) & !0x80u8) | n) & 0x02 == z && ((((p & !2u8) | z) & !0x80u8) | n)
        & 0x80 == n && ((((p & !2u8) | z) & !0x80u8) | n) & 0x7D == p & 0x7D && ((((p & !2u8) | z)
        & !0x80u8) | n) & 0x7C == p & 0x7C && (value >> 7 != 0 ==> value >> 7 == 1))
        by (bit_vector)
        requires z == 0 || z == 2, n == 0 || n == 0x80;
}

/// The carry and overflow update leaves the zero and negative bits alone,
/// and its carry bit reads back as the carry-out.
pub proof fn lemma_carry_overflow_bits(p: u8, left: u8, right: u8, result: u16)
    ensures
        (spec_carry_overflow(p, left, right, result) & 0x01 != 0) == (result > 0xFF),
        spec_carry_overflow(p, left, right, result) & 0xBE == p & 0xBE,
{
    let c: u8 = if result > 0xFF { 1 } else { 0 };
    let v: u8 = if (left ^ (result as u8)) & (right ^ (result as u8)) & 0x80 != 0 { 0x40 } else { 0 };
    assert(((((p & !1u8) | c) & !0x40u8) | v) & 0x01 == c) by (bit_vector)
        requires c == 0 || c == 1, v == 0 || v == 0x40;
    assert(((((p & !1u8) | c) & !0x40u8) | v) & 0xBE == p & 0xBE) by (bit_vector)
        requires c == 0 || c == 1, v == 0 || v == 0x40;
}

/// Setting the carry flag moves no other bit of the status byte.
pub proof fn lemma_carry_other_bits(p: u8)
    ensures
        spec_set_flag(p, CpuStatus::Carry, true) & 0x7C == p & 0x7C,
        spec_set_flag(p, CpuStatus::Carry, false) & 0x7C == p & 0x7C,
{
    assert(((p & !1u8) | 1u8) & 0x7C == p & 0x7C && ((p & !1u8) | 0u8) & 0x7C == p & 0x7C)
        by (bit_vector);
}

/// What executing one decoded opcode does to the machine, to the level its
/// handler pins down: register-only instructions are given exactly; memory
/// instructions state the registers and flag bits they leave alone, with
/// the flag-result couplings their handlers carry.
pub open spec fn spec_opcode_effect(code: u8, pre: Cpu, post: Cpu, ok: bool) -> bool {
    if code == 0x4C {
        &&& post.a == pre.a
        &&& post.x == pre.x
        &&& post.y == pre.y
        &&& post.sp == pre.sp
        &&& post.p == pre.p
        &&& (spec_stable_addr(pre.pc) && spec_stable_addr(pre.pc.wrapping_add(1)) ==> ok
            && post.pc == spec_peek16(pre.bus, pre.pc))
    } else if code == 0xA9 {
        &&& (ok ==> post.p == spec_znp(pre.p, post.a))
        &&& post.x == pre.x
        &&& post.y == pre.y
        &&& post.sp == pre.sp
        &&& (spec_operand_stable(AddressMode::Immediate, pre) ==> ok && post.a == spec_stable_operand(
            AddressMode::Immediate,
            pre,
        ))
        &&& (ok && !(0x2000 <= pre.pc <= 0x3FFF) ==> post.a == bus_peek(pre.bus, pre.pc))
    } else if code == 0xEA {
        &&& post.a == pre.a
        &&& post.x == pre.x
        &&& post.y == pre.y
        &&& post.sp == pre.sp
        &&& post.p == pre.p
        &&& post.pc == pre.pc
        &&& post.bus.cycles == pre.bus.cycles.wrapping_add(1)
    } else if code == 0x61 || code == 0x65 || code == 0x69 || code == 0x6D || code == 0x71 || code == 0x75 || code == 0x79 || code == 0x7D {
        &&& post.x == pre.x
        &&& post.y == pre.y
        &&& post.sp == pre.sp
        &&& (code == 0x69 && spec_operand_stable(AddressMode::Immediate, pre) ==> ok
            && post.a == (spec_adc_sum(pre.a, spec_stable_operand(AddressMode::Immediate, pre), pre.p) % 256) as u8 && post.p == spec_carry_overflow(spec_znp(pre.p, post.a), pre.a, spec_stable_operand(AddressMode::Immediate, pre), spec_adc_sum(pre.a, spec_stable_operand(AddressMode::Immediate, pre), pre.p) as u16))
        &&& (code == 0x65 && spec_operand_stable(AddressMode::ZeroPage, pre) ==> ok
            && post.a == (spec_adc_sum(pre.a, spec_stable_operand(AddressMode::ZeroPage, pre), pre.p) % 256) as u8 && post.p == spec_carry_overflow(spec_znp(pre.p, post.a), pre.a, spec_stable_operand(AddressMode::ZeroPage, pre), spec_adc_sum(pre.a, spec_stable_operand(AddressMode::ZeroPage, pre), pre.p) as u16))
        &&& (code == 0x6D && spec_operand_stable(AddressMode::Absolute, pre) ==> ok
            && post.a == (spec_adc_sum(pre.a, spec_stable_operand(AddressMode::Absolute, pre), pre.p) % 256) as u8 && post.p == spec_carry_overflow(spec_znp(pre.p, post.a), pre.a, spec_stable_operand(AddressMode::Absolute, pre), spec_adc_sum(pre.a, spec_stable_operand(AddressMode::Absolute, pre), pre.p) as u16))
    } else if code == 0x21 || code == 0x25 || code == 0x29 || code == 0x2D || code == 0x31 || code == 0x35 || code == 0x39 || code == 0x3D {
        &&& (ok ==> post.p == spec_znp(pre.p, post.a))
        &&& post.x == pre.x
        &&& post.y == pre.y
        &&& post.sp == pre.sp
        &&& (code == 0x29 && spec_operand_stable(AddressMode::Immediate, pre) ==> ok
            && post.a == (pre.a & spec_stable_operand(AddressMode::Immediate, pre)))
        &&& (code == 0x25 && spec_operand_stable(AddressMode::ZeroPage, pre) ==> ok
            && post.a == (pre.a & spec_stable_operand(AddressMode::ZeroPage, pre)))
        &&& (code == 0x2D && spec_operand_stable(AddressMode::Absolute, pre) ==> ok
            && post.a == (pre.a & spec_stable_operand(AddressMode::Absolute, pre)))
    } else if code == 0x06 || code == 0x0E || code == 0x16 || code == 0x1E {
        &&& post.a == pre.a
        &&& post.x == pre.x
        &&& post.y == pre.y
        &&& post.sp == pre.sp
    } else if code == 0x0A {
        &&& post.a == pre.a << 1
        &&& post.x == pre.x
        &&& post.y == pre.y
        &&& post.sp == pre.sp
        &&& post.p == spec_znp(spec_set_flag(pre.p, CpuStatus::Carry, pre.a & 0x80 > 0), pre.a << 1)
        &&& post.pc == pre.pc
        &&& post.bus.cycles == pre.bus.cycles.wrapping_add(1)
        &&& post.bus.ram == pre.bus.ram
    } else if code == 0x90 {
        &&& (ok <==> !(0x4018 <= pre.pc <= 0x401F))
        &&& (ok ==> spec_branch_effect(pre, post, pre.p & 0x01 == 0))
    } else if code == 0xB0 {
        &&& (ok <==> !(0x4018 <= pre.pc <= 0x401F))
        &&& (ok ==> spec_branch_effect(pre, post, pre.p & 0x01 != 0))
    } else if code == 0xF0 {
        &&& (ok <==> !(0x4018 <= pre.pc <= 0x401F))
        &&& (ok ==> spec_branch_effect(pre, post, pre.p & 0x02 != 0))
    } else if code == 0x24 || code == 0x2C {
        &&& post.a == pre.a
        &&& post.x == pre.x
        &&& post.y == pre.y
        &&& post.sp == pre.sp
        &&& (code == 0x24 && spec_zp_stable(pre) ==> ok && post.p == spec_bit_flags(
            pre.p,
            pre.a,
            bus_peek(pre.bus, spec_zp_target(pre)),
        ))
        &&& (code == 0x2C && spec_abs_stable(pre) ==> ok && post.p == spec_bit_flags(
            pre.p,
            pre.a,
            bus_peek(pre.bus, spec_abs_target(pre)),
        ))
    } else if code == 0x30 {
        &&& (ok <==> !(0x4018 <= pre.pc <= 0x401F))
        &&& (ok ==> spec_branch_effect(pre, post, pre.p & 0x80 != 0))
    } else if code == 0xD0 {
        &&& (ok <==> !(0x4018 <= pre.pc <= 0x401F))
        &&& (ok ==> spec_branch_effect(pre, post, pre.p & 0x02 == 0))
    } else if code == 0x10 {
        &&& (ok <==> !(0x4018 <= pre.pc <= 0x401F))
        &&& (ok ==> spec_branch_effect(pre, post, pre.p & 0x80 == 0))
    } else if code == 0x00 {
        &&& post.a == pre.a
        &&& post.x == pre.x
        &&& post.y == pre.y
        &&& post.sp == pre.sp.wrapping_sub(3)
        &&& post.p == spec_set_flag(pre.p, CpuStatus::InterruptDisable, true)
        &&& post.pc == spec_peek16(pre.bus, 0xFFFE)
        &&& post.bus.ram@ == pre.bus.ram@.update(
            STACK_PAGE + pre.sp,
            (pre.pc.wrapping_add(1) >> 8) as u8,
        ).update(STACK_PAGE + pre.sp.wrapping_sub(1), (pre.pc.wrapping_add(1) & 0xFF) as u8).update(
            STACK_PAGE + pre.sp.wrapping_sub(2),
            pre.p | 0x30,
        )
    } else if code == 0x50 {
        &&& (ok <==> !(0x4018 <= pre.pc <= 0x401F))
        &&& (ok ==> spec_branch_effect(pre, post, pre.p & 0x40 == 0))
    } else if code == 0x70 {
        &&& (ok <==> !(0x4018 <= pre.pc <= 0x401F))
        &&& (ok ==> spec_branch_effect(pre, post, pre.p & 0x40 != 0))
    } else if code == 0x18 {
        &&& post.a == pre.a
        &&& post.x == pre.x
        &&& post.y == pre.y
        &&& post.sp == pre.sp
        &&& post.p == spec_set_flag(pre.p, CpuStatus::Carry, false)
        &&& post.pc == pre.pc
        &&& post.bus.cycles == pre.bus.cycles.wrapping_add(1)
        &&& post.bus.ram == pre.bus.ram
    } else if code == 0xD8 {
        &&& post.a == pre.a
        &&& post.x == pre.x
        &&& post.y == pre.y
        &&& post.sp == pre.sp
        &&& post.p == spec_set_flag(pre.p, CpuStatus::Decimal, false)
        &&& post.pc == pre.pc
        &&& post.bus.cycles == pre.bus.cycles.wrapping_add(1)
        &&& post.bus.ram == pre.bus.ram
    } else if code == 0xB8 {
        &&& post.a == pre.a
        &&& post.x == pre.x
        &&& post.y == pre.y
        &&& post.sp == pre.sp
        &&& post.p == spec_set_flag(pre.p, CpuStatus::Overflow, false)
        &&& post.pc == pre.pc
        &&& post.bus.cycles == pre.bus.cycles.wrapping_add(1)
        &&& post.bus.ram == pre.bus.ram
    } else if code == 0xC1 || code == 0xC5 || code == 0xC9 || code == 0xCD || code == 0xD1 || code == 0xD5 || code == 0xD9 || code == 0xDD {
        &&& post.a == pre.a
        &&& post.x == pre.x
        &&& post.y == pre.y
        &&& post.sp == pre.sp
        &&& (ok ==> post.p & 0x7C == pre.p & 0x7C)
        &&& (code == 0xC9 && spec_operand_stable(AddressMode::Immediate, pre) ==> ok
            && post.p == spec_set_flag(spec_znp(pre.p, pre.a.wrapping_sub(spec_stable_operand(AddressMode::Immediate, pre))), CpuStatus::Carry, pre.a >= spec_stable_operand(AddressMode::Immediate, pre)))
        &&& (code == 0xC5 && spec_operand_stable(AddressMode::ZeroPage, pre) ==> ok
            && post.p == spec_set_flag(spec_znp(pre.p, pre.a.wrapping_sub(spec_stable_operand(AddressMode::ZeroPage, pre))), CpuStatus::Carry, pre.a >= spec_stable_operand(AddressMode::ZeroPage, pre)))
        &&& (code == 0xCD && spec_operand_stable(AddressMode::Absolute, pre) ==> ok
            && post.p == spec_set_flag(spec_znp(pre.p, pre.a.wrapping_sub(spec_stable_operand(AddressMode::Absolute, pre))), CpuStatus::Carry, pre.a >= spec_stable_operand(AddressMode::Absolute, pre)))
    } else if code == 0xE0 || code == 0xE4 || code == 0xEC {
        &&& post.a == pre.a
        &&& post.x == pre.x
        &&& post.y == pre.y
        &&& post.sp == pre.sp
        &&& (ok ==> post.p & 0x7C == pre.p & 0x7C)
        &&& (code == 0xE0 && spec_operand_stable(AddressMode::Immediate, pre) ==> ok
            && post.p == spec_set_flag(spec_znp(pre.p, pre.x.wrapping_sub(spec_stable_operand(AddressMode::Immediate, pre))), CpuStatus::Carry, pre.x >= spec_stable_operand(AddressMode::Immediate, pre)))
        &&& (code == 0xE4 && spec_operand_stable(AddressMode::ZeroPage, pre) ==> ok
            && post.p == spec_set_flag(spec_znp(pre.p, pre.x.wrapping_sub(spec_stable_operand(AddressMode::ZeroPage, pre))), CpuStatus::Carry, pre.x >= spec_stable_operand(AddressMode::ZeroPage, pre)))
        &&& (code == 0xEC && spec_operand_stable(AddressMode::Absolute, pre) ==> ok
            && post.p == spec_set_flag(spec_znp(pre.p, pre.x.wrapping_sub(spec_stable_operand(AddressMode::Absolute, pre))), CpuStatus::Carry, pre.x >= spec_stable_operand(AddressMode::Absolute, pre)))
    } else if code == 0xC0 || code == 0xC4 || code == 0xCC {
        &&& post.a == pre.a
        &&& post.x == pre.x
        &&& post.y == pre.y
        &&& post.sp == pre.sp
        &&& (ok ==> post.p & 0x7C == pre.p & 0x7C)
        &&& (code == 0xC0 && spec_operand_stable(AddressMode::Immediate, pre) ==> ok
            && post.p == spec_set_flag(spec_znp(pre.p, pre.y.wrapping_sub(spec_stable_operand(AddressMode::Immediate, pre))), CpuStatus::Carry, pre.y >= spec_stable_operand(AddressMode::Immediate, pre)))
        &&& (code == 0xC4 && spec_operand_stable(AddressMode::ZeroPage, pre) ==> ok
            && post.p == spec_set_flag(spec_znp(pre.p, pre.y.wrapping_sub(spec_stable_operand(AddressMode::ZeroPage, pre))), CpuStatus::Carry, pre.y >= spec_stable_operand(AddressMode::ZeroPage, pre)))
        &&& (code == 0xCC && spec_operand_stable(AddressMode::Absolute, pre) ==> ok
            && post.p == spec_set_flag(spec_znp(pre.p, pre.y.wrapping_sub(spec_stable_operand(AddressMode::Absolute, pre))), CpuStatus::Carry, pre.y >= spec_stable_operand(AddressMode::Absolute, pre)))
    } else if code == 0xC3 || code == 0xC7 || code == 0xCF || code == 0xD3 || code == 0xD7 || code == 0xDB || code == 0xDF {
        &&& post.a == pre.a
        &&& post.x == pre.x
        &&& post.y == pre.y
        &&& post.sp == pre.sp
    } else if code == 0xC6 || code == 0xCE || code == 0xD6 || code == 0xDE {
        &&& post.a == pre.a
        &&& post.x == pre.x
        &&& post.y == pre.y
        &&& post.sp == pre.sp
        &&& (ok ==> post.p & 0x7D == pre.p & 0x7D)
    } else if code == 0xCA {
        &&& post.a == pre.a
        &&& post.x == pre.x.wrapping_sub(1)
        &&& post.y == pre.y
        &&& post.sp == pre.sp
        &&& post.p == spec_znp(pre.p, post.x)
        &&& post.pc == pre.pc
        &&& post.bus.cycles == pre.bus.cycles.wrapping_add(1)
        &&& post.bus.ram == pre.bus.ram
    } else if code == 0x88 {
        &&& post.a == pre.a
        &&& post.x == pre.x
        &&& post.y == pre.y.wrapping_sub(1)
        &&& post.sp == pre.sp
        &&& post.p == spec_znp(pre.p, post.y)
        &&& post.pc == pre.pc
        &&& post.bus.cycles == pre.bus.cycles.wrapping_add(1)
        &&& post.bus.ram == pre.bus.ram
    } else if code == 0x41 || code == 0x45 || code == 0x49 || code == 0x4D || code == 0x51 || code == 0x55 || code == 0x59 || code == 0x5D {
        &&& (ok ==> post.p == spec_znp(pre.p, post.a))
        &&& post.x == pre.x
        &&& post.y == pre.y
        &&& post.sp == pre.sp
        &&& (code == 0x49 && spec_operand_stable(AddressMode::Immediate, pre) ==> ok
            && post.a == (pre.a ^ spec_stable_operand(AddressMode::Immediate, pre)))
        &&& (code == 0x45 && spec_operand_stable(AddressMode::ZeroPage, pre) ==> ok
            && post.a == (pre.a ^ spec_stable_operand(AddressMode::ZeroPage, pre)))
        &&& (code == 0x4D && spec_operand_stable(AddressMode::Absolute, pre) ==> ok
            && post.a == (pre.a ^ spec_stable_operand(AddressMode::Absolute, pre)))
    } else if code == 0xE6 || code == 0xEE || code == 0xF6 || code == 0xFE {
        &&& post.a == pre.a
        &&& post.x == pre.x
        &&& post.y == pre.y
        &&& post.sp == pre.sp
    } else if code == 0xE8 {
        &&& post.a == pre.a
        &&& post.x == pre.x.wrapping_add(1)
        &&& post.y == pre.y
        &&& post.sp == pre.sp
        &&& post.p == spec_znp(pre.p, post.x)
        &&& post.pc == pre.pc
        &&& post.bus.cycles == pre.bus.cycles.wrapping_add(1)
        &&& post.bus.ram == pre.bus.ram
    } else if code == 0xC8 {
        &&& post.a == pre.a
        &&& post.x == pre.x
        &&& post.y == pre.y.wrapping_add(1)
        &&& post.sp == pre.sp
        &&& post.p == spec_znp(pre.p, post.y)
        &&& post.pc == pre.pc
        &&& post.bus.cycles == pre.bus.cycles.wrapping_add(1)
        &&& post.bus.ram == pre.bus.ram
    } else if code == 0xE3 || code == 0xE7 || code == 0xEF || code == 0xF3 || code == 0xF7 || code == 0xFB || code == 0xFF {
        &&& post.x == pre.x
        &&& post.y == pre.y
        &&& post.sp == pre.sp
    } else if code == 0x6C {
        &&& post.a == pre.a
        &&& post.x == pre.x
        &&& post.y == pre.y
        &&& post.sp == pre.sp
        &&& post.p == pre.p
        &&& (spec_abs_stable(pre) && spec_stable_addr(spec_indirect_high(spec_abs_target(pre)))
            ==> ok && post.pc == ((bus_peek(pre.bus, spec_abs_target(pre)) as u16) | ((bus_peek(
            pre.bus,
            spec_indirect_high(spec_abs_target(pre)),
        ) as u16) << 8)))
    } else if code == 0x20 {
        &&& post.a == pre.a
        &&& post.x == pre.x
        &&& post.y == pre.y
        &&& post.p == pre.p
        &&& (ok ==> post.sp == pre.sp.wrapping_sub(2))
        &&& (spec_stable_addr(pre.pc) && spec_stable_addr(pre.pc.wrapping_add(1)) ==> ok
            && post.pc == spec_abs_target(pre) && post.bus.ram@ == pre.bus.ram@.update(
            STACK_PAGE + pre.sp,
            (pre.pc.wrapping_add(1) >> 8) as u8,
        ).update(STACK_PAGE + pre.sp.wrapping_sub(1), (pre.pc.wrapping_add(1) & 0xFF) as u8))
    } else if code == 0xA3 || code == 0xA7 || code == 0xAF || code == 0xB3 || code == 0xB7 || code == 0xBF {
        &&& (ok ==> post.x == post.a)
        &&& post.y == pre.y
        &&& post.sp == pre.sp
    } else if code == 0xA1 || code == 0xA5 || code == 0xAD || code == 0xB1 || code == 0xB5 || code == 0xB9 || code == 0xBD {
        &&& (ok ==> post.p == spec_znp(pre.p, post.a))
        &&& post.x == pre.x
        &&& post.y == pre.y
        &&& post.sp == pre.sp
        &&& (code == 0xA5 && spec_zp_stable(pre) ==> ok && post.a == bus_peek(
            pre.bus,
            spec_zp_target(pre),
        ))
        &&& (code == 0xAD && spec_abs_stable(pre) ==> ok && post.a == bus_peek(
            pre.bus,
            spec_abs_target(pre),
        ))
    } else if code == 0xA2 || code == 0xA6 || code == 0xAE || code == 0xB6 || code == 0xBE {
        &&& (ok ==> post.p == spec_znp(pre.p, post.x))
        &&& post.a == pre.a
        &&& post.y == pre.y
        &&& post.sp == pre.sp
        &&& (code == 0xA2 && spec_operand_stable(AddressMode::Immediate, pre) ==> ok
            && post.x == spec_stable_operand(AddressMode::Immediate, pre))
        &&& (code == 0xA6 && spec_operand_stable(AddressMode::ZeroPage, pre) ==> ok
            && post.x == spec_stable_operand(AddressMode::ZeroPage, pre))
        &&& (code == 0xAE && spec_operand_stable(AddressMode::Absolute, pre) ==> ok
            && post.x == spec_stable_operand(AddressMode::Absolute, pre))
    } else if code == 0xA0 || code == 0xA4 || code == 0xAC || code == 0xB4 || code == 0xBC {
        &&& (ok ==> post.p == spec_znp(pre.p, post.y))
        &&& post.a == pre.a
        &&& post.x == pre.x
        &&& post.sp == pre.sp
        &&& (code == 0xA0 && spec_operand_stable(AddressMode::Immediate, pre) ==> ok
            && post.y == spec_stable_operand(AddressMode::Immediate, pre))
        &&& (code == 0xA4 && spec_operand_stable(AddressMode::ZeroPage, pre) ==> ok
            && post.y == spec_stable_operand(AddressMode::ZeroPage, pre))
        &&& (code == 0xAC && spec_operand_stable(AddressMode::Absolute, pre) ==> ok
            && post.y == spec_stable_operand(AddressMode::Absolute, pre))
    } else if code == 0x46 || code == 0x4E || code == 0x56 || code == 0x5E {
        &&& post.a == pre.a
        &&& post.x == pre.x
        &&& post.y == pre.y
        &&& post.sp == pre.sp
    } else if code == 0x4A {
        &&& post.a == pre.a >> 1
        &&& post.x == pre.x
        &&& post.y == pre.y
        &&& post.sp == pre.sp
        &&& post.p == spec_znp(spec_set_flag(pre.p, CpuStatus::Carry, pre.a & 1 != 0), pre.a >> 1)
        &&& post.pc == pre.pc
        &&& post.bus.cycles == pre.bus.cycles.wrapping_add(1)
        &&& post.bus.ram == pre.bus.ram
    } else if code == 0x04 || code == 0x0C || code == 0x14 || code == 0x1A || code == 0x1C || code == 0x34 || code == 0x3A || code == 0x3C || code == 0x44 || code == 0x54 || code == 0x5A || code == 0x5C || code == 0x64 || code == 0x74 || code == 0x7A || code == 0x7C || code == 0x80 || code == 0x82 || code == 0x89 || code == 0xC2 || code == 0xD4 || code == 0xDA || code == 0xDC || code == 0xE2 || code == 0xF4 || code == 0xFA || code == 0xFC {
        &&& post.a == pre.a
        &&& post.x == pre.x
        &&& post.y == pre.y
        &&& post.sp == pre.sp
        &&& post.p == pre.p
    } else if code == 0x01 || code == 0x05 || code == 0x09 || code == 0x0D || code == 0x11 || code == 0x15 || code == 0x19 || code == 0x1D {
        &&& (ok ==> post.p == spec_znp(pre.p, post.a))
        &&& post.x == pre.x
        &&& post.y == pre.y
        &&& post.sp == pre.sp
        &&& (code == 0x09 && spec_operand_stable(AddressMode::Immediate, pre) ==> ok
            && post.a == (pre.a | spec_stable_operand(AddressMode::Immediate, pre)))
        &&& (code == 0x05 && spec_operand_stable(AddressMode::ZeroPage, pre) ==> ok
            && post.a == (pre.a | spec_stable_operand(AddressMode::ZeroPage, pre)))
        &&& (code == 0x0D && spec_operand_stable(AddressMode::Absolute, pre) ==> ok
            && post.a == (pre.a | spec_stable_operand(AddressMode::Absolute, pre)))
    } else if code == 0x48 {
        &&& post.bus.ram@ == pre.bus.ram@.update(STACK_PAGE + pre.sp, pre.a)
        &&& post.sp == pre.sp.wrapping_sub(1)
        &&& post.a == pre.a
        &&& post.x == pre.x
        &&& post.y == pre.y
        &&& post.pc == pre.pc
        &&& post.p == pre.p
    } else if code == 0x08 {
        &&& post.bus.ram@ == pre.bus.ram@.update(STACK_PAGE + pre.sp, pre.p | 0x30)
        &&& post.sp == pre.sp.wrapping_sub(1)
        &&& post.a == pre.a
        &&& post.x == pre.x
        &&& post.y == pre.y
        &&& post.pc == pre.pc
        &&& post.p == pre.p
    } else if code == 0x68 {
        &&& post.a == pre.bus.ram@[STACK_PAGE + pre.sp.wrapping_add(1)]
        &&& post.p == spec_znp(pre.p, post.a)
        &&& post.sp == pre.sp.wrapping_add(1)
        &&& post.x == pre.x
        &&& post.y == pre.y
        &&& post.pc == pre.pc
        &&& post.bus.ram == pre.bus.ram
    } else if code == 0x28 {
        &&& post.p == (pre.bus.ram@[STACK_PAGE + pre.sp.wrapping_add(1)] & 0xCF) | (pre.p
            & 0x30)
        &&& post.sp == pre.sp.wrapping_add(1)
        &&& post.a == pre.a
        &&& post.x == pre.x
        &&& post.y == pre.y
        &&& post.pc == pre.pc
        &&& post.bus.ram == pre.bus.ram
    } else if code == 0x23 || code == 0x27 || code == 0x2F || code == 0x33 || code == 0x37 || code == 0x3B || code == 0x3F {
        &&& post.x == pre.x
        &&& post.y == pre.y
        &&& post.sp == pre.sp
    } else if code == 0x26 || code == 0x2E || code == 0x36 || code == 0x3E {
        &&& post.a == pre.a
        &&& post.x == pre.x
        &&& post.y == pre.y
        &&& post.sp == pre.sp
    } else if code == 0x2A {
        &&& post.a == (if pre.p & 1 != 0 {
            (pre.a << 1) | 1u8
        } else {
            pre.a << 1
        })
        &&& post.x == pre.x
        &&& post.y == pre.y
        &&& post.sp == pre.sp
        &&& post.p == spec_znp(spec_set_flag(pre.p, CpuStatus::Carry, pre.a & 0x80 != 0), post.a)
        &&& post.pc == pre.pc
        &&& post.bus.cycles == pre.bus.cycles.wrapping_add(1)
        &&& post.bus.ram == pre.bus.ram
    } else if code == 0x66 || code == 0x6E || code == 0x76 || code == 0x7E {
        &&& post.a == pre.a
        &&& post.x == pre.x
        &&& post.y == pre.y
        &&& post.sp == pre.sp
    } else if code == 0x6A {
        &&& post.a == (if pre.p & 1 != 0 {
            (pre.a >> 1) | 0x80u8
        } else {
            pre.a >> 1
        })
        &&& post.x == pre.x
        &&& post.y == pre.y
        &&& post.sp == pre.sp
        &&& post.p == spec_znp(spec_set_flag(pre.p, CpuStatus::Carry, pre.a & 1 != 0), post.a)
        &&& post.pc == pre.pc
        &&& post.bus.cycles == pre.bus.cycles.wrapping_add(1)
        &&& post.bus.ram == pre.bus.ram
    } else if code == 0x63 || code == 0x67 || code == 0x6F || code == 0x73 || code == 0x77 || code == 0x7B || code == 0x7F {
        &&& post.x == pre.x
        &&& post.y == pre.y
        &&& post.sp == pre.sp
    } else if code == 0x40 {
        &&& post.p == (pre.bus.ram@[STACK_PAGE + pre.sp.wrapping_add(1)] & 0xCF) | (pre.p
            & 0x30)
        &&& post.pc == pre.bus.ram@[STACK_PAGE + pre.sp.wrapping_add(2)] + pre.bus.ram@[STACK_PAGE + pre.sp.wrapping_add(3)] * 0x100
        &&& post.sp == pre.sp.wrapping_add(3)
        &&& post.a == pre.a
        &&& post.x == pre.x
        &&& post.y == pre.y
        &&& post.bus.ram == pre.bus.ram
    } else if code == 0x60 {
        &&& post.pc == ((pre.bus.ram@[STACK_PAGE + pre.sp.wrapping_add(1)] + pre.bus.ram@[STACK_PAGE + pre.sp.wrapping_add(2)] * 0x100) as u16).wrapping_add(1)
        &&& post.sp == pre.sp.wrapping_add(2)
        &&& post.a == pre.a
        &&& post.x == pre.x
        &&& post.y == pre.y
        &&& post.p == pre.p
        &&& post.bus.ram == pre.bus.ram
    } else if code == 0x83 || code == 0x87 || code == 0x8F || code == 0x97 {
        &&& post.a == pre.a
        &&& post.x == pre.x
        &&& post.y == pre.y
        &&& post.sp == pre.sp
        &&& post.p == pre.p
    } else if code == 0xE1 || code == 0xE5 || code == 0xE9 || code == 0xED || code == 0xF1 || code == 0xF5 || code == 0xF9 || code == 0xFD {
        &&& post.x == pre.x
        &&& post.y == pre.y
        &&& post.sp == pre.sp
        &&& (code == 0xE9 && spec_operand_stable(AddressMode::Immediate, pre) ==> ok
            && post.a == (spec_adc_sum(pre.a, !spec_stable_operand(AddressMode::Immediate, pre), pre.p) % 256) as u8 && post.p == spec_carry_overflow(spec_znp(pre.p, post.a), pre.a, !spec_stable_operand(AddressMode::Immediate, pre), spec_adc_sum(pre.a, !spec_stable_operand(AddressMode::Immediate, pre), pre.p) as u16))
        &&& (code == 0xE5 && spec_operand_stable(AddressMode::ZeroPage, pre) ==> ok
            && post.a == (spec_adc_sum(pre.a, !spec_stable_operand(AddressMode::ZeroPage, pre), pre.p) % 256) as u8 && post.p == spec_carry_overflow(spec_znp(pre.p, post.a), pre.a, !spec_stable_operand(AddressMode::ZeroPage, pre), spec_adc_sum(pre.a, !spec_stable_operand(AddressMode::ZeroPage, pre), pre.p) as u16))
        &&& (code == 0xED && spec_operand_stable(AddressMode::Absolute, pre) ==> ok
            && post.a == (spec_adc_sum(pre.a, !spec_stable_operand(AddressMode::Absolute, pre), pre.p) % 256) as u8 && post.p == spec_carry_overflow(spec_znp(pre.p, post.a), pre.a, !spec_stable_operand(AddressMode::Absolute, pre), spec_adc_sum(pre.a, !spec_stable_operand(AddressMode::Absolute, pre), pre.p) as u16))
    } else if code == 0xEB {
        &&& post.x == pre.x
        &&& post.y == pre.y
        &&& post.sp == pre.sp
    } else if code == 0x38 {
        &&& post.a == pre.a
        &&& post.x == pre.x
        &&& post.y == pre.y
        &&& post.sp == pre.sp
        &&& post.p == spec_set_flag(pre.p, CpuStatus::Carry, true)
        &&& post.pc == pre.pc
        &&& post.bus.cycles == pre.bus.cycles.wrapping_add(1)
        &&& post.bus.ram == pre.bus.ram
    } else if code == 0xF8 {
        &&& post.a == pre.a
        &&& post.x == pre.x
        &&& post.y == pre.y
        &&& post.sp == pre.sp
        &&& post.p == spec_set_flag(pre.p, CpuStatus::Decimal, true)
        &&& post.pc == pre.pc
        &&& post.bus.cycles == pre.bus.cycles.wrapping_add(1)
        &&& post.bus.ram == pre.bus.ram
    } else if code == 0x78 {
        &&& post.a == pre.a
        &&& post.x == pre.x
        &&& post.y == pre.y
        &&& post.sp == pre.sp
        &&& post.p == spec_set_flag(pre.p, CpuStatus::InterruptDisable, true)
        &&& post.pc == pre.pc
        &&& post.bus.cycles == pre.bus.cycles.wrapping_add(1)
        &&& post.bus.ram == pre.bus.ram
    } else if code == 0x03 || code == 0x07 || code == 0x0F || code == 0x13 || code == 0x17 || code == 0x1B || code == 0x1F {
        &&& post.x == pre.x
        &&& post.y == pre.y
        &&& post.sp == pre.sp
    } else if code == 0x43 || code == 0x47 || code == 0x4F || code == 0x53 || code == 0x57 || code == 0x5B || code == 0x5F {
        &&& post.x == pre.x
        &&& post.y == pre.y
        &&& post.sp == pre.sp
    } else if code == 0x81 || code == 0x85 || code == 0x8D || code == 0x91 || code == 0x95 || code == 0x99 || code == 0x9D {
        &&& post.a == pre.a
        &&& post.x == pre.x
        &&& post.y == pre.y
        &&& post.sp == pre.sp
        &&& post.p == pre.p
        &&& (code == 0x85 && spec_zp_stable(pre) ==> ok && post.bus.ram@ == pre.bus.ram@.update(
            (spec_zp_target(pre) & 0x7FF) as int,
            pre.a,
        ))
        &&& (code == 0x8D && spec_abs_stable(pre) && spec_abs_target(pre) <= 0x1FFF ==> ok
            && post.bus.ram@ == pre.bus.ram@.update((spec_abs_target(pre) & 0x7FF) as int, pre.a))
    } else if code == 0x86 || code == 0x8E || code == 0x96 {
        &&& post.a == pre.a
        &&& post.x == pre.x
        &&& post.y == pre.y
        &&& post.sp == pre.sp
        &&& post.p == pre.p
    } else if code == 0x84 || code == 0x8C || code == 0x94 {
        &&& post.a == pre.a
        &&& post.x == pre.x
        &&& post.y == pre.y
        &&& post.sp == pre.sp
        &&& post.p == pre.p
    } else if code == 0xAA {
        &&& post.a == pre.a
        &&& post.x == pre.a
        &&& post.y == pre.y
        &&& post.sp == pre.sp
        &&& post.p == spec_znp(pre.p, pre.a)
        &&& post.pc == pre.pc
        &&& post.bus.cycles == pre.bus.cycles.wrapping_add(1)
        &&& post.bus.ram == pre.bus.ram
    } else if code == 0xA8 {
        &&& post.a == pre.a
        &&& post.x == pre.x
        &&& post.y == pre.a
        &&& post.sp == pre.sp
        &&& post.p == spec_znp(pre.p, pre.a)
        &&& post.pc == pre.pc
        &&& post.bus.cycles == pre.bus.cycles.wrapping_add(1)
        &&& post.bus.ram == pre.bus.ram
    } else if code == 0xBA {
        &&& post.a == pre.a
        &&& post.x == pre.sp
        &&& post.y == pre.y
        &&& post.sp == pre.sp
        &&& post.p == spec_znp(pre.p, pre.sp)
        &&& post.pc == pre.pc
        &&& post.bus.cycles == pre.bus.cycles.wrapping_add(1)
        &&& post.bus.ram == pre.bus.ram
    } else if code == 0x8A {
        &&& post.a == pre.x
        &&& post.x == pre.x
        &&& post.y == pre.y
        &&& post.sp == pre.sp
        &&& post.p == spec_znp(pre.p, pre.x)
        &&& post.pc == pre.pc
        &&& post.bus.cycles == pre.bus.cycles.wrapping_add(1)
        &&& post.bus.ram == pre.bus.ram
    } else if code == 0x9A {
        &&& post.a == pre.a
        &&& post.x == pre.x
        &&& post.y == pre.y
        &&& post.sp == pre.x
        &&& post.p == pre.p
        &&& post.pc == pre.pc
        &&& post.bus.cycles == pre.bus.cycles.wrapping_add(1)
        &&& post.bus.ram == pre.bus.ram
    } else if code == 0x98 {
        &&& post.a == pre.y
        &&& post.x == pre.x
        &&& post.y == pre.y
        &&& post.sp == pre.sp
        &&& post.p == spec_znp(pre.p, pre.y)
        &&& post.pc == pre.pc
        &&& post.bus.cycles == pre.bus.cycles.wrapping_add(1)
        &&& post.bus.ram == pre.bus.ram
    } else {
        true
    }
}

/// Execute the opcode that was just fetched; unimplemented encodings fail
/// with the opcode and the address it was fetched from.
pub fn execute(cpu: &mut Cpu, code: u8) -> (r: Result<(), EmuError>)
    requires
        old(cpu).wf(),
    ensures
        final(cpu).wf(),
        spec_invalid_opcode(code) ==> r == Err::<(), EmuError>(
            EmuError::InvalidOpcode(code, old(cpu).pc.wrapping_sub(1)),
        ) && *final(cpu) == *old(cpu),
        !spec_invalid_opcode(code) ==> spec_only_bus_errors(r),
        !spec_invalid_opcode(code) ==> spec_opcode_effect(code, *old(cpu), *final(cpu), r is Ok),
{
    if code < 0x40 {
        execute_q0(cpu, code)
    } else if code < 0x80 {
        execute_q1(cpu, code)
    } else if code < 0xC0 {
        execute_q2(cpu, code)
    } else {
        execute_q3(cpu, code)
    }
}

#[verifier::rlimit(100)]
fn execute_q0(cpu: &mut Cpu, code: u8) -> (r: Result<(), EmuError>)
    requires
        old(cpu).wf(),
        0x00 <= code < 0x040,
    ensures
        final(cpu).wf(),
        spec_invalid_opcode(code) ==> r == Err::<(), EmuError>(
            EmuError::InvalidOpcode(code, old(cpu).pc.wrapping_sub(1)),
        ) && *final(cpu) == *old(cpu),
        !spec_invalid_opcode(code) ==> spec_only_bus_errors(r),
        !spec_invalid_opcode(code) ==> spec_opcode_effect(code, *old(cpu), *final(cpu), r is Ok),
{
    match code {
        0x00 => brk(cpu, AddressMode::Implied),
        0x01 => ora(cpu, AddressMode::IndirectX),
        0x02 => invalid(cpu, code),
        0x03 => slo(cpu, AddressMode::IndirectX),
        0x04 => nop(cpu, AddressMode::ZeroPage),
        0x05 => ora(cpu, AddressMode::ZeroPage),
        0x06 => asl(cpu, AddressMode::ZeroPage),
        0x07 => slo(cpu, AddressMode::ZeroPage),
        0x08 => php(cpu, AddressMode::Implied),
        0x09 => ora(cpu, AddressMode::Immediate),
        0x0A => asl_a(cpu, AddressMode::Implied),
        0x0B => invalid(cpu, code),
        0x0C => nop(cpu, AddressMode::Absolute),
        0x0D => ora(cpu, AddressMode::Absolute),
        0x0E => asl(cpu, AddressMode::Absolute),
        0x0F => slo(cpu, AddressMode::Absolute),
        0x10 => bpl(cpu, AddressMode::Offset),
        0x11 => ora(cpu, AddressMode::IndirectY(false)),
        0x12 => invalid(cpu, code),
        0x13 => slo(cpu, AddressMode::IndirectY(false)),
        0x14 => nop(cpu, AddressMode::ZeroPageIndexedX),
        0x15 => ora(cpu, AddressMode::ZeroPageIndexedX),
        0x16 => asl(cpu, AddressMode::ZeroPageIndexedX),
        0x17 => slo(cpu, AddressMode::ZeroPageIndexedX),
        0x18 => clc(cpu, AddressMode::Implied),
        0x19 => ora(cpu, AddressMode::AbsoluteIndexedY(false)),
        0x1A => nop(cpu, AddressMode::Implied),
        0x1B => slo(cpu, AddressMode::AbsoluteIndexedY(false)),
        0x1C => nop(cpu, AddressMode::AbsoluteIndexedX(false)),
        0x1D => ora(cpu, AddressMode::AbsoluteIndexedX(false)),
        0x1E => asl(cpu, AddressMode::AbsoluteIndexedX(true)),
        0x1F => slo(cpu, AddressMode::AbsoluteIndexedX(false)),
        0x20 => jsr(cpu, AddressMode::Absolute),
        0x21 => and(cpu, AddressMode::IndirectX),
        0x22 => invalid(cpu, code),
        0x23 => rla(cpu, AddressMode::IndirectX),
        0x24 => bit(cpu, AddressMode::ZeroPage),
        0x25 => and(cpu, AddressMode::ZeroPage),
        0x26 => rol(cpu, AddressMode::ZeroPage),
        0x27 => rla(cpu, AddressMode::ZeroPage),
        0x28 => plp(cpu, AddressMode::Implied),
        0x29 => and(cpu, AddressMode::Immediate),
        0x2A => rol_a(cpu, AddressMode::Implied),
        0x2B => invalid(cpu, code),
        0x2C => bit(cpu, AddressMode::Absolute),
        0x2D => and(cpu, AddressMode::Absolute),
        0x2E => rol(cpu, AddressMode::Absolute),
        0x2F => rla(cpu, AddressMode::Absolute),
        0x30 => bmi(cpu, AddressMode::Offset),
        0x31 => and(cpu, AddressMode::IndirectY(false)),
        0x32 => invalid(cpu, code),
        0x33 => rla(cpu, AddressMode::IndirectY(false)),
        0x34 => nop(cpu, AddressMode::ZeroPageIndexedX),
        0x35 => and(cpu, AddressMode::ZeroPageIndexedX),
        0x36 => rol(cpu, AddressMode::ZeroPageIndexedX),
        0x37 => rla(cpu, AddressMode::ZeroPageIndexedX),
        0x38 => sec(cpu, AddressMode::Implied),
        0x39 => and(cpu, AddressMode::AbsoluteIndexedY(false)),
        0x3A => nop(cpu, AddressMode::Implied),
        0x3B => rla(cpu, AddressMode::AbsoluteIndexedY(false)),
        0x3C => nop(cpu, AddressMode::AbsoluteIndexedX(false)),
        0x3D => and(cpu, AddressMode::AbsoluteIndexedX(false)),
        0x3E => rol(cpu, AddressMode::AbsoluteIndexedX(true)),
        0x3F => rla(cpu, AddressMode::AbsoluteIndexedX(false)),
        _ => {
            proof {
                assert(false);
            }
            Ok(())
        },
    }
}

#[verifier::rlimit(100)]
fn execute_q1(cpu: &mut Cpu, code: u8) -> (r: Result<(), EmuError>)
    requires
        old(cpu).wf(),
        0x40 <= code < 0x080,
    ensures
        final(cpu).wf(),
        spec_invalid_opcode(code) ==> r == Err::<(), EmuError>(
            EmuError::InvalidOpcode(code, old(cpu).pc.wrapping_sub(1)),
        ) && *final(cpu) == *old(cpu),
        !spec_invalid_opcode(code) ==> spec_only_bus_errors(r),
        !spec_invalid_opcode(code) ==> spec_opcode_effect(code, *old(cpu), *final(cpu), r is Ok),
{
    match code {
        0x40 => rti(cpu, AddressMode::Implied),
        0x41 => eor(cpu, AddressMode::IndirectX),
        0x42 => invalid(cpu, code),
        0x43 => sre(cpu, AddressMode::IndirectX),
        0x44 => nop(cpu, AddressMode::ZeroPage),
        0x45 => eor(cpu, AddressMode::ZeroPage),
        0x46 => lsr(cpu, AddressMode::ZeroPage),
        0x47 => sre(cpu, AddressMode::ZeroPage),
        0x48 => pha(cpu, AddressMode::Implied),
        0x49 => eor(cpu, AddressMode::Immediate),
        0x4A => lsr_a(cpu, AddressMode::Implied),
        0x4B => invalid(cpu, code),
        0x4C => jmp(cpu, AddressMode::Absolute),
        0x4D => eor(cpu, AddressMode::Absolute),
        0x4E => lsr(cpu, AddressMode::Absolute),
        0x4F => sre(cpu, AddressMode::Absolute),
        0x50 => bvc(cpu, AddressMode::Offset),
        0x51 => eor(cpu, AddressMode::IndirectY(false)),
        0x52 => invalid(cpu, code),
        0x53 => sre(cpu, AddressMode::IndirectY(false)),
        0x54 => nop(cpu, AddressMode::ZeroPageIndexedX),
        0x55 => eor(cpu, AddressMode::ZeroPageIndexedX),
        0x56 => lsr(cpu, AddressMode::ZeroPageIndexedX),
        0x57 => sre(cpu, AddressMode::ZeroPageIndexedX),
        0x58 => cli(cpu, AddressMode::Implied),
        0x59 => eor(cpu, AddressMode::AbsoluteIndexedY(false)),
        0x5A => nop(cpu, AddressMode::Implied),
        0x5B => sre(cpu, AddressMode::AbsoluteIndexedY(false)),
        0x5C => nop(cpu, AddressMode::AbsoluteIndexedX(false)),
        0x5D => eor(cpu, AddressMode::AbsoluteIndexedX(false)),
        0x5E => lsr(cpu, AddressMode::AbsoluteIndexedX(true)),
        0x5F => sre(cpu, AddressMode::AbsoluteIndexedX(false)),
        0x60 => rts(cpu, AddressMode::Implied),
        0x61 => adc(cpu, AddressMode::IndirectX),
        0x62 => invalid(cpu, code),
        0x63 => rra(cpu, AddressMode::IndirectX),
        0x64 => nop(cpu, AddressMode::ZeroPage),
        0x65 => adc(cpu, AddressMode::ZeroPage),
        0x66 => ror(cpu, AddressMode::ZeroPage),
        0x67 => rra(cpu, AddressMode::ZeroPage),
        0x68 => pla(cpu, AddressMode::Implied),
        0x69 => adc(cpu, AddressMode::Immediate),
        0x6A => ror_a(cpu, AddressMode::Implied),
        0x6B => invalid(cpu, code),
        0x6C => jmp(cpu, AddressMode::Indirect),
        0x6D => adc(cpu, AddressMode::Absolute),
        0x6E => ror(cpu, AddressMode::Absolute),
        0x6F => rra(cpu, AddressMode::Absolute),
        0x70 => bvs(cpu, AddressMode::Offset),
        0x71 => adc(cpu, AddressMode::IndirectY(false)),
        0x72 => invalid(cpu, code),
        0x73 => rra(cpu, AddressMode::IndirectY(false)),
        0x74 => nop(cpu, AddressMode::ZeroPageIndexedX),
        0x75 => adc(cpu, AddressMode::ZeroPageIndexedX),
        0x76 => ror(cpu, AddressMode::ZeroPageIndexedX),
        0x77 => rra(cpu, AddressMode::ZeroPageIndexedX),
        0x78 => sei(cpu, AddressMode::Implied),
        0x79 => adc(cpu, AddressMode::AbsoluteIndexedY(false)),
        0x7A => nop(cpu, AddressMode::Implied),
        0x7B => rra(cpu, AddressMode::AbsoluteIndexedY(false)),
        0x7C => nop(cpu, AddressMode::AbsoluteIndexedX(false)),
        0x7D => adc(cpu, AddressMode::AbsoluteIndexedX(false)),
        0x7E => ror(cpu, AddressMode::AbsoluteIndexedX(true)),
        0x7F => rra(cpu, AddressMode::AbsoluteIndexedX(false)),
        _ => {
            proof {
                assert(false);
            }
            Ok(())
        },
    }
}

#[verifier::rlimit(100)]
fn execute_q2(cpu: &mut Cpu, code: u8) -> (r: Result<(), EmuError>)
    requires
        old(cpu).wf(),
        0x80 <= code < 0x0C0,
    ensures
        final(cpu).wf(),
        spec_invalid_opcode(code) ==> r == Err::<(), EmuError>(
            EmuError::InvalidOpcode(code, old(cpu).pc.wrapping_sub(1)),
        ) && *final(cpu) == *old(cpu),
        !spec_invalid_opcode(code) ==> spec_only_bus_errors(r),
        !spec_invalid_opcode(code) ==> spec_opcode_effect(code, *old(cpu), *final(cpu), r is Ok),
{
    match code {
        0x80 => nop(cpu, AddressMode::Immediate),
        0x81 => sta(cpu, AddressMode::IndirectX),
        0x82 => nop(cpu, AddressMode::Immediate),
        0x83 => sax(cpu, AddressMode::IndirectX),
        0x84 => sty(cpu, AddressMode::ZeroPage),
        0x85 => sta(cpu, AddressMode::ZeroPage),
        0x86 => stx(cpu, AddressMode::ZeroPage),
        0x87 => sax(cpu, AddressMode::ZeroPage),
        0x88 => dey(cpu, AddressMode::Implied),
        0x89 => nop(cpu, AddressMode::Immediate),
        0x8A => txa(cpu, AddressMode::Implied),
        0x8B => invalid(cpu, code),
        0x8C => sty(cpu, AddressMode::Absolute),
        0x8D => sta(cpu, AddressMode::Absolute),
        0x8E => stx(cpu, AddressMode::Absolute),
        0x8F => sax(cpu, AddressMode::Absolute),
        0x90 => bcc(cpu, AddressMode::Offset),
        0x91 => sta(cpu, AddressMode::IndirectY(true)),
        0x92 => invalid(cpu, code),
        0x93 => invalid(cpu, code),
        0x94 => sty(cpu, AddressMode::ZeroPageIndexedX),
        0x95 => sta(cpu, AddressMode::ZeroPageIndexedX),
        0x96 => stx(cpu, AddressMode::ZeroPageIndexedY),
        0x97 => sax(cpu, AddressMode::ZeroPageIndexedY),
        0x98 => tya(cpu, AddressMode::Implied),
        0x99 => sta(cpu, AddressMode::AbsoluteIndexedY(true)),
        0x9A => txs(cpu, AddressMode::Implied),
        0x9B => invalid(cpu, code),
        0x9C => invalid(cpu, code),
        0x9D => sta(cpu, AddressMode::AbsoluteIndexedX(true)),
        0x9E => invalid(cpu, code),
        0x9F => invalid(cpu, code),
        0xA0 => ldy(cpu, AddressMode::Immediate),
        0xA1 => lda(cpu, AddressMode::IndirectX),
        0xA2 => ldx(cpu, AddressMode::Immediate),
        0xA3 => lax(cpu, AddressMode::IndirectX),
        0xA4 => ldy(cpu, AddressMode::ZeroPage),
        0xA5 => lda(cpu, AddressMode::ZeroPage),
        0xA6 => ldx(cpu, AddressMode::ZeroPage),
        0xA7 => lax(cpu, AddressMode::ZeroPage),
        0xA8 => tay(cpu, AddressMode::Implied),
        0xA9 => lda(cpu, AddressMode::Immediate),
        0xAA => tax(cpu, AddressMode::Implied),
        0xAB => invalid(cpu, code),
        0xAC => ldy(cpu, AddressMode::Absolute),
        0xAD => lda(cpu, AddressMode::Absolute),
        0xAE => ldx(cpu, AddressMode::Absolute),
        0xAF => lax(cpu, AddressMode::Absolute),
        0xB0 => bcs(cpu, AddressMode::Offset),
        0xB1 => lda(cpu, AddressMode::IndirectY(false)),
        0xB2 => invalid(cpu, code),
        0xB3 => lax(cpu, AddressMode::IndirectY(false)),
        0xB4 => ldy(cpu, AddressMode::ZeroPageIndexedX),
        0xB5 => lda(cpu, AddressMode::ZeroPageIndexedX),
        0xB6 => ldx(cpu, AddressMode::ZeroPageIndexedY),
        0xB7 => lax(cpu, AddressMode::ZeroPageIndexedY),
        0xB8 => clv(cpu, AddressMode::Implied),
        0xB9 => lda(cpu, AddressMode::AbsoluteIndexedY(false)),
        0xBA => tsx(cpu, AddressMode::Implied),
        0xBB => invalid(cpu, code),
        0xBC => ldy(cpu, AddressMode::AbsoluteIndexedX(false)),
        0xBD => lda(cpu, AddressMode::AbsoluteIndexedX(false)),
        0xBE => ldx(cpu, AddressMode::AbsoluteIndexedY(false)),
        0xBF => lax(cpu, AddressMode::AbsoluteIndexedY(false)),
        _ => {
            proof {
                assert(false);
            }
            Ok(())
        },
    }
}

#[verifier::rlimit(100)]
fn execute_q3(cpu: &mut Cpu, code: u8) -> (r: Result<(), EmuError>)
    requires
        old(cpu).wf(),
        0xC0 <= code < 0x100,
    ensures
        final(cpu).wf(),
        spec_invalid_opcode(code) ==> r == Err::<(), EmuError>(
            EmuError::InvalidOpcode(code, old(cpu).pc.wrapping_sub(1)),
        ) && *final(cpu) == *old(cpu),
        !spec_invalid_opcode(code) ==> spec_only_bus_errors(r),
        !spec_invalid_opcode(code) ==> spec_opcode_effect(code, *old(cpu), *final(cpu), r is Ok),
{
    match code {
        0xC0 => cpy(cpu, AddressMode::Immediate),
        0xC1 => cmp(cpu, AddressMode::IndirectX),
        0xC2 => nop(cpu, AddressMode::Immediate),
        0xC3 => dcp(cpu, AddressMode::IndirectX),
        0xC4 => cpy(cpu, AddressMode::ZeroPage),
        0xC5 => cmp(cpu, AddressMode::ZeroPage),
        0xC6 => dec(cpu, AddressMode::ZeroPage),
        0xC7 => dcp(cpu, AddressMode::ZeroPage),
        0xC8 => iny(cpu, AddressMode::Implied),
        0xC9 => cmp(cpu, AddressMode::Immediate),
        0xCA => dex(cpu, AddressMode::Implied),
        0xCB => invalid(cpu, code),
        0xCC => cpy(cpu, AddressMode::Absolute),
        0xCD => cmp(cpu, AddressMode::Absolute),
        0xCE => dec(cpu, AddressMode::Absolute),
        0xCF => dcp(cpu, AddressMode::Absolute),
        0xD0 => bne(cpu, AddressMode::Offset),
        0xD1 => cmp(cpu, AddressMode::IndirectY(false)),
        0xD2 => invalid(cpu, code),
        0xD3 => dcp(cpu, AddressMode::IndirectY(false)),
        0xD4 => nop(cpu, AddressMode::ZeroPageIndexedX),
        0xD5 => cmp(cpu, AddressMode::ZeroPageIndexedX),
        0xD6 => dec(cpu, AddressMode::ZeroPageIndexedX),
        0xD7 => dcp(cpu, AddressMode::ZeroPageIndexedX),
        0xD8 => cld(cpu, AddressMode::Implied),
        0xD9 => cmp(cpu, AddressMode::AbsoluteIndexedY(false)),
        0xDA => nop(cpu, AddressMode::Implied),
        0xDB => dcp(cpu, AddressMode::AbsoluteIndexedY(false)),
        0xDC => nop(cpu, AddressMode::AbsoluteIndexedX(false)),
        0xDD => cmp(cpu, AddressMode::AbsoluteIndexedX(false)),
        0xDE => dec(cpu, AddressMode::AbsoluteIndexedX(true)),
        0xDF => dcp(cpu, AddressMode::AbsoluteIndexedX(false)),
        0xE0 => cpx(cpu, AddressMode::Immediate),
        0xE1 => sbc(cpu, AddressMode::IndirectX),
        0xE2 => nop(cpu, AddressMode::Immediate),
        0xE3 => isc(cpu, AddressMode::IndirectX),
        0xE4 => cpx(cpu, AddressMode::ZeroPage),
        0xE5 => sbc(cpu, AddressMode::ZeroPage),
        0xE6 => inc(cpu, AddressMode::ZeroPage),
        0xE7 => isc(cpu, AddressMode::ZeroPage),
        0xE8 => inx(cpu, AddressMode::Implied),
        0xE9 => sbc(cpu, AddressMode::Immediate),
        0xEA => nop(cpu, AddressMode::Implied),
        0xEB => sbc_nop(cpu, AddressMode::Immediate),
        0xEC => cpx(cpu, AddressMode::Absolute),
        0xED => sbc(cpu, AddressMode::Absolute),
        0xEE => inc(cpu, AddressMode::Absolute),
        0xEF => isc(cpu, AddressMode::Absolute),
        0xF0 => beq(cpu, AddressMode::Offset),
        0xF1 => sbc(cpu, AddressMode::IndirectY(false)),
        0xF2 => invalid(cpu, code),
        0xF3 => isc(cpu, AddressMode::IndirectY(false)),
        0xF4 => nop(cpu, AddressMode::ZeroPageIndexedX),
        0xF5 => sbc(cpu, AddressMode::ZeroPageIndexedX),
        0xF6 => inc(cpu, AddressMode::ZeroPageIndexedX),
        0xF7 => isc(cpu, AddressMode::ZeroPageIndexedX),
        0xF8 => sed(cpu, AddressMode::Implied),
        0xF9 => sbc(cpu, AddressMode::AbsoluteIndexedY(false)),
        0xFA => nop(cpu, AddressMode::Implied),
        0xFB => isc(cpu, AddressMode::AbsoluteIndexedY(false)),
        0xFC => nop(cpu, AddressMode::AbsoluteIndexedX(false)),
        0xFD => sbc(cpu, AddressMode::AbsoluteIndexedX(false)),
        0xFE => inc(cpu, AddressMode::AbsoluteIndexedX(true)),
        0xFF => isc(cpu, AddressMode::AbsoluteIndexedX(false)),
        _ => {
            proof {
                assert(false);
            }
            Ok(())
        },
    }
}

// JuMP
fn jmp(cpu: &mut Cpu, mode: AddressMode) -> (r: Result<(), EmuError>)
    requires
        old(cpu).wf(),
        mode == AddressMode::Absolute || mode == AddressMode::Indirect,
    ensures
        final(cpu).wf(),
        spec_only_bus_errors(r),
        mode == AddressMode::Absolute && spec_stable_addr(old(cpu).pc) && spec_stable_addr(
            old(cpu).pc.wrapping_add(1),
        ) ==> r is Ok && final(cpu).pc == spec_peek16(old(cpu).bus, old(cpu).pc),
        mode == AddressMode::Indirect && spec_abs_stable(*old(cpu)) && spec_stable_addr(
            spec_indirect_high(spec_abs_target(*old(cpu))),
        ) ==> r is Ok && final(cpu).pc == ((bus_peek(old(cpu).bus, spec_abs_target(*old(cpu)))
            as u16) | ((bus_peek(
            old(cpu).bus,
            spec_indirect_high(spec_abs_target(*old(cpu))),
        ) as u16) << 8)),
        final(cpu).a == old(cpu).a,
        final(cpu).x == old(cpu).x,
        final(cpu).y == old(cpu).y,
        final(cpu).sp == old(cpu).sp,
        final(cpu).p == old(cpu).p,
{
    let target = match cpu.operand_address(mode) {
        Ok(v) => v,
        Err(e) => {
            return Err(e);
        },
    };
    cpu.pc = target.address();
    Ok(())
}

// Jump SubRoutine
fn jsr(cpu: &mut Cpu, mode: AddressMode) -> (r: Result<(), EmuError>)
    requires
        old(cpu).wf(),
        mode == AddressMode::Absolute,
    ensures
        final(cpu).wf(),
        spec_only_bus_errors(r),
        final(cpu).a == old(cpu).a,
        final(cpu).x == old(cpu).x,
        final(cpu).y == old(cpu).y,
        final(cpu).p == old(cpu).p,
        r is Ok ==> final(cpu).sp == old(cpu).sp.wrapping_sub(2),
        spec_stable_addr(old(cpu).pc) && spec_stable_addr(old(cpu).pc.wrapping_add(1)) ==> r
            is Ok && final(cpu).pc == spec_abs_target(*old(cpu)) && final(cpu).bus.ram@ == old(cpu).bus.ram@.update(
            STACK_PAGE + old(cpu).sp,
            (old(cpu).pc.wrapping_add(1) >> 8) as u8,
        ).update(
            STACK_PAGE + old(cpu).sp.wrapping_sub(1),
            (old(cpu).pc.wrapping_add(1) & 0xFF) as u8,
        ),
{
    let target_address = match cpu.operand_address(mode) {
        Ok(v) => v,
        Err(e) => {
            return Err(e);
        },
    };
    let return_address = cpu.pc.wrapping_sub(1);
    cpu.bus.tick();

    cpu.push_stack_16(return_address);
    cpu.pc = target_address.address();
    Ok(())
}

/* Load/Store Functions */

fn lda(cpu: &mut Cpu, mode: AddressMode) -> (r: Result<(), EmuError>)
    requires
        old(cpu).wf(),
        mode != AddressMode::Implied && mode != AddressMode::Offset,
    ensures
        final(cpu).wf(),
        spec_only_bus_errors(r),
        r is Ok ==> final(cpu).p == spec_znp(old(cpu).p, final(cpu).a),
        mode == AddressMode::Immediate && !(0x2000 <= old(cpu).pc <= 0x3FFF) && r is Ok ==> final(cpu).a == bus_peek(old(cpu).bus, old(cpu).pc),
        spec_operand_stable(mode, *old(cpu)) ==> r is Ok && final(cpu).a == spec_stable_operand(
            mode,
            *old(cpu),
        ),
        final(cpu).x == old(cpu).x,
        final(cpu).y == old(cpu).y,
        final(cpu).sp == old(cpu).sp,
{
    let operand = match read_operand(cpu, mode) {
        Ok(v) => v,
        Err(e) => {
            return Err(e);
        },
    };
    set_zero_and_negative(cpu, operand);

    cpu.a = operand;
    Ok(())
}

fn sta(cpu: &mut Cpu, mode: AddressMode) -> (r: Result<(), EmuError>)
    requires
        old(cpu).wf(),
        mode != AddressMode::Implied && mode != AddressMode::Offset,
    ensures
        final(cpu).wf(),
        spec_only_bus_errors(r),
        // with the program in RAM or cartridge space, the accumulator lands
        // in the mirrored RAM cell the operand names
        mode == AddressMode::ZeroPage && spec_zp_stable(*old(cpu)) ==> r is Ok && final(cpu).bus.ram@ == old(cpu).bus.ram@.update(
            (spec_zp_target(*old(cpu)) & 0x7FF) as int,
            old(cpu).a,
        ),
        mode == AddressMode::Absolute && spec_abs_stable(*old(cpu)) && spec_abs_target(*old(cpu))
            <= 0x1FFF ==> r is Ok && final(cpu).bus.ram@ == old(cpu).bus.ram@.update(
            (spec_abs_target(*old(cpu)) & 0x7FF) as int,
            old(cpu).a,
        ),
        final(cpu).a == old(cpu).a,
        final(cpu).x == old(cpu).x,
        final(cpu).y == old(cpu).y,
        final(cpu).sp == old(cpu).sp,
        final(cpu).p == old(cpu).p,
{
    let target = match cpu.operand_address(mode) {
        Ok(v) => v,
        Err(e) => {
            return Err(e);
        },
    };
    let address = target.address();
    let a = cpu.a;
    match cpu.bus.write(address, a) {
        Ok(()) => Ok(()),
        Err(e) => Err(e),
    }
}

fn ldx(cpu: &mut Cpu, mode: AddressMode) -> (r: Result<(), EmuError>)
    requires
        old(cpu).wf(),
        mode != AddressMode::Implied && mode != AddressMode::Offset,
    ensures
        final(cpu).wf(),
        spec_only_bus_errors(r),
        r is Ok ==> final(cpu).p == spec_znp(old(cpu).p, final(cpu).x),
        spec_operand_stable(mode, *old(cpu)) ==> r is Ok && final(cpu).x
            == spec_stable_operand(mode, *old(cpu)),
        final(cpu).a == old(cpu).a,
        final(cpu).y == old(cpu).y,
        final(cpu).sp == old(cpu).sp,
{
    let operand = match read_operand(cpu, mode) {
        Ok(v) => v,
        Err(e) => {
            return Err(e);
        },
    };
    set_zero_and_negative(cpu, operand);
    cpu.x = operand;
    Ok(())
}

fn stx(cpu: &mut Cpu, mode: AddressMode) -> (r: Result<(), EmuError>)
    requires
        old(cpu).wf(),
        mode != AddressMode::Implied && mode != AddressMode::Offset,
    ensures
        final(cpu).wf(),
        spec_only_bus_errors(r),
        final(cpu).a == old(cpu).a,
        final(cpu).x == old(cpu).x,
        final(cpu).y == old(cpu).y,
        final(cpu).sp == old(cpu).sp,
        final(cpu).p == old(cpu).p,
{
    let target = match cpu.operand_address(mode) {
        Ok(v) => v,
        Err(e) => {
            return Err(e);
        },
    };
    let address = target.address();
    let x = cpu.x;
    match cpu.bus.write(address, x) {
        Ok(()) => Ok(()),
        Err(e) => Err(e),
    }
}

fn ldy(cpu: &mut Cpu, mode: AddressMode) -> (r: Result<(), EmuError>)
    requires
        old(cpu).wf(),
        mode != AddressMode::Implied && mode != AddressMode::Offset,
    ensures
        final(cpu).wf(),
        spec_only_bus_errors(r),
        r is Ok ==> final(cpu).p == spec_znp(old(cpu).p, final(cpu).y),
        spec_operand_stable(mode, *old(cpu)) ==> r is Ok && final(cpu).y
            == spec_stable_operand(mode, *old(cpu)),
        final(cpu).a == old(cpu).a,
        final(cpu).x == old(cpu).x,
        final(cpu).sp == old(cpu).sp,
{
    let operand = match read_operand(cpu, mode) {
        Ok(v) => v,
        Err(e) => {
            return Err(e);
        },
    };
    set_zero_and_negative(cpu, operand);
    cpu.y = operand;
    Ok(())
}

fn sty(cpu: &mut Cpu, mode: AddressMode) -> (r: Result<(), EmuError>)
    requires
        old(cpu).wf(),
        mode != AddressMode::Implied && mode != AddressMode::Offset,
    ensures
        final(cpu).wf(),
        spec_only_bus_errors(r),
        final(cpu).a == old(cpu).a,
        final(cpu).x == old(cpu).x,
        final(cpu).y == old(cpu).y,
        final(cpu).sp == old(cpu).sp,
        final(cpu).p == old(cpu).p,
{
    let target = match cpu.operand_address(mode) {
        Ok(v) => v,
        Err(e) => {
            return Err(e);
        },
    };
    let address = target.address();
    let y = cpu.y;
    match cpu.bus.write(address, y) {
        Ok(()) => Ok(()),
        Err(e) => Err(e),
    }
}

fn inc(cpu: &mut Cpu, mode: AddressMode) -> (r: Result<(), EmuError>)
    requires
        old(cpu).wf(),
        mode != AddressMode::Implied && mode != AddressMode::Offset && mode
            != AddressMode::Immediate,
    ensures
        final(cpu).wf(),
        spec_only_bus_errors(r),
        final(cpu).a == old(cpu).a,
        final(cpu).x == old(cpu).x,
        final(cpu).y == old(cpu).y,
        final(cpu).sp == old(cpu).sp,
{
    match do_inc(cpu, mode) {
        Ok(_) => Ok(()),
        Err(e) => Err(e),
    }
}

/// Increment the addressed byte; the returned value is what was written,
/// with the zero and negative flags tracking it.
fn do_inc(cpu: &mut Cpu, mode: AddressMode) -> (r: Result<u8, EmuError>)
    requires
        old(cpu).wf(),
        mode != AddressMode::Implied && mode != AddressMode::Offset && mode
            != AddressMode::Immediate,
    ensures
        final(cpu).wf(),
        r matches Err(e) ==> (e is DisabledRegion || e is WriteToReadOnly),
        r matches Ok(v) ==> final(cpu).p == spec_znp(old(cpu).p, v),
        final(cpu).a == old(cpu).a,
        final(cpu).x == old(cpu).x,
        final(cpu).y == old(cpu).y,
        final(cpu).sp == old(cpu).sp,
{
    let target = match cpu.operand_address(mode) {
        Ok(v) => v,
        Err(e) => {
            return Err(e);
        },
    };
    let address = target.address();
    let operand = match cpu.bus.read(address) {
        Ok(v) => v,
        Err(e) => {
            return Err(e);
        },
    };
    let result = operand.wrapping_add(1);
    cpu.bus.tick();
    match cpu.bus.write(address, result) {
        Ok(()) => {},
        Err(e) => {
            return Err(e);
        },
    }

    set_zero_and_negative(cpu, result);

    Ok(result)
}

fn dec(cpu: &mut Cpu, mode: AddressMode) -> (r: Result<(), EmuError>)
    requires
        old(cpu).wf(),
        mode != AddressMode::Implied && mode != AddressMode::Offset && mode
            != AddressMode::Immediate,
    ensures
        final(cpu).wf(),
        spec_only_bus_errors(r),
        final(cpu).a == old(cpu).a,
        final(cpu).x == old(cpu).x,
        final(cpu).y == old(cpu).y,
        final(cpu).sp == old(cpu).sp,
        r is Ok ==> final(cpu).p & 0x7D == old(cpu).p & 0x7D,
{
    let target = match cpu.operand_address(mode) {
        Ok(v) => v,
        Err(e) => {
            return Err(e);
        },
    };
    let address = target.address();
    let operand = match cpu.bus.read(address) {
        Ok(v) => v,
        Err(e) => {
            return Err(e);
        },
    };
    let result = operand.wrapping_sub(1);
    cpu.bus.tick();
    match cpu.bus.write(address, result) {
        Ok(()) => {},
        Err(e) => {
            return Err(e);
        },
    }
    set_zero_and_negative(cpu, result);
    proof {
        lemma_znp_bits(old(cpu).p, result);
    }
    Ok(())
}

/* Stack Instructions */

// PusH Processor status
fn php(cpu: &mut Cpu, _mode: AddressMode) -> (r: Result<(), EmuError>)
    requires
        old(cpu).wf(),
    ensures
        final(cpu).wf(),
        r is Ok,
        // Bits 4 and 5 are always set on the pushed copy
        final(cpu).bus.ram@ == old(cpu).bus.ram@.update(
            STACK_PAGE + old(cpu).sp,
            old(cpu).p | 0x30,
        ),
        final(cpu).sp == old(cpu).sp.wrapping_sub(1),
        final(cpu).a == old(cpu).a,
        final(cpu).x == old(cpu).x,
        final(cpu).y == old(cpu).y,
        final(cpu).pc == old(cpu).pc,
        final(cpu).p == old(cpu).p,
{
    cpu.bus.tick();

    let pushed = cpu.p | 0b110000;
    cpu.push_stack(pushed);
    Ok(())
}

// PusH Accumulator
fn pha(cpu: &mut Cpu, _mode: AddressMode) -> (r: Result<(), EmuError>)
    requires
        old(cpu).wf(),
    ensures
        final(cpu).wf(),
        r is Ok,
        final(cpu).bus.ram@ == old(cpu).bus.ram@.update(STACK_PAGE + old(cpu).sp, old(cpu).a),
        final(cpu).sp == old(cpu).sp.wrapping_sub(1),
        final(cpu).a == old(cpu).a,
        final(cpu).x == old(cpu).x,
        final(cpu).y == old(cpu).y,
        final(cpu).pc == old(cpu).pc,
        final(cpu).p == old(cpu).p,
{
    cpu.bus.tick();
    let a = cpu.a;
    cpu.push_stack(a);
    Ok(())
}

// PuLl Processor status
fn plp(cpu: &mut Cpu, _mode: AddressMode) -> (r: Result<(), EmuError>)
    requires
        old(cpu).wf(),
    ensures
        final(cpu).wf(),
        r is Ok,
        // The break and push bits of the live register survive the pull
        final(cpu).p == (old(cpu).bus.ram@[STACK_PAGE + old(cpu).sp.wrapping_add(1)] & 0xCF) | (
        old(cpu).p & 0x30),
        final(cpu).sp == old(cpu).sp.wrapping_add(1),
        final(cpu).a == old(cpu).a,
        final(cpu).x == old(cpu).x,
        final(cpu).y == old(cpu).y,
        final(cpu).pc == old(cpu).pc,
        final(cpu).bus.ram == old(cpu).bus.ram,
{
    cpu.bus.tick();
    cpu.bus.tick();
    let popped = cpu.pop_stack();
    cpu.p = (popped & 0b11001111) | (cpu.p & 0b00110000);
    Ok(())
}

// PuLl Accumulator
fn pla(cpu: &mut Cpu, _mode: AddressMode) -> (r: Result<(), EmuError>)
    requires
        old(cpu).wf(),
    ensures
        final(cpu).wf(),
        r is Ok,
        final(cpu).a == old(cpu).bus.ram@[STACK_PAGE + old(cpu).sp.wrapping_add(1)],
        final(cpu).p == spec_znp(old(cpu).p, final(cpu).a),
        final(cpu).sp == old(cpu).sp.wrapping_add(1),
        final(cpu).x == old(cpu).x,
        final(cpu).y == old(cpu).y,
        final(cpu).pc == old(cpu).pc,
        final(cpu).bus.ram == old(cpu).bus.ram,
{
    cpu.bus.tick();
    cpu.bus.tick();
    cpu.a = cpu.pop_stack();
    let a = cpu.a;
    set_zero_and_negative(cpu, a);
    Ok(())
}

/* Branch Instructions */

// Branch on Carry Set
fn bcs(cpu: &mut Cpu, _mode: AddressMode) -> (r: Result<(), EmuError>)
    requires
        old(cpu).wf(),
    ensures
        final(cpu).wf(),
        spec_only_bus_errors(r),
        (r is Err) <==> (0x4018 <= old(cpu).pc <= 0x401F),
        r is Ok ==> spec_branch_effect(*old(cpu), *final(cpu), old(cpu).p & 0x01 != 0),
{
    let carry = cpu.get_flag(CpuStatus::Carry);
    branch(cpu, carry)
}

// Branch on Carry Clear
fn bcc(cpu: &mut Cpu, _mode: AddressMode) -> (r: Result<(), EmuError>)
    requires
        old(cpu).wf(),
    ensures
        final(cpu).wf(),
        spec_only_bus_errors(r),
        (r is Err) <==> (0x4018 <= old(cpu).pc <= 0x401F),
        r is Ok ==> spec_branch_effect(*old(cpu), *final(cpu), old(cpu).p & 0x01 == 0),
{
    let carry = cpu.get_flag(CpuStatus::Carry);
    branch(cpu, !carry)
}

// Branch on EQual
fn beq(cpu: &mut Cpu, _mode: AddressMode) -> (r: Result<(), EmuError>)
    requires
        old(cpu).wf(),
    ensures
        final(cpu).wf(),
        spec_only_bus_errors(r),
        (r is Err) <==> (0x4018 <= old(cpu).pc <= 0x401F),
        r is Ok ==> spec_branch_effect(*old(cpu), *final(cpu), old(cpu).p & 0x02 != 0),
{
    let zero = cpu.get_flag(CpuStatus::Zero);
    branch(cpu, zero)
}

// Branch on Not Equal
fn bne(cpu: &mut Cpu, _mode: AddressMode) -> (r: Result<(), EmuError>)
    requires
        old(cpu).wf(),
    ensures
        final(cpu).wf(),
        spec_only_bus_errors(r),
        (r is Err) <==> (0x4018 <= old(cpu).pc <= 0x401F),
        r is Ok ==> spec_branch_effect(*old(cpu), *final(cpu), old(cpu).p & 0x02 == 0),
{
    let zero = cpu.get_flag(CpuStatus::Zero);
    branch(cpu, !zero)
}

// Branch on oVerflow Set
fn bvs(cpu: &mut Cpu, _mode: AddressMode) -> (r: Result<(), EmuError>)
    requires
        old(cpu).wf(),
    ensures
        final(cpu).wf(),
        spec_only_bus_errors(r),
        (r is Err) <==> (0x4018 <= old(cpu).pc <= 0x401F),
        r is Ok ==> spec_branch_effect(*old(cpu), *final(cpu), old(cpu).p & 0x40 != 0),
{
    let v = cpu.get_flag(CpuStatus::Overflow);
    branch(cpu, v)
}

// Branch on oVerflow Clear
fn bvc(cpu: &mut Cpu, _mode: AddressMode) -> (r: Result<(), EmuError>)
    requires
        old(cpu).wf(),
    ensures
        final(cpu).wf(),
        spec_only_bus_errors(r),
        (r is Err) <==> (0x4018 <= old(cpu).pc <= 0x401F),
        r is Ok ==> spec_branch_effect(*old(cpu), *final(cpu), old(cpu).p & 0x40 == 0),
{
    let v = cpu.get_flag(CpuStatus::Overflow);
    branch(cpu, !v)
}

// Branch on PLus
fn bpl(cpu: &mut Cpu, _mode: AddressMode) -> (r: Result<(), EmuError>)
    requires
        old(cpu).wf(),
    ensures
        final(cpu).wf(),
        spec_only_bus_errors(r),
        (r is Err) <==> (0x4018 <= old(cpu).pc <= 0x401F),
        r is Ok ==> spec_branch_effect(*old(cpu), *final(cpu), old(cpu).p & 0x80 == 0),
{
    let n = cpu.get_flag(CpuStatus::Negative);
    branch(cpu, !n)
}

// Branch on MInus
fn bmi(cpu: &mut Cpu, _mode: AddressMode) -> (r: Result<(), EmuError>)
    requires
        old(cpu).wf(),
    ensures
        final(cpu).wf(),
        spec_only_bus_errors(r),
        (r is Err) <==> (0x4018 <= old(cpu).pc <= 0x401F),
        r is Ok ==> spec_branch_effect(*old(cpu), *final(cpu), old(cpu).p & 0x80 != 0),
{
    let n = cpu.get_flag(CpuStatus::Negative);
    branch(cpu, n)
}

// ReTurn from Subroutine
fn rts(cpu: &mut Cpu, _mode: AddressMode) -> (r: Result<(), EmuError>)
    requires
        old(cpu).wf(),
    ensures
        final(cpu).wf(),
        r is Ok,
        final(cpu).pc == ((old(cpu).bus.ram@[STACK_PAGE + old(cpu).sp.wrapping_add(1)] + old(cpu).bus.ram@[STACK_PAGE + old(cpu).sp.wrapping_add(2)] * 0x100) as u16).wrapping_add(1),
        final(cpu).sp == old(cpu).sp.wrapping_add(2),
        final(cpu).a == old(cpu).a,
        final(cpu).x == old(cpu).x,
        final(cpu).y == old(cpu).y,
        final(cpu).p == old(cpu).p,
        final(cpu).bus.ram == old(cpu).bus.ram,
        final(cpu).bus.cycles == old(cpu).bus.cycles.wrapping_add(1).wrapping_add(1).wrapping_add(
            1,
        ).wrapping_add(1).wrapping_add(1),
{
    cpu.bus.tick();
    cpu.bus.tick();
    let return_address = cpu.pop_stack_16().wrapping_add(1);
    cpu.pc = return_address;
    cpu.bus.tick();
    Ok(())
}

// ReTurn from Interrupt
fn rti(cpu: &mut Cpu, _mode: AddressMode) -> (r: Result<(), EmuError>)
    requires
        old(cpu).wf(),
    ensures
        final(cpu).wf(),
        r is Ok,
        // The break and push bits of the live register survive the pull
        final(cpu).p == (old(cpu).bus.ram@[STACK_PAGE + old(cpu).sp.wrapping_add(1)] & 0xCF) | (
        old(cpu).p & 0x30),
        final(cpu).pc == old(cpu).bus.ram@[STACK_PAGE + old(cpu).sp.wrapping_add(2)] + old(cpu).bus.ram@[STACK_PAGE + old(cpu).sp.wrapping_add(3)] * 0x100,
        final(cpu).sp == old(cpu).sp.wrapping_add(3),
        final(cpu).a == old(cpu).a,
        final(cpu).x == old(cpu).x,
        final(cpu).y == old(cpu).y,
        final(cpu).bus.ram == old(cpu).bus.ram,
{
    cpu.bus.tick();
    cpu.bus.tick();
    let popped = cpu.pop_stack();
    cpu.p = (popped & 0b11001111) | (cpu.p & 0b00110000);
    cpu.pc = cpu.pop_stack_16();
    Ok(())
}

/* Logical Operations */

// AND
fn and(cpu: &mut Cpu, mode: AddressMode) -> (r: Result<(), EmuError>)
    requires
        old(cpu).wf(),
        mode != AddressMode::Implied && mode != AddressMode::Offset,
    ensures
        final(cpu).wf(),
        spec_only_bus_errors(r),
        r is Ok ==> final(cpu).p == spec_znp(old(cpu).p, final(cpu).a),
        spec_operand_stable(mode, *old(cpu)) ==> r is Ok && final(cpu).a == (old(cpu).a & spec_stable_operand(mode, *old(cpu))),
        final(cpu).x == old(cpu).x,
        final(cpu).y == old(cpu).y,
        final(cpu).sp == old(cpu).sp,
{
    let operand = match read_operand(cpu, mode) {
        Ok(v) => v,
        Err(e) => {
            return Err(e);
        },
    };
    let value = cpu.a & operand;
    set_zero_and_negative(cpu, value);
    cpu.a = value;
    Ok(())
}

// OR Accumulator
fn ora(cpu: &mut Cpu, mode: AddressMode) -> (r: Result<(), EmuError>)
    requires
        old(cpu).wf(),
        mode != AddressMode::Implied && mode != AddressMode::Offset,
    ensures
        final(cpu).wf(),
        spec_only_bus_errors(r),
        r is Ok ==> final(cpu).p == spec_znp(old(cpu).p, final(cpu).a),
        spec_operand_stable(mode, *old(cpu)) ==> r is Ok && final(cpu).a == (old(cpu).a | spec_stable_operand(mode, *old(cpu))),
        final(cpu).x == old(cpu).x,
        final(cpu).y == old(cpu).y,
        final(cpu).sp == old(cpu).sp,
{
    let operand = match read_operand(cpu, mode) {
        Ok(v) => v,
        Err(e) => {
            return Err(e);
        },
    };
    let value = cpu.a | operand;
    set_zero_and_negative(cpu, value);
    cpu.a = value;
    Ok(())
}

// Exclusive OR
fn eor(cpu: &mut Cpu, mode: AddressMode) -> (r: Result<(), EmuError>)
    requires
        old(cpu).wf(),
        mode != AddressMode::Implied && mode != AddressMode::Offset,
    ensures
        final(cpu).wf(),
        spec_only_bus_errors(r),
        r is Ok ==> final(cpu).p == spec_znp(old(cpu).p, final(cpu).a),
        spec_operand_stable(mode, *old(cpu)) ==> r is Ok && final(cpu).a == (old(cpu).a ^ spec_stable_operand(mode, *old(cpu))),
        final(cpu).x == old(cpu).x,
        final(cpu).y == old(cpu).y,
        final(cpu).sp == old(cpu).sp,
{
    let operand = match read_operand(cpu, mode) {
        Ok(v) => v,
        Err(e) => {
            return Err(e);
        },
    };
    let value = cpu.a ^ operand;
    set_zero_and_negative(cpu, value);
    cpu.a = value;
    Ok(())
}

/* Arithmetic Operations */

/// Add a known operand into the accumulator with carry; the core of ADC.
pub fn adc_with(cpu: &mut Cpu, operand: u8)
    requires
        old(cpu).wf(),
    ensures
        final(cpu).wf(),
        final(cpu).a == (spec_adc_sum(old(cpu).a, operand, old(cpu).p) % 256) as u8,
        final(cpu).p == spec_carry_overflow(
            spec_znp(old(cpu).p, final(cpu).a),
            old(cpu).a,
            operand,
            spec_adc_sum(old(cpu).a, operand, old(cpu).p) as u16,
        ),
        final(cpu).x == old(cpu).x,
        final(cpu).y == old(cpu).y,
        final(cpu).sp == old(cpu).sp,
        final(cpu).pc == old(cpu).pc,
        final(cpu).bus == old(cpu).bus,
{
    let a = cpu.a;
    let mut result = (a as u16).wrapping_add(operand as u16);

    if cpu.get_flag(CpuStatus::Carry) {
        result = result.wrapping_add(1);
    }

    let truncated = (result % 256) as u8;
    cpu.a = truncated;
    set_zero_and_negative(cpu, truncated);
    set_carry_and_overflow(cpu, a, operand, result);
}

// ADd with Carry
fn adc(cpu: &mut Cpu, mode: AddressMode) -> (r: Result<(), EmuError>)
    requires
        old(cpu).wf(),
        mode != AddressMode::Implied && mode != AddressMode::Offset,
    ensures
        final(cpu).wf(),
        spec_only_bus_errors(r),
        spec_operand_stable(mode, *old(cpu)) ==> r is Ok && final(cpu).a == (spec_adc_sum(
            old(cpu).a,
            spec_stable_operand(mode, *old(cpu)),
            old(cpu).p,
        ) % 256) as u8 && final(cpu).p == spec_carry_overflow(
            spec_znp(old(cpu).p, final(cpu).a),
            old(cpu).a,
            spec_stable_operand(mode, *old(cpu)),
            spec_adc_sum(old(cpu).a, spec_stable_operand(mode, *old(cpu)), old(cpu).p) as u16,
        ),
        final(cpu).x == old(cpu).x,
        final(cpu).y == old(cpu).y,
        final(cpu).sp == old(cpu).sp,
{
    let operand = match read_operand(cpu, mode) {
        Ok(v) => v,
        Err(e) => {
            return Err(e);
        },
    };
    adc_with(cpu, operand);
    Ok(())
}

/// Subtract a known operand from the accumulator with borrow; SBC is ADC of
/// the inverted operand.
pub fn sbc_with(cpu: &mut Cpu, operand: u8)
    requires
        old(cpu).wf(),
    ensures
        final(cpu).wf(),
        final(cpu).a == (spec_adc_sum(old(cpu).a, !operand, old(cpu).p) % 256) as u8,
        final(cpu).p == spec_carry_overflow(
            spec_znp(old(cpu).p, final(cpu).a),
            old(cpu).a,
            !operand,
            spec_adc_sum(old(cpu).a, !operand, old(cpu).p) as u16,
        ),
        final(cpu).x == old(cpu).x,
        final(cpu).y == old(cpu).y,
        final(cpu).sp == old(cpu).sp,
        final(cpu).pc == old(cpu).pc,
        final(cpu).bus == old(cpu).bus,
{
    adc_with(cpu, !operand);
}

// SuBtract with Carry
fn sbc(cpu: &mut Cpu, mode: AddressMode) -> (r: Result<(), EmuError>)
    requires
        old(cpu).wf(),
        mode != AddressMode::Implied && mode != AddressMode::Offset,
    ensures
        final(cpu).wf(),
        spec_only_bus_errors(r),
        spec_operand_stable(mode, *old(cpu)) ==> r is Ok && final(cpu).a == (spec_adc_sum(
            old(cpu).a,
            !spec_stable_operand(mode, *old(cpu)),
            old(cpu).p,
        ) % 256) as u8 && final(cpu).p == spec_carry_overflow(
            spec_znp(old(cpu).p, final(cpu).a),
            old(cpu).a,
            !spec_stable_operand(mode, *old(cpu)),
            spec_adc_sum(old(cpu).a, !spec_stable_operand(mode, *old(cpu)), old(cpu).p) as u16,
        ),
        final(cpu).x == old(cpu).x,
        final(cpu).y == old(cpu).y,
        final(cpu).sp == old(cpu).sp,
{
    let operand = match read_operand(cpu, mode) {
        Ok(v) => v,
        Err(e) => {
            return Err(e);
        },
    };
    sbc_with(cpu, operand);
    Ok(())
}

// INcrement X
fn inx(cpu: &mut Cpu, _mode: AddressMode) -> (r: Result<(), EmuError>)
    requires
        old(cpu).wf(),
    ensures
        final(cpu).wf(),
        r is Ok,
        final(cpu).x == old(cpu).x.wrapping_add(1),
        final(cpu).p == spec_znp(old(cpu).p, final(cpu).x),
        final(cpu).a == old(cpu).a,
        final(cpu).y == old(cpu).y,
        final(cpu).sp == old(cpu).sp,
        final(cpu).pc == old(cpu).pc,
        final(cpu).bus.cycles == old(cpu).bus.cycles.wrapping_add(1),
        final(cpu).bus.ram == old(cpu).bus.ram,
{
    let value = cpu.x.wrapping_add(1);
    cpu.bus.tick();
    set_zero_and_negative(cpu, value);
    cpu.x = value;
    Ok(())
}

// DEcrement X
fn dex(cpu: &mut Cpu, _mode: AddressMode) -> (r: Result<(), EmuError>)
    requires
        old(cpu).wf(),
    ensures
        final(cpu).wf(),
        r is Ok,
        final(cpu).x == old(cpu).x.wrapping_sub(1),
        final(cpu).p == spec_znp(old(cpu).p, final(cpu).x),
        final(cpu).a == old(cpu).a,
        final(cpu).y == old(cpu).y,
        final(cpu).sp == old(cpu).sp,
        final(cpu).pc == old(cpu).pc,
        final(cpu).bus.cycles == old(cpu).bus.cycles.wrapping_add(1),
        final(cpu).bus.ram == old(cpu).bus.ram,
{
    let value = cpu.x.wrapping_sub(1);
    cpu.bus.tick();
    set_zero_and_negative(cpu, value);
    cpu.x = value;
    Ok(())
}

// INcrement Y
fn iny(cpu: &mut Cpu, _mode: AddressMode) -> (r: Result<(), EmuError>)
    requires
        old(cpu).wf(),
    ensures
        final(cpu).wf(),
        r is Ok,
        final(cpu).y == old(cpu).y.wrapping_add(1),
        final(cpu).p == spec_znp(old(cpu).p, final(cpu).y),
        final(cpu).a == old(cpu).a,
        final(cpu).x == old(cpu).x,
        final(cpu).sp == old(cpu).sp,
        final(cpu).pc == old(cpu).pc,
        final(cpu).bus.cycles == old(cpu).bus.cycles.wrapping_add(1),
        final(cpu).bus.ram == old(cpu).bus.ram,
{
    let value = cpu.y.wrapping_add(1);
    cpu.bus.tick();
    set_zero_and_negative(cpu, value);
    cpu.y = value;
    Ok(())
}

// DEcrement Y
fn dey(cpu: &mut Cpu, _mode: AddressMode) -> (r: Result<(), EmuError>)
    requires
        old(cpu).wf(),
    ensures
        final(cpu).wf(),
        r is Ok,
        final(cpu).y == old(cpu).y.wrapping_sub(1),
        final(cpu).p == spec_znp(old(cpu).p, final(cpu).y),
        final(cpu).a == old(cpu).a,
        final(cpu).x == old(cpu).x,
        final(cpu).sp == old(cpu).sp,
        final(cpu).pc == old(cpu).pc,
        final(cpu).bus.cycles == old(cpu).bus.cycles.wrapping_add(1),
        final(cpu).bus.ram == old(cpu).bus.ram,
{
    let value = cpu.y.wrapping_sub(1);
    cpu.bus.tick();
    set_zero_and_negative(cpu, value);
    cpu.y = value;
    Ok(())
}

/* Comparison Operations */

// CoMPare (with accumulator)
fn cmp(cpu: &mut Cpu, mode: AddressMode) -> (r: Result<(), EmuError>)
    requires
        old(cpu).wf(),
        mode != AddressMode::Implied && mode != AddressMode::Offset,
    ensures
        final(cpu).wf(),
        spec_only_bus_errors(r),
        spec_operand_stable(mode, *old(cpu)) ==> r is Ok && final(cpu).p == spec_set_flag(
            spec_znp(old(cpu).p, old(cpu).a.wrapping_sub(spec_stable_operand(mode, *old(cpu)))),
            CpuStatus::Carry,
            old(cpu).a >= spec_stable_operand(mode, *old(cpu)),
        ),
        final(cpu).a == old(cpu).a,
        final(cpu).x == old(cpu).x,
        final(cpu).y == old(cpu).y,
        final(cpu).sp == old(cpu).sp,
        r is Ok ==> final(cpu).p & 0x7C == old(cpu).p & 0x7C,
{
    let operand = match read_operand(cpu, mode) {
        Ok(v) => v,
        Err(e) => {
            return Err(e);
        },
    };
    let a = cpu.a;
    compare(cpu, a, operand);
    Ok(())
}

// ComPare X register
fn cpx(cpu: &mut Cpu, mode: AddressMode) -> (r: Result<(), EmuError>)
    requires
        old(cpu).wf(),
        mode != AddressMode::Implied && mode != AddressMode::Offset,
    ensures
        final(cpu).wf(),
        spec_only_bus_errors(r),
        spec_operand_stable(mode, *old(cpu)) ==> r is Ok && final(cpu).p == spec_set_flag(
            spec_znp(old(cpu).p, old(cpu).x.wrapping_sub(spec_stable_operand(mode, *old(cpu)))),
            CpuStatus::Carry,
            old(cpu).x >= spec_stable_operand(mode, *old(cpu)),
        ),
        final(cpu).a == old(cpu).a,
        final(cpu).x == old(cpu).x,
        final(cpu).y == old(cpu).y,
        final(cpu).sp == old(cpu).sp,
        r is Ok ==> final(cpu).p & 0x7C == old(cpu).p & 0x7C,
{
    let operand = match read_operand(cpu, mode) {
        Ok(v) => v,
        Err(e) => {
            return Err(e);
        },
    };
    let x = cpu.x;
    compare(cpu, x, operand);
    Ok(())
}

// ComPare Y register
fn cpy(cpu: &mut Cpu, mode: AddressMode) -> (r: Result<(), EmuError>)
    requires
        old(cpu).wf(),
        mode != AddressMode::Implied && mode != AddressMode::Offset,
    ensures
        final(cpu).wf(),
        spec_only_bus_errors(r),
        spec_operand_stable(mode, *old(cpu)) ==> r is Ok && final(cpu).p == spec_set_flag(
            spec_znp(old(cpu).p, old(cpu).y.wrapping_sub(spec_stable_operand(mode, *old(cpu)))),
            CpuStatus::Carry,
            old(cpu).y >= spec_stable_operand(mode, *old(cpu)),
        ),
        final(cpu).a == old(cpu).a,
        final(cpu).x == old(cpu).x,
        final(cpu).y == old(cpu).y,
        final(cpu).sp == old(cpu).sp,
        r is Ok ==> final(cpu).p & 0x7C == old(cpu).p & 0x7C,
{
    let operand = match read_operand(cpu, mode) {
        Ok(v) => v,
        Err(e) => {
            return Err(e);
        },
    };
    let y = cpu.y;
    compare(cpu, y, operand);
    Ok(())
}

/// Shared comparison core: the carry flag reports `register >= operand` and
/// the zero and negative flags track the wrapped difference.
pub fn compare(cpu: &mut Cpu, register: u8, operand: u8)
    requires
        old(cpu).wf(),
    ensures
        final(cpu).wf(),
        final(cpu).p == spec_set_flag(
            spec_znp(old(cpu).p, register.wrapping_sub(operand)),
            CpuStatus::Carry,
            register >= operand,
        ),
        final(cpu).a == old(cpu).a,
        final(cpu).x == old(cpu).x,
        final(cpu).y == old(cpu).y,
        final(cpu).sp == old(cpu).sp,
        final(cpu).pc == old(cpu).pc,
        final(cpu).bus == old(cpu).bus,
        final(cpu).p & 0x7C == old(cpu).p & 0x7C,
{
    set_zero_and_negative(cpu, register.wrapping_sub(operand));
    cpu.set_flag(CpuStatus::Carry, register >= operand);
    proof {
        lemma_znp_bits(old(cpu).p, register.wrapping_sub(operand));
        lemma_carry_other_bits(spec_znp(old(cpu).p, register.wrapping_sub(operand)));
    }
}

/* Transfer Operations */

// Transfer A to X
fn tax(cpu: &mut Cpu, _mode: AddressMode) -> (r: Result<(), EmuError>)
    requires
        old(cpu).wf(),
    ensures
        final(cpu).wf(),
        r is Ok,
        final(cpu).x == old(cpu).a,
        final(cpu).p == spec_znp(old(cpu).p, old(cpu).a),
        final(cpu).a == old(cpu).a,
        final(cpu).y == old(cpu).y,
        final(cpu).sp == old(cpu).sp,
        final(cpu).pc == old(cpu).pc,
        final(cpu).bus.cycles == old(cpu).bus.cycles.wrapping_add(1),
        final(cpu).bus.ram == old(cpu).bus.ram,
{
    let value = cpu.a;
    cpu.bus.tick();
    set_zero_and_negative(cpu, value);
    cpu.x = value;
    Ok(())
}

// Transfer X to A
fn txa(cpu: &mut Cpu, _mode: AddressMode) -> (r: Result<(), EmuError>)
    requires
        old(cpu).wf(),
    ensures
        final(cpu).wf(),
        r is Ok,
        final(cpu).a == old(cpu).x,
        final(cpu).p == spec_znp(old(cpu).p, old(cpu).x),
        final(cpu).x == old(cpu).x,
        final(cpu).y == old(cpu).y,
        final(cpu).sp == old(cpu).sp,
        final(cpu).pc == old(cpu).pc,
        final(cpu).bus.cycles == old(cpu).bus.cycles.wrapping_add(1),
        final(cpu).bus.ram == old(cpu).bus.ram,
{
    let value = cpu.x;
    cpu.bus.tick();
    set_zero_and_negative(cpu, value);
    cpu.a = value;
    Ok(())
}

// Transfer A to Y
fn tay(cpu: &mut Cpu, _mode: AddressMode) -> (r: Result<(), EmuError>)
    requires
        old(cpu).wf(),
    ensures
        final(cpu).wf(),
        r is Ok,
        final(cpu).y == old(cpu).a,
        final(cpu).p == spec_znp(old(cpu).p, old(cpu).a),
        final(cpu).a == old(cpu).a,
        final(cpu).x == old(cpu).x,
        final(cpu).sp == old(cpu).sp,
        final(cpu).pc == old(cpu).pc,
        final(cpu).bus.cycles == old(cpu).bus.cycles.wrapping_add(1),
        final(cpu).bus.ram == old(cpu).bus.ram,
{
    let value = cpu.a;
    cpu.bus.tick();
    set_zero_and_negative(cpu, value);
    cpu.y = value;
    Ok(())
}

// Transfer Y to A
fn tya(cpu: &mut Cpu, _mode: AddressMode) -> (r: Result<(), EmuError>)
    requires
        old(cpu).wf(),
    ensures
        final(cpu).wf(),
        r is Ok,
        final(cpu).a == old(cpu).y,
        final(cpu).p == spec_znp(old(cpu).p, old(cpu).y),
        final(cpu).x == old(cpu).x,
        final(cpu).y == old(cpu).y,
        final(cpu).sp == old(cpu).sp,
        final(cpu).pc == old(cpu).pc,
        final(cpu).bus.cycles == old(cpu).bus.cycles.wrapping_add(1),
        final(cpu).bus.ram == old(cpu).bus.ram,
{
    let value = cpu.y;
    cpu.bus.tick();
    set_zero_and_negative(cpu, value);
    cpu.a = value;
    Ok(())
}

// Transfer Stack pointer to X
fn tsx(cpu: &mut Cpu, _mode: AddressMode) -> (r: Result<(), EmuError>)
    requires
        old(cpu).wf(),
    ensures
        final(cpu).wf(),
        r is Ok,
        final(cpu).x == old(cpu).sp,
        final(cpu).p == spec_znp(old(cpu).p, old(cpu).sp),
        final(cpu).a == old(cpu).a,
        final(cpu).y == old(cpu).y,
        final(cpu).sp == old(cpu).sp,
        final(cpu).pc == old(cpu).pc,
        final(cpu).bus.cycles == old(cpu).bus.cycles.wrapping_add(1),
        final(cpu).bus.ram == old(cpu).bus.ram,
{
    let value = cpu.sp;
    cpu.bus.tick();
    set_zero_and_negative(cpu, value);
    cpu.x = value;
    Ok(())
}

// Transfer X to Stack pointer
fn txs(cpu: &mut Cpu, _mode: AddressMode) -> (r: Result<(), EmuError>)
    requires
        old(cpu).wf(),
    ensures
        final(cpu).wf(),
        r is Ok,
        final(cpu).sp == old(cpu).x,
        final(cpu).p == old(cpu).p,
        final(cpu).a == old(cpu).a,
        final(cpu).x == old(cpu).x,
        final(cpu).y == old(cpu).y,
        final(cpu).pc == old(cpu).pc,
        final(cpu).bus.cycles == old(cpu).bus.cycles.wrapping_add(1),
        final(cpu).bus.ram == old(cpu).bus.ram,
{
    let value = cpu.x;
    cpu.bus.tick();
    cpu.sp = value;
    Ok(())
}

/* Bit Manipulation Operations */

fn lsr_a(cpu: &mut Cpu, _mode: AddressMode) -> (r: Result<(), EmuError>)
    requires
        old(cpu).wf(),
    ensures
        final(cpu).wf(),
        r is Ok,
        final(cpu).a == old(cpu).a >> 1,
        final(cpu).p == spec_znp(
            spec_set_flag(old(cpu).p, CpuStatus::Carry, old(cpu).a & 1 != 0),
            old(cpu).a >> 1,
        ),
        final(cpu).x == old(cpu).x,
        final(cpu).y == old(cpu).y,
        final(cpu).sp == old(cpu).sp,
        final(cpu).pc == old(cpu).pc,
        final(cpu).bus.cycles == old(cpu).bus.cycles.wrapping_add(1),
        final(cpu).bus.ram == old(cpu).bus.ram,
{
    let a = cpu.a;
    cpu.set_flag(CpuStatus::Carry, a & 1 != 0);
    cpu.a = a >> 1;
    let value = cpu.a;
    set_zero_and_negative(cpu, value);
    cpu.bus.tick();
    Ok(())
}

fn lsr(cpu: &mut Cpu, mode: AddressMode) -> (r: Result<(), EmuError>)
    requires
        old(cpu).wf(),
        mode != AddressMode::Implied && mode != AddressMode::Offset && mode
            != AddressMode::Immediate,
    ensures
        final(cpu).wf(),
        spec_only_bus_errors(r),
        final(cpu).a == old(cpu).a,
        final(cpu).x == old(cpu).x,
        final(cpu).y == old(cpu).y,
        final(cpu).sp == old(cpu).sp,
{
    match do_lsr(cpu, mode) {
        Ok(_) => Ok(()),
        Err(e) => Err(e),
    }
}

/// Shift the addressed byte right; the carry takes the bit shifted out and
/// the returned value is what was written.
fn do_lsr(cpu: &mut Cpu, mode: AddressMode) -> (r: Result<u8, EmuError>)
    requires
        old(cpu).wf(),
        mode != AddressMode::Implied && mode != AddressMode::Offset && mode
            != AddressMode::Immediate,
    ensures
        final(cpu).wf(),
        r matches Err(e) ==> (e is DisabledRegion || e is WriteToReadOnly),
        r matches Ok(v) ==> {
            &&& (final(cpu).p & 0x02 != 0) == (v == 0)
            &&& (final(cpu).p & 0x80 != 0) == (v >> 7 == 1)
            &&& final(cpu).p & 0x7C == old(cpu).p & 0x7C
        },
        final(cpu).a == old(cpu).a,
        final(cpu).x == old(cpu).x,
        final(cpu).y == old(cpu).y,
        final(cpu).sp == old(cpu).sp,
{
    let target = match cpu.operand_address(mode) {
        Ok(v) => v,
        Err(e) => {
            return Err(e);
        },
    };
    let address = target.address();
    let operand = match cpu.bus.read(address) {
        Ok(v) => v,
        Err(e) => {
            return Err(e);
        },
    };
    let value = operand >> 1;

    let ghost p0 = cpu.p;
    cpu.set_flag(CpuStatus::Carry, operand & 1 != 0);
    cpu.bus.tick();
    set_zero_and_negative(cpu, value);
    match cpu.bus.write(address, value) {
        Ok(()) => {},
        Err(e) => {
            return Err(e);
        },
    }

    proof {
        lemma_znp_bits(spec_set_flag(p0, CpuStatus::Carry, true), value);
        lemma_znp_bits(spec_set_flag(p0, CpuStatus::Carry, false), value);
        lemma_carry_other_bits(p0);
    }

    Ok(value)
}

fn asl_a(cpu: &mut Cpu, _mode: AddressMode) -> (r: Result<(), EmuError>)
    requires
        old(cpu).wf(),
    ensures
        final(cpu).wf(),
        r is Ok,
        final(cpu).a == old(cpu).a << 1,
        final(cpu).p == spec_znp(
            spec_set_flag(old(cpu).p, CpuStatus::Carry, old(cpu).a & 0x80 > 0),
            old(cpu).a << 1,
        ),
        final(cpu).x == old(cpu).x,
        final(cpu).y == old(cpu).y,
        final(cpu).sp == old(cpu).sp,
        final(cpu).pc == old(cpu).pc,
        final(cpu).bus.cycles == old(cpu).bus.cycles.wrapping_add(1),
        final(cpu).bus.ram == old(cpu).bus.ram,
{
    let a = cpu.a;
    cpu.set_flag(CpuStatus::Carry, a & 0x80 > 0);
    cpu.a = a << 1;
    let value = cpu.a;
    set_zero_and_negative(cpu, value);
    cpu.bus.tick();
    Ok(())
}

fn asl(cpu: &mut Cpu, mode: AddressMode) -> (r: Result<(), EmuError>)
    requires
        old(cpu).wf(),
        mode != AddressMode::Implied && mode != AddressMode::Offset && mode
            != AddressMode::Immediate,
    ensures
        final(cpu).wf(),
        spec_only_bus_errors(r),
        final(cpu).a == old(cpu).a,
        final(cpu).x == old(cpu).x,
        final(cpu).y == old(cpu).y,
        final(cpu).sp == old(cpu).sp,
{
    match do_asl(cpu, mode) {
        Ok(_) => Ok(()),
        Err(e) => Err(e),
    }
}

/// Shift the addressed byte left; the carry takes the bit shifted out and
/// the returned value is what was written.
fn do_asl(cpu: &mut Cpu, mode: AddressMode) -> (r: Result<u8, EmuError>)
    requires
        old(cpu).wf(),
        mode != AddressMode::Implied && mode != AddressMode::Offset && mode
            != AddressMode::Immediate,
    ensures
        final(cpu).wf(),
        r matches Err(e) ==> (e is DisabledRegion || e is WriteToReadOnly),
        r matches Ok(v) ==> {
            &&& (final(cpu).p & 0x02 != 0) == (v == 0)
            &&& (final(cpu).p & 0x80 != 0) == (v >> 7 == 1)
            &&& final(cpu).p & 0x7C == old(cpu).p & 0x7C
        },
        final(cpu).a == old(cpu).a,
        final(cpu).x == old(cpu).x,
        final(cpu).y == old(cpu).y,
        final(cpu).sp == old(cpu).sp,
{
    let target = match cpu.operand_address(mode) {
        Ok(v) => v,
        Err(e) => {
            return Err(e);
        },
    };
    let address = target.address();
    let operand = match cpu.bus.read(address) {
        Ok(v) => v,
        Err(e) => {
            return Err(e);
        },
    };
    let value = operand << 1;

    let ghost p0 = cpu.p;
    cpu.set_flag(CpuStatus::Carry, operand & 0x80 != 0);
    cpu.bus.tick();
    set_zero_and_negative(cpu, value);
    match cpu.bus.write(address, value) {
        Ok(()) => {},
        Err(e) => {
            return Err(e);
        },
    }

    proof {
        lemma_znp_bits(spec_set_flag(p0, CpuStatus::Carry, true), value);
        lemma_znp_bits(spec_set_flag(p0, CpuStatus::Carry, false), value);
        lemma_carry_other_bits(p0);
    }

    Ok(value)
}

fn ror_a(cpu: &mut Cpu, _mode: AddressMode) -> (r: Result<(), EmuError>)
    requires
        old(cpu).wf(),
    ensures
        final(cpu).wf(),
        r is Ok,
        final(cpu).a == (if old(cpu).p & 1 != 0 {
            (old(cpu).a >> 1) | 0x80u8
        } else {
            old(cpu).a >> 1
        }),
        final(cpu).p == spec_znp(
            spec_set_flag(old(cpu).p, CpuStatus::Carry, old(cpu).a & 1 != 0),
            final(cpu).a,
        ),
        final(cpu).x == old(cpu).x,
        final(cpu).y == old(cpu).y,
        final(cpu).sp == old(cpu).sp,
        final(cpu).pc == old(cpu).pc,
        final(cpu).bus.cycles == old(cpu).bus.cycles.wrapping_add(1),
        final(cpu).bus.ram == old(cpu).bus.ram,
{
    let a = cpu.a;
    let mut value = a >> 1;

    if cpu.get_flag(CpuStatus::Carry) {
        value = value | 0x80;
    }

    cpu.set_flag(CpuStatus::Carry, a & 1 != 0);
    cpu.a = value;
    set_zero_and_negative(cpu, value);
    cpu.bus.tick();
    Ok(())
}

fn ror(cpu: &mut Cpu, mode: AddressMode) -> (r: Result<(), EmuError>)
    requires
        old(cpu).wf(),
        mode != AddressMode::Implied && mode != AddressMode::Offset && mode
            != AddressMode::Immediate,
    ensures
        final(cpu).wf(),
        spec_only_bus_errors(r),
        final(cpu).a == old(cpu).a,
        final(cpu).x == old(cpu).x,
        final(cpu).y == old(cpu).y,
        final(cpu).sp == old(cpu).sp,
{
    match do_ror(cpu, mode) {
        Ok(_) => Ok(()),
        Err(e) => Err(e),
    }
}

/// Rotate the addressed byte right through the carry; the returned value is
/// what was written.
fn do_ror(cpu: &mut Cpu, mode: AddressMode) -> (r: Result<u8, EmuError>)
    requires
        old(cpu).wf(),
        mode != AddressMode::Implied && mode != AddressMode::Offset && mode
            != AddressMode::Immediate,
    ensures
        final(cpu).wf(),
        r matches Err(e) ==> (e is DisabledRegion || e is WriteToReadOnly),
        r matches Ok(v) ==> {
            &&& (final(cpu).p & 0x02 != 0) == (v == 0)
            &&& (final(cpu).p & 0x80 != 0) == (v >> 7 == 1)
            &&& final(cpu).p & 0x7C == old(cpu).p & 0x7C
        },
        final(cpu).a == old(cpu).a,
        final(cpu).x == old(cpu).x,
        final(cpu).y == old(cpu).y,
        final(cpu).sp == old(cpu).sp,
{
    let target = match cpu.operand_address(mode) {
        Ok(v) => v,
        Err(e) => {
            return Err(e);
        },
    };
    let address = target.address();
    let operand = match cpu.bus.read(address) {
        Ok(v) => v,
        Err(e) => {
            return Err(e);
        },
    };
    let carry_in = cpu.carry();
    let value = (operand >> 1) | (carry_in << 7);

    let ghost p0 = cpu.p;
    cpu.set_flag(CpuStatus::Carry, operand & 1 != 0);
    set_zero_and_negative(cpu, value);
    cpu.bus.tick();
    match cpu.bus.write(address, value) {
        Ok(()) => {},
        Err(e) => {
            return Err(e);
        },
    }

    proof {
        lemma_znp_bits(spec_set_flag(p0, CpuStatus::Carry, true), value);
        lemma_znp_bits(spec_set_flag(p0, CpuStatus::Carry, false), value);
        lemma_carry_other_bits(p0);
    }

    Ok(value)
}

fn rol_a(cpu: &mut Cpu, _mode: AddressMode) -> (r: Result<(), EmuError>)
    requires
        old(cpu).wf(),
    ensures
        final(cpu).wf(),
        r is Ok,
        final(cpu).a == (if old(cpu).p & 1 != 0 {
            (old(cpu).a << 1) | 1u8
        } else {
            old(cpu).a << 1
        }),
        final(cpu).p == spec_znp(
            spec_set_flag(old(cpu).p, CpuStatus::Carry, old(cpu).a & 0x80 != 0),
            final(cpu).a,
        ),
        final(cpu).x == old(cpu).x,
        final(cpu).y == old(cpu).y,
        final(cpu).sp == old(cpu).sp,
        final(cpu).pc == old(cpu).pc,
        final(cpu).bus.cycles == old(cpu).bus.cycles.wrapping_add(1),
        final(cpu).bus.ram == old(cpu).bus.ram,
{
    let a = cpu.a;
    let mut value = a << 1;

    if cpu.get_flag(CpuStatus::Carry) {
        value = value | 1;
    }

    cpu.set_flag(CpuStatus::Carry, a & 0x80 != 0);
    cpu.bus.tick();
    cpu.a = value;
    set_zero_and_negative(cpu, value);
    Ok(())
}

fn rol(cpu: &mut Cpu, mode: AddressMode) -> (r: Result<(), EmuError>)
    requires
        old(cpu).wf(),
        mode != AddressMode::Implied && mode != AddressMode::Offset && mode
            != AddressMode::Immediate,
    ensures
        final(cpu).wf(),
        spec_only_bus_errors(r),
        final(cpu).a == old(cpu).a,
        final(cpu).x == old(cpu).x,
        final(cpu).y == old(cpu).y,
        final(cpu).sp == old(cpu).sp,
{
    match do_rol(cpu, mode) {
        Ok(_) => Ok(()),
        Err(e) => Err(e),
    }
}

/// Rotate the addressed byte left through the carry; the returned value is
/// what was written.
fn do_rol(cpu: &mut Cpu, mode: AddressMode) -> (r: Result<u8, EmuError>)
    requires
        old(cpu).wf(),
        mode != AddressMode::Implied && mode != AddressMode::Offset && mode
            != AddressMode::Immediate,
    ensures
        final(cpu).wf(),
        r matches Err(e) ==> (e is DisabledRegion || e is WriteToReadOnly),
        r matches Ok(v) ==> {
            &&& (final(cpu).p & 0x02 != 0) == (v == 0)
            &&& (final(cpu).p & 0x80 != 0) == (v >> 7 == 1)
            &&& final(cpu).p & 0x7C == old(cpu).p & 0x7C
        },
        final(cpu).a == old(cpu).a,
        final(cpu).x == old(cpu).x,
        final(cpu).y == old(cpu).y,
        final(cpu).sp == old(cpu).sp,
{
    let target = match cpu.operand_address(mode) {
        Ok(v) => v,
        Err(e) => {
            return Err(e);
        },
    };
    let address = target.address();
    let operand = match cpu.bus.read(address) {
        Ok(v) => v,
        Err(e) => {
            return Err(e);
        },
    };
    let carry_in = cpu.carry();
    let value = (operand << 1) | carry_in;

    let ghost p0 = cpu.p;
    cpu.set_flag(CpuStatus::Carry, operand & 0x80 != 0);
    cpu.bus.tick();
    set_zero_and_negative(cpu, value);
    match cpu.bus.write(address, value) {
        Ok(()) => {},
        Err(e) => {
            return Err(e);
        },
    }

    proof {
        lemma_znp_bits(spec_set_flag(p0, CpuStatus::Carry, true), value);
        lemma_znp_bits(spec_set_flag(p0, CpuStatus::Carry, false), value);
        lemma_carry_other_bits(p0);
    }

    Ok(value)
}

/* Miscellaneous Operations */

// Test BITs: Z from the masked accumulator, N and V copied from the operand
fn bit(cpu: &mut Cpu, mode: AddressMode) -> (r: Result<(), EmuError>)
    requires
        old(cpu).wf(),
        mode != AddressMode::Implied && mode != AddressMode::Offset,
    ensures
        final(cpu).wf(),
        spec_only_bus_errors(r),
        final(cpu).a == old(cpu).a,
        final(cpu).x == old(cpu).x,
        final(cpu).y == old(cpu).y,
        final(cpu).sp == old(cpu).sp,
        mode == AddressMode::ZeroPage && spec_zp_stable(*old(cpu)) ==> r is Ok && final(cpu).p
            == spec_bit_flags(old(cpu).p, old(cpu).a, bus_peek(old(cpu).bus, spec_zp_target(*old(cpu)))),
        mode == AddressMode::Absolute && spec_abs_stable(*old(cpu)) ==> r is Ok && final(cpu).p
            == spec_bit_flags(old(cpu).p, old(cpu).a, bus_peek(old(cpu).bus, spec_abs_target(*old(cpu)))),
{
    let operand = match read_operand(cpu, mode) {
        Ok(v) => v,
        Err(e) => {
            return Err(e);
        },
    };

    let a = cpu.a;
    cpu.set_flag(CpuStatus::Zero, operand & a == 0);
    cpu.set_flag(CpuStatus::Negative, operand & 0b10000000 != 0);
    cpu.set_flag(CpuStatus::Overflow, operand & 0b01000000 != 0);
    Ok(())
}

// No OPeration; the wider encodings still perform their operand read
fn nop(cpu: &mut Cpu, mode: AddressMode) -> (r: Result<(), EmuError>)
    requires
        old(cpu).wf(),
        mode != AddressMode::Offset,
    ensures
        final(cpu).wf(),
        spec_only_bus_errors(r),
        final(cpu).a == old(cpu).a,
        final(cpu).x == old(cpu).x,
        final(cpu).y == old(cpu).y,
        final(cpu).sp == old(cpu).sp,
        final(cpu).p == old(cpu).p,
        mode == AddressMode::Implied ==> final(cpu).pc == old(cpu).pc && final(cpu).bus.cycles
            == old(cpu).bus.cycles.wrapping_add(1),
{
    if !matches!(mode, AddressMode::Implied) {
        match read_operand(cpu, mode) {
            Ok(_) => {},
            Err(e) => {
                return Err(e);
            },
        }
    }
    cpu.bus.tick();
    Ok(())
}

// SEt Carry
fn sec(cpu: &mut Cpu, _mode: AddressMode) -> (r: Result<(), EmuError>)
    requires
        old(cpu).wf(),
    ensures
        final(cpu).wf(),
        r is Ok,
        final(cpu).p == spec_set_flag(old(cpu).p, CpuStatus::Carry, true),
        final(cpu).a == old(cpu).a,
        final(cpu).x == old(cpu).x,
        final(cpu).y == old(cpu).y,
        final(cpu).sp == old(cpu).sp,
        final(cpu).pc == old(cpu).pc,
        final(cpu).bus.cycles == old(cpu).bus.cycles.wrapping_add(1),
        final(cpu).bus.ram == old(cpu).bus.ram,
{
    cpu.set_flag(CpuStatus::Carry, true);
    cpu.bus.tick();
    Ok(())
}

// CLear Carry
fn clc(cpu: &mut Cpu, _mode: AddressMode) -> (r: Result<(), EmuError>)
    requires
        old(cpu).wf(),
    ensures
        final(cpu).wf(),
        r is Ok,
        final(cpu).p == spec_set_flag(old(cpu).p, CpuStatus::Carry, false),
        final(cpu).a == old(cpu).a,
        final(cpu).x == old(cpu).x,
        final(cpu).y == old(cpu).y,
        final(cpu).sp == old(cpu).sp,
        final(cpu).pc == old(cpu).pc,
        final(cpu).bus.cycles == old(cpu).bus.cycles.wrapping_add(1),
        final(cpu).bus.ram == old(cpu).bus.ram,
{
    cpu.set_flag(CpuStatus::Carry, false);
    cpu.bus.tick();
    Ok(())
}

// SEt Interrupt disable
fn sei(cpu: &mut Cpu, _mode: AddressMode) -> (r: Result<(), EmuError>)
    requires
        old(cpu).wf(),
    ensures
        final(cpu).wf(),
        r is Ok,
        final(cpu).p == spec_set_flag(old(cpu).p, CpuStatus::InterruptDisable, true),
        final(cpu).a == old(cpu).a,
        final(cpu).x == old(cpu).x,
        final(cpu).y == old(cpu).y,
        final(cpu).sp == old(cpu).sp,
        final(cpu).pc == old(cpu).pc,
        final(cpu).bus.cycles == old(cpu).bus.cycles.wrapping_add(1),
        final(cpu).bus.ram == old(cpu).bus.ram,
{
    cpu.set_flag(CpuStatus::InterruptDisable, true);
    cpu.bus.tick();
    Ok(())
}

// CLear Interrupt disable
pub fn cli(cpu: &mut Cpu, _mode: AddressMode) -> (r: Result<(), EmuError>)
    requires
        old(cpu).wf(),
    ensures
        final(cpu).wf(),
        r is Ok,
        final(cpu).p == spec_set_flag(old(cpu).p, CpuStatus::InterruptDisable, false),
        final(cpu).a == old(cpu).a,
        final(cpu).x == old(cpu).x,
        final(cpu).y == old(cpu).y,
        final(cpu).sp == old(cpu).sp,
        final(cpu).pc == old(cpu).pc,
        final(cpu).bus.cycles == old(cpu).bus.cycles.wrapping_add(1),
        final(cpu).bus.ram == old(cpu).bus.ram,
{
    cpu.set_flag(CpuStatus::InterruptDisable, false);
    cpu.bus.tick();
    Ok(())
}

// CLear oVerflow
fn clv(cpu: &mut Cpu, _mode: AddressMode) -> (r: Result<(), EmuError>)
    requires
        old(cpu).wf(),
    ensures
        final(cpu).wf(),
        r is Ok,
        final(cpu).p == spec_set_flag(old(cpu).p, CpuStatus::Overflow, false),
        final(cpu).a == old(cpu).a,
        final(cpu).x == old(cpu).x,
        final(cpu).y == old(cpu).y,
        final(cpu).sp == old(cpu).sp,
        final(cpu).pc == old(cpu).pc,
        final(cpu).bus.cycles == old(cpu).bus.cycles.wrapping_add(1),
        final(cpu).bus.ram == old(cpu).bus.ram,
{
    cpu.set_flag(CpuStatus::Overflow, false);
    cpu.bus.tick();
    Ok(())
}

// SEt Decimal
fn sed(cpu: &mut Cpu, _mode: AddressMode) -> (r: Result<(), EmuError>)
    requires
        old(cpu).wf(),
    ensures
        final(cpu).wf(),
        r is Ok,
        final(cpu).p == spec_set_flag(old(cpu).p, CpuStatus::Decimal, true),
        final(cpu).a == old(cpu).a,
        final(cpu).x == old(cpu).x,
        final(cpu).y == old(cpu).y,
        final(cpu).sp == old(cpu).sp,
        final(cpu).pc == old(cpu).pc,
        final(cpu).bus.cycles == old(cpu).bus.cycles.wrapping_add(1),
        final(cpu).bus.ram == old(cpu).bus.ram,
{
    cpu.set_flag(CpuStatus::Decimal, true);
    cpu.bus.tick();
    Ok(())
}

// CLear Decimal
fn cld(cpu: &mut Cpu, _mode: AddressMode) -> (r: Result<(), EmuError>)
    requires
        old(cpu).wf(),
    ensures
        final(cpu).wf(),
        r is Ok,
        final(cpu).p == spec_set_flag(old(cpu).p, CpuStatus::Decimal, false),
        final(cpu).a == old(cpu).a,
        final(cpu).x == old(cpu).x,
        final(cpu).y == old(cpu).y,
        final(cpu).sp == old(cpu).sp,
        final(cpu).pc == old(cpu).pc,
        final(cpu).bus.cycles == old(cpu).bus.cycles.wrapping_add(1),
        final(cpu).bus.ram == old(cpu).bus.ram,
{
    cpu.set_flag(CpuStatus::Decimal, false);
    cpu.bus.tick();
    Ok(())
}

// BReaK: like an IRQ, but the pushed address skips the padding byte and the
// pushed status byte carries the break bit
fn brk(cpu: &mut Cpu, _mode: AddressMode) -> (r: Result<(), EmuError>)
    requires
        old(cpu).wf(),
    ensures
        final(cpu).wf(),
        r is Ok,
        final(cpu).sp == old(cpu).sp.wrapping_sub(3),
        final(cpu).p == spec_set_flag(old(cpu).p, CpuStatus::InterruptDisable, true),
        final(cpu).a == old(cpu).a,
        final(cpu).x == old(cpu).x,
        final(cpu).y == old(cpu).y,
        final(cpu).bus.ram@ == old(cpu).bus.ram@.update(
            STACK_PAGE + old(cpu).sp,
            (old(cpu).pc.wrapping_add(1) >> 8) as u8,
        ).update(
            STACK_PAGE + old(cpu).sp.wrapping_sub(1),
            (old(cpu).pc.wrapping_add(1) & 0xFF) as u8,
        ).update(STACK_PAGE + old(cpu).sp.wrapping_sub(2), old(cpu).p | 0x30),
        final(cpu).pc == spec_peek16(old(cpu).bus, 0xFFFE),
        final(cpu).bus.cycles == old(cpu).bus.cycles.wrapping_add(1).wrapping_add(1).wrapping_add(
            1,
        ).wrapping_add(1).wrapping_add(1),
{
    let return_address = cpu.pc.wrapping_add(1);
    cpu.push_stack_16(return_address);
    let pushed = cpu.p | 0b110000;
    cpu.push_stack(pushed);
    cpu.set_flag(CpuStatus::InterruptDisable, true);
    proof {
        let lo = bus_peek(old(cpu).bus, 0xFFFE);
        let hi = bus_peek(old(cpu).bus, 0xFFFFu16);
        assert(((lo as u16) | ((hi as u16) << 8)) == lo as u16 + (hi as u16) * 0x100)
            by (bit_vector);
    }
    let word = match cpu.bus.read_word(0xFFFE) {
        Ok(v) => v,
        Err(_) => {
            proof {
                assert(false);
            }
            0
        },
    };
    cpu.pc = word;
    Ok(())
}

fn dcp(cpu: &mut Cpu, mode: AddressMode) -> (r: Result<(), EmuError>)
    requires
        old(cpu).wf(),
        mode != AddressMode::Implied && mode != AddressMode::Offset && mode
            != AddressMode::Immediate,
    ensures
        final(cpu).wf(),
        spec_only_bus_errors(r),
        final(cpu).a == old(cpu).a,
        final(cpu).x == old(cpu).x,
        final(cpu).y == old(cpu).y,
        final(cpu).sp == old(cpu).sp,
{
    let target = match cpu.operand_address(mode) {
        Ok(v) => v,
        Err(e) => {
            return Err(e);
        },
    };
    let address = target.address();
    let operand = match cpu.bus.read(address) {
        Ok(v) => v,
        Err(e) => {
            return Err(e);
        },
    };
    let result = operand.wrapping_sub(1);
    match cpu.bus.write(address, result) {
        Ok(()) => {},
        Err(e) => {
            return Err(e);
        },
    }

    set_zero_and_negative(cpu, result);

    let a = cpu.a;
    compare(cpu, a, result);
    Ok(())
}

/// Every encoding without an implementation reports itself together with
/// the address it was fetched from.
pub fn invalid(cpu: &mut Cpu, code: u8) -> (r: Result<(), EmuError>)
    ensures
        r == Err::<(), EmuError>(EmuError::InvalidOpcode(code, old(cpu).pc.wrapping_sub(1))),
        *final(cpu) == *old(cpu),
{
    Err(EmuError::InvalidOpcode(code, cpu.pc.wrapping_sub(1)))
}

// Undocumented operations

// Load Accumulator and X
fn lax(cpu: &mut Cpu, mode: AddressMode) -> (r: Result<(), EmuError>)
    requires
        old(cpu).wf(),
        mode != AddressMode::Implied && mode != AddressMode::Offset,
    ensures
        final(cpu).wf(),
        spec_only_bus_errors(r),
        r is Ok ==> final(cpu).x == final(cpu).a,
        final(cpu).y == old(cpu).y,
        final(cpu).sp == old(cpu).sp,
{
    match lda(cpu, mode) {
        Ok(()) => {},
        Err(e) => {
            return Err(e);
        },
    }
    cpu.x = cpu.a;
    Ok(())
}

// Store AccumulatorANDX
fn sax(cpu: &mut Cpu, mode: AddressMode) -> (r: Result<(), EmuError>)
    requires
        old(cpu).wf(),
        mode != AddressMode::Implied && mode != AddressMode::Offset,
    ensures
        final(cpu).wf(),
        spec_only_bus_errors(r),
        final(cpu).a == old(cpu).a,
        final(cpu).x == old(cpu).x,
        final(cpu).y == old(cpu).y,
        final(cpu).sp == old(cpu).sp,
        final(cpu).p == old(cpu).p,
{
    let target = match cpu.operand_address(mode) {
        Ok(v) => v,
        Err(e) => {
            return Err(e);
        },
    };
    let address = target.address();
    let value = cpu.a & cpu.x;
    match cpu.bus.write(address, value) {
        Ok(()) => Ok(()),
        Err(e) => Err(e),
    }
}

// The alternate SBC encoding behaves as SBC plus an implied NOP cycle
fn sbc_nop(cpu: &mut Cpu, mode: AddressMode) -> (r: Result<(), EmuError>)
    requires
        old(cpu).wf(),
        mode != AddressMode::Implied && mode != AddressMode::Offset,
    ensures
        final(cpu).wf(),
        spec_only_bus_errors(r),
        final(cpu).x == old(cpu).x,
        final(cpu).y == old(cpu).y,
        final(cpu).sp == old(cpu).sp,
{
    match sbc(cpu, mode) {
        Ok(()) => {},
        Err(e) => {
            return Err(e);
        },
    }
    nop(cpu, AddressMode::Implied)
}

// INC then SBC
fn isc(cpu: &mut Cpu, mode: AddressMode) -> (r: Result<(), EmuError>)
    requires
        old(cpu).wf(),
        mode != AddressMode::Implied && mode != AddressMode::Offset && mode
            != AddressMode::Immediate,
    ensures
        final(cpu).wf(),
        spec_only_bus_errors(r),
        final(cpu).x == old(cpu).x,
        final(cpu).y == old(cpu).y,
        final(cpu).sp == old(cpu).sp,
{
    let value = match do_inc(cpu, mode) {
        Ok(v) => v,
        Err(e) => {
            return Err(e);
        },
    };
    sbc_with(cpu, value);
    Ok(())
}

// ASL then ORA
fn slo(cpu: &mut Cpu, mode: AddressMode) -> (r: Result<(), EmuError>)
    requires
        old(cpu).wf(),
        mode != AddressMode::Implied && mode != AddressMode::Offset && mode
            != AddressMode::Immediate,
    ensures
        final(cpu).wf(),
        spec_only_bus_errors(r),
        final(cpu).x == old(cpu).x,
        final(cpu).y == old(cpu).y,
        final(cpu).sp == old(cpu).sp,
{
    let shifted = match do_asl(cpu, mode) {
        Ok(v) => v,
        Err(e) => {
            return Err(e);
        },
    };
    let value = cpu.a | shifted;

    set_zero_and_negative(cpu, value);
    cpu.a = value;
    Ok(())
}

// ROL then AND
fn rla(cpu: &mut Cpu, mode: AddressMode) -> (r: Result<(), EmuError>)
    requires
        old(cpu).wf(),
        mode != AddressMode::Implied && mode != AddressMode::Offset && mode
            != AddressMode::Immediate,
    ensures
        final(cpu).wf(),
        spec_only_bus_errors(r),
        final(cpu).x == old(cpu).x,
        final(cpu).y == old(cpu).y,
        final(cpu).sp == old(cpu).sp,
{
    let rotated = match do_rol(cpu, mode) {
        Ok(v) => v,
        Err(e) => {
            return Err(e);
        },
    };
    let value = rotated & cpu.a;
    set_zero_and_negative(cpu, value);
    cpu.a = value;
    Ok(())
}

// LSR then EOR
fn sre(cpu: &mut Cpu, mode: AddressMode) -> (r: Result<(), EmuError>)
    requires
        old(cpu).wf(),
        mode != AddressMode::Implied && mode != AddressMode::Offset && mode
            != AddressMode::Immediate,
    ensures
        final(cpu).wf(),
        spec_only_bus_errors(r),
        final(cpu).x == old(cpu).x,
        final(cpu).y == old(cpu).y,
        final(cpu).sp == old(cpu).sp,
{
    let shifted = match do_lsr(cpu, mode) {
        Ok(v) => v,
        Err(e) => {
            return Err(e);
        },
    };
    let value = cpu.a ^ shifted;
    set_zero_and_negative(cpu, value);
    cpu.a = value;
    Ok(())
}

// ROR then ADC
fn rra(cpu: &mut Cpu, mode: AddressMode) -> (r: Result<(), EmuError>)
    requires
        old(cpu).wf(),
        mode != AddressMode::Implied && mode != AddressMode::Offset && mode
            != AddressMode::Immediate,
    ensures
        final(cpu).wf(),
        spec_only_bus_errors(r),
        final(cpu).x == old(cpu).x,
        final(cpu).y == old(cpu).y,
        final(cpu).sp == old(cpu).sp,
{
    let operand = match do_ror(cpu, mode) {
        Ok(v) => v,
        Err(e) => {
            return Err(e);
        },
    };
    adc_with(cpu, operand);
    Ok(())
}

/// The effect of a conditional branch: an untaken branch only steps over
/// the offset byte; a taken branch pays one extra cycle, and one more when
/// the target lies in a different page than the instruction that follows.
pub open spec fn spec_branch_effect(pre: Cpu, post: Cpu, taken: bool) -> bool {
    &&& post.a == pre.a
    &&& post.x == pre.x
    &&& post.y == pre.y
    &&& post.sp == pre.sp
    &&& post.p == pre.p
    &&& post.bus.ram == pre.bus.ram
    &&& post.bus.cartridge == pre.bus.cartridge
    &&& (!taken ==> post.pc == pre.pc.wrapping_add(1) && post.bus.cycles
        == pre.bus.cycles.wrapping_add(1))
    &&& (taken ==> post.bus.cycles == (if (post.pc & 0xFF00) != (pre.pc.wrapping_add(1) & 0xFF00) {
        pre.bus.cycles.wrapping_add(1).wrapping_add(1).wrapping_add(1)
    } else {
        pre.bus.cycles.wrapping_add(1).wrapping_add(1)
    }))
    &&& (taken && !(0x2000 <= pre.pc <= 0x3FFF) ==> post.pc == pre.pc.wrapping_add(
        1,
    ).wrapping_add(spec_sign_extend(bus_peek(pre.bus, pre.pc))))
}

/// Read the branch offset and, when the condition held, retarget PC: a
/// taken branch costs one extra cycle, two when it crosses a page.
pub fn branch(cpu: &mut Cpu, success: bool) -> (r: Result<(), EmuError>)
    requires
        old(cpu).wf(),
    ensures
        final(cpu).wf(),
        (r is Err) <==> (0x4018 <= old(cpu).pc <= 0x401F),
        r matches Err(e) ==> e is DisabledRegion,
        r is Ok ==> spec_branch_effect(*old(cpu), *final(cpu), success),
{
    // Pull the offset as a signed number
    let offset = match cpu.next_byte() {
        Ok(v) => v,
        Err(e) => {
            return Err(e);
        },
    };

    if success {
        cpu.bus.tick();
        let extended: u16 = if offset < 0x80 {
            offset as u16
        } else {
            (offset as u16) + 0xFF00
        };
        let target = cpu.pc.wrapping_add(extended);
        if (target & 0xFF00) != (cpu.pc & 0xFF00) {
            cpu.bus.tick();
        }
        cpu.pc = target;
    }
    Ok(())
}

/// Fetch the operand value: immediates carry it, every other mode reads it
/// from the decoded address.
pub fn read_operand(cpu: &mut Cpu, mode: AddressMode) -> (r: Result<u8, EmuError>)
    requires
        old(cpu).wf(),
        mode != AddressMode::Implied && mode != AddressMode::Offset,
    ensures
        final(cpu).wf(),
        r matches Err(e) ==> e is DisabledRegion,
        (mode == AddressMode::Immediate || mode == AddressMode::ZeroPage || mode
            == AddressMode::ZeroPageIndexedX || mode == AddressMode::ZeroPageIndexedY) ==> ((
        r is Err) <==> (0x4018 <= old(cpu).pc <= 0x401F)),
        mode == AddressMode::Immediate && !(0x2000 <= old(cpu).pc <= 0x3FFF) && r is Ok ==> r
            == Ok::<u8, EmuError>(bus_peek(old(cpu).bus, old(cpu).pc)),
        mode == AddressMode::ZeroPage && spec_zp_stable(*old(cpu)) ==> r == Ok::<u8, EmuError>(
            bus_peek(old(cpu).bus, spec_zp_target(*old(cpu))),
        ),
        mode == AddressMode::ZeroPageIndexedX && spec_zp_stable(*old(cpu)) ==> r == Ok::<
            u8,
            EmuError,
        >(
            bus_peek(
                old(cpu).bus,
                ((bus_peek(old(cpu).bus, old(cpu).pc) + old(cpu).x) % 256) as u16,
            ),
        ),
        mode == AddressMode::ZeroPageIndexedY && spec_zp_stable(*old(cpu)) ==> r == Ok::<
            u8,
            EmuError,
        >(
            bus_peek(
                old(cpu).bus,
                ((bus_peek(old(cpu).bus, old(cpu).pc) + old(cpu).y) % 256) as u16,
            ),
        ),
        mode == AddressMode::Absolute && spec_abs_stable(*old(cpu)) ==> r == Ok::<u8, EmuError>(
            bus_peek(old(cpu).bus, spec_abs_target(*old(cpu))),
        ),
        spec_operand_stable(mode, *old(cpu)) ==> r == Ok::<u8, EmuError>(
            spec_stable_operand(mode, *old(cpu)),
        ),
        final(cpu).a == old(cpu).a,
        final(cpu).x == old(cpu).x,
        final(cpu).y == old(cpu).y,
        final(cpu).sp == old(cpu).sp,
        final(cpu).p == old(cpu).p,
        final(cpu).bus.ram == old(cpu).bus.ram,
        final(cpu).bus.cartridge == old(cpu).bus.cartridge,
{
    let operand = match cpu.operand_address(mode) {
        Ok(v) => v,
        Err(e) => {
            return Err(e);
        },
    };
    match operand {
        AddressModeValue::Absolute(x) => {
            match cpu.bus.read(x) {
                Ok(v) => Ok(v),
                Err(e) => Err(e),
            }
        },
        AddressModeValue::Immediate(x) => Ok(x),
        AddressModeValue::Relative(_) => {
            proof {
                assert(false);
            }
            Ok(0)
        },
    }
}

/// Track a value in the zero and negative flags.
pub fn set_zero_and_negative(cpu: &mut Cpu, value: u8)
    ensures
        final(cpu).p == spec_znp(old(cpu).p, value),
        final(cpu).a == old(cpu).a,
        final(cpu).x == old(cpu).x,
        final(cpu).y == old(cpu).y,
        final(cpu).sp == old(cpu).sp,
        final(cpu).pc == old(cpu).pc,
        final(cpu).bus == old(cpu).bus,
        final(cpu).cyc == old(cpu).cyc,
{
    cpu.set_flag(CpuStatus::Zero, value == 0);
    cpu.set_flag(CpuStatus::Negative, value >> 7 != 0);
}

/// Track an addition's 16-bit result in the carry and overflow flags.
pub fn set_carry_and_overflow(cpu: &mut Cpu, left: u8, right: u8, result: u16)
    ensures
        final(cpu).p == spec_carry_overflow(old(cpu).p, left, right, result),
        final(cpu).a == old(cpu).a,
        final(cpu).x == old(cpu).x,
        final(cpu).y == old(cpu).y,
        final(cpu).sp == old(cpu).sp,
        final(cpu).pc == old(cpu).pc,
        final(cpu).bus == old(cpu).bus,
        final(cpu).cyc == old(cpu).cyc,
{
    cpu.set_flag(CpuStatus::Carry, result > 0xFF);
    let r = result as u8;
    cpu.set_flag(CpuStatus::Overflow, (left ^ r) & (right ^ r) & 0x80 != 0);
}

/// Adding a memory byte with the carry flag set, then subtracting the same
/// byte, restores the accumulator as long as the addition does not reach
/// the carry boundary. With the carry clear, or when the sum overflows, the
/// round trip lands one off.
pub proof fn lemma_adc_sbc_round_trip(a: u8, m: u8, p: u8)
    requires
        p & 1 != 0,
        a + m + 1 <= 0xFF,
    ensures
        ({
            let r1 = (spec_adc_sum(a, m, p) % 256) as u8;
            let p1 = spec_carry_overflow(spec_znp(p, r1), a, m, spec_adc_sum(a, m, p) as u16);
            let r2 = (spec_adc_sum(r1, !m, p1) % 256) as u8;
            r2 == a
        }),
{
    let sum1 = spec_adc_sum(a, m, p);
    assert(sum1 == a + m + 1);
    let r1 = (sum1 % 256) as u8;
    assert(r1 == a + m + 1);
    let p1 = spec_carry_overflow(spec_znp(p, r1), a, m, sum1 as u16);
    lemma_carry_overflow_bits(spec_znp(p, r1), a, m, sum1 as u16);
    assert(p1 & 1 == 0);
    assert(!m == 255 - m) by (bit_vector);
    let sum2 = spec_adc_sum(r1, !m, p1);
    assert(sum2 == a + 256);
    assert(sum2 % 256 == a);
}

} // verus!
