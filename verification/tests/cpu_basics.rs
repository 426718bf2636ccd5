use nes_core::address_mode::AddressModeValue;
use nes_core::bus::Bus;
use nes_core::cpu::{Cpu, CpuStatus};
use nes_core::opcode::inx;

#[test]
fn address_mode_test_hello() {
    assert_eq!(1, 1)
}

#[test]
fn bus_reads_and_writes_to_ram() {
    let mut bus = Bus::new();

    bus.write(0x1234, 0xff);
    let result = bus.read(0x1234);

    assert_eq!(result, 0xff);
}

#[test]
fn test_set_flag() {
    let mut cpu = Cpu::new();

    cpu.set_flag(CpuStatus::Carry, true);
    assert_eq!(cpu.p, 1);
    cpu.set_flag(CpuStatus::Overflow, true);
    assert_eq!(cpu.p, 0b01000001);
    cpu.set_flag(CpuStatus::Carry, false);
    cpu.set_flag(CpuStatus::Decimal, false);
    assert_eq!(cpu.p, 0b01000000);
}

#[test]
fn cpu_test_get_flag() {
    let mut cpu = Cpu::new();

    cpu.set_flag(CpuStatus::Carry, true);
    assert!(cpu.get_flag(CpuStatus::Carry));
    assert!(!cpu.get_flag(CpuStatus::Overflow));
}

#[test]
fn cpu_test_stack() {
    let mut cpu = Cpu::new();
    let mut bus = Bus::new();

    cpu.push_stack(&mut bus, 1);
    cpu.push_stack(&mut bus, 2);
    cpu.push_stack(&mut bus, 3);
    assert_eq!(cpu.pop_stack(&bus), 3);
    assert_eq!(cpu.pop_stack(&bus), 2);
    assert_eq!(cpu.pop_stack(&bus), 1);
}

#[test]
fn cpu_test_stack_16() {
    let mut cpu = Cpu::new();
    let mut bus = Bus::new();

    cpu.push_stack_16(&mut bus, 0xFFFF);
    cpu.push_stack(&mut bus, 0x12);
    cpu.push_stack_16(&mut bus, 0xFEFE);
    cpu.push_stack_16(&mut bus, 0xFAFA);
    assert_eq!(cpu.pop_stack_16(&bus), 0xFAFA);
    assert_eq!(cpu.pop_stack_16(&bus), 0xFEFE);
    assert_eq!(cpu.pop_stack(&bus), 0x12);
    assert_eq!(cpu.pop_stack_16(&bus), 0xFFFF);
}

#[test]
fn test_inx() {
    let mut cpu = Cpu::new();
    let mut bus = Bus::new();

    inx(&mut cpu, &mut bus, AddressModeValue::Implied);

    assert_eq!(cpu.x, 1);
    assert!(cpu.get_flag(CpuStatus::Zero) == false);
    assert!(cpu.get_flag(CpuStatus::Negative) == false);
}
