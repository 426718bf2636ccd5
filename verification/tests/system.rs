use nes_core::cartridge::rom::NESRom;
use nes_core::hardware::bus::Bus;
use nes_core::hardware::cpu::Cpu;
use nes_core::hardware::opcode::{adc_with, sbc_with};
use nes_core::ppu::palette::system_palette;

fn test_rom() -> Box<NESRom> {
    let mut bytes = vec![0x4E, 0x45, 0x53, 0x1A, 1, 1, 0, 0];
    bytes.resize(16, 0);
    let payload = 0x4000 + 0x2000;
    for i in 0..payload {
        bytes.push((i % 251) as u8);
    }
    Box::new(NESRom::new(&bytes).unwrap())
}

fn test_cpu_with_program(program: &[u8]) -> Cpu {
    let mut bytes = vec![0x4E, 0x45, 0x53, 0x1A, 1, 1, 0, 0];
    bytes.resize(16, 0);
    let mut payload = vec![0u8; 0x4000 + 0x2000];
    for (i, b) in program.iter().enumerate() {
        payload[i] = *b;
    }
    bytes.extend_from_slice(&payload);
    let mut cpu = Cpu::new(Box::new(NESRom::new(&bytes).unwrap()));
    // the program sits at the start of the ROM page, mirrored at $C000
    cpu.pc = 0xC000;
    cpu
}

#[test]
fn bus_ram_round_trip() {
    let mut bus = Bus::new(test_rom());

    bus.write(0x1234, 0xff).unwrap();
    let result = bus.read(0x1234).unwrap();

    assert_eq!(result, 0xff);
}

#[test]
fn reads_and_writes_mirrors_in_ram() {
    let mut bus = Bus::new(test_rom());

    bus.write(0x0000, 0xff).unwrap();
    assert_eq!(bus.read(0x0800).unwrap(), 0xff);
    assert_eq!(bus.read(0x1000).unwrap(), 0xff);
    assert_eq!(bus.read(0x1800).unwrap(), 0xff);
}

#[test]
fn disabled_region_read_fails() {
    let mut bus = Bus::new(test_rom());
    assert!(bus.read(0x4018).is_err());
    assert!(bus.write(0x401F, 1).is_err());
}

#[test]
fn ppu_status_write_is_refused() {
    let mut bus = Bus::new(test_rom());
    assert!(bus.write(0x2002, 1).is_err());
}

#[test]
fn nrom_128_mirrors_the_program_page() {
    let mut bus = Bus::new(test_rom());
    for k in [0u16, 1, 0x1000, 0x3FFF] {
        let low = bus.read(0x8000 + k).unwrap();
        let high = bus.read(0xC000 + k).unwrap();
        assert_eq!(low, high);
    }
}

#[test]
fn three_ppu_dots_per_cpu_cycle() {
    let mut bus = Bus::new(test_rom());
    for _ in 0..1000 {
        bus.tick();
    }
    assert_eq!(bus.cycles, 1000);
    assert_eq!(bus.ppu.renderer.dots, 3000);
}

#[test]
fn vblank_flag_sets_at_scanline_241_and_clears_on_read() {
    let mut bus = Bus::new(test_rom());
    // enable NMI generation
    bus.write(0x2000, 0x80).unwrap();
    // run until vblank has just begun; a $2002 read beforehand cleared the
    // power-on flag
    bus.read(0x2002).unwrap();
    while !(bus.ppu.renderer.scanline == 241 && bus.ppu.renderer.cycle >= 2) {
        bus.tick();
    }
    let first = bus.read(0x2002).unwrap();
    assert_eq!(first & 0x80, 0x80);
    let second = bus.read(0x2002).unwrap();
    assert_eq!(second & 0x80, 0x00);
    // the NMI latch became ready within the surrounding bus cycles
    assert!(bus.nmi.ready());
}

#[test]
fn oam_dma_copies_a_page_and_stalls_513_cycles() {
    let mut bus = Bus::new(test_rom());
    for i in 0..256u16 {
        bus.write(0x0300 + i, i as u8).unwrap();
    }
    let before = bus.cycles;
    bus.write(0x4014, 0x03).unwrap();
    assert_eq!(bus.cycles, before + 513);
    for i in 0..256usize {
        assert_eq!(bus.ppu.renderer.oam_data[i], i as u8);
    }
}

#[test]
fn oam_address_wraps_after_256_writes() {
    let mut bus = Bus::new(test_rom());
    bus.write(0x2003, 0xFF).unwrap();
    assert_eq!(bus.ppu.oam_addr, 0xFF);
    bus.write(0x2004, 0x42).unwrap();
    assert_eq!(bus.ppu.oam_addr, 0x00);
    assert_eq!(bus.ppu.renderer.oam_data[0xFF], 0x42);
}

#[test]
fn palette_write_reads_back_through_the_mirror() {
    let mut bus = Bus::new(test_rom());
    // point the VRAM address at $3F00 and write a color
    bus.write(0x2006, 0x3F).unwrap();
    bus.write(0x2006, 0x00).unwrap();
    bus.write(0x2007, 0x21).unwrap();
    // read it back through the $3F10 alias
    bus.write(0x2006, 0x3F).unwrap();
    bus.write(0x2006, 0x10).unwrap();
    let value = bus.read(0x2007).unwrap();
    assert_eq!(value, 0x21);
}

#[test]
fn buffered_vram_read_lags_one_access() {
    let mut bus = Bus::new(test_rom());
    // write $55 to $2100, then read it back through the buffered port
    bus.write(0x2006, 0x21).unwrap();
    bus.write(0x2006, 0x00).unwrap();
    bus.write(0x2007, 0x55).unwrap();
    bus.write(0x2006, 0x21).unwrap();
    bus.write(0x2006, 0x00).unwrap();
    let stale = bus.read(0x2007).unwrap();
    let fresh = bus.read(0x2007).unwrap();
    assert_eq!(stale, 0x00);
    assert_eq!(fresh, 0x55);
}

#[test]
fn stack_push_wraps_at_the_bottom_of_the_page() {
    let mut cpu = Cpu::new(test_rom());
    cpu.sp = 0;
    cpu.push_stack(0xAB);
    assert_eq!(cpu.sp, 0xFF);
    assert_eq!(cpu.bus.read(0x0100).unwrap(), 0xAB);
}

#[test]
fn reset_loads_the_reset_vector() {
    let mut bytes = vec![0x4E, 0x45, 0x53, 0x1A, 1, 1, 0, 0];
    bytes.resize(16, 0);
    let mut payload = vec![0u8; 0x4000 + 0x2000];
    // reset vector at $FFFC/$FFFD -> $C123
    payload[0x3FFC] = 0x23;
    payload[0x3FFD] = 0xC1;
    bytes.extend_from_slice(&payload);
    let mut cpu = Cpu::new(Box::new(NESRom::new(&bytes).unwrap()));
    cpu.reset();
    assert_eq!(cpu.pc, 0xC123);
    assert_eq!(cpu.sp, 0xFD);
    assert_eq!(cpu.p, 0x24);
}

#[test]
fn indirect_jmp_wraps_inside_the_pointer_page() {
    // JMP ($02FF): the high byte comes from $0200, not $0300
    let mut cpu = test_cpu_with_program(&[0x6C, 0xFF, 0x02]);
    cpu.bus.write(0x02FF, 0x34).unwrap();
    cpu.bus.write(0x0200, 0x12).unwrap();
    cpu.bus.write(0x0300, 0x99).unwrap();
    cpu.execute_next_opcode().unwrap();
    assert_eq!(cpu.pc, 0x1234);
}

#[test]
fn branch_taken_costs_one_extra_cycle() {
    // BNE +$10 with the zero flag clear: same page, so 2 cycles in all
    let mut cpu = test_cpu_with_program(&[0xD0, 0x10]);
    let before = cpu.bus.cycles;
    cpu.execute_next_opcode().unwrap();
    assert_eq!(cpu.pc, 0xC012);
    assert_eq!(cpu.bus.cycles, before + 2);
}

#[test]
fn branch_across_a_page_costs_two_extra_cycles() {
    // BNE +$7F from $C0F0: the target $C171 is on the next page
    let mut cpu = test_cpu_with_program(&[]);
    cpu.bus.write(0x0000, 0xD0).unwrap();
    cpu.bus.write(0x0001, 0x7F).unwrap();
    cpu.pc = 0x0000;
    let before = cpu.bus.cycles;
    cpu.execute_next_opcode().unwrap();
    assert_eq!(cpu.pc, 0x0081);
    assert_eq!(cpu.bus.cycles, before + 2);

    let mut far = test_cpu_with_program(&[]);
    far.bus.write(0x00F0, 0xD0).unwrap();
    far.bus.write(0x00F1, 0x7F).unwrap();
    far.pc = 0x00F0;
    let before = far.bus.cycles;
    far.execute_next_opcode().unwrap();
    assert_eq!(far.pc, 0x0171);
    assert_eq!(far.bus.cycles, before + 3);
}

#[test]
fn branch_not_taken_only_steps_past_the_offset() {
    // BEQ with the zero flag clear
    let mut cpu = test_cpu_with_program(&[0xF0, 0x10]);
    let before = cpu.bus.cycles;
    cpu.execute_next_opcode().unwrap();
    assert_eq!(cpu.pc, 0xC002);
    assert_eq!(cpu.bus.cycles, before + 1);
}

#[test]
fn lda_immediate_tracks_zero_and_negative() {
    let mut cpu = test_cpu_with_program(&[0xA9, 0x00, 0xA9, 0x80]);
    cpu.execute_next_opcode().unwrap();
    assert_eq!(cpu.a, 0);
    assert!(cpu.get_flag(nes_core::hardware::cpu::CpuStatus::Zero));
    cpu.execute_next_opcode().unwrap();
    assert_eq!(cpu.a, 0x80);
    assert!(cpu.get_flag(nes_core::hardware::cpu::CpuStatus::Negative));
    assert!(!cpu.get_flag(nes_core::hardware::cpu::CpuStatus::Zero));
}

#[test]
fn invalid_opcode_reports_its_site() {
    let mut cpu = test_cpu_with_program(&[0x02]);
    match cpu.execute_next_opcode() {
        Err(nes_core::errors::EmuError::InvalidOpcode(0x02, 0xC000)) => {},
        other => panic!("unexpected result: {:?}", other),
    }
}

#[test]
fn adc_then_sbc_round_trips_with_carry_set() {
    let mut cpu = Cpu::new(test_rom());
    cpu.a = 10;
    cpu.p = 0x01;
    adc_with(&mut cpu, 20);
    assert_eq!(cpu.a, 31);
    sbc_with(&mut cpu, 20);
    assert_eq!(cpu.a, 10);
}

#[test]
fn adc_sets_carry_and_overflow() {
    let mut cpu = Cpu::new(test_rom());
    cpu.a = 0x80;
    cpu.p = 0x00;
    adc_with(&mut cpu, 0x80);
    assert_eq!(cpu.a, 0x00);
    assert!(cpu.get_flag(nes_core::hardware::cpu::CpuStatus::Carry));
    assert!(cpu.get_flag(nes_core::hardware::cpu::CpuStatus::Overflow));
    assert!(cpu.get_flag(nes_core::hardware::cpu::CpuStatus::Zero));
}

#[test]
fn joypad_register_serializes_through_the_bus() {
    let mut bus = Bus::new(test_rom());
    bus.joypad1.buttons.set(0b1001_1001);
    bus.write(0x4016, 1).unwrap();
    bus.write(0x4016, 0).unwrap();
    let expected = [1, 0, 0, 1, 1, 0, 0, 1, 1, 1];
    for bit in expected {
        assert_eq!(bus.read(0x4016).unwrap(), bit);
    }
}

#[test]
fn system_palette_starts_with_grey_and_blue() {
    assert_eq!(system_palette(0x00), (0x80, 0x80, 0x80));
    assert_eq!(system_palette(0x01), (0x00, 0x3D, 0xA6));
    // bits 6 and 7 of the index are ignored
    assert_eq!(system_palette(0x41), system_palette(0x01));
}

#[test]
fn oam_dma_streams_a_rom_page() {
    let mut bus = Bus::new(test_rom());
    let expected: Vec<u8> = (0..256u16).map(|i| bus.read(0xC000 + i).unwrap()).collect();
    let before = bus.cycles;
    bus.write(0x4014, 0xC0).unwrap();
    assert_eq!(bus.cycles, before + 513);
    for i in 0..256usize {
        assert_eq!(bus.ppu.renderer.oam_data[i], expected[i]);
    }
}

#[test]
fn oam_dma_refuses_the_disabled_page() {
    let mut bus = Bus::new(test_rom());
    assert!(bus.write(0x4014, 0x40).is_err());
}

#[test]
fn operand_fetch_in_the_disabled_region_is_fatal() {
    let mut cpu = test_cpu_with_program(&[]);
    // LDA absolute with its operand bytes inside $4018-$401F
    cpu.bus.write(0x0000, 0xAD).unwrap();
    cpu.pc = 0x0000;
    cpu.bus.write(0x0001, 0x18).unwrap();
    cpu.bus.write(0x0002, 0x40).unwrap();
    match cpu.execute_next_opcode() {
        Err(nes_core::errors::EmuError::DisabledRegion(0x4018)) => {},
        other => panic!("unexpected result: {:?}", other),
    }
}

#[test]
fn cli_clears_the_interrupt_disable_flag() {
    let mut cpu = test_cpu_with_program(&[0x58]);
    assert!(cpu.get_flag(nes_core::hardware::cpu::CpuStatus::InterruptDisable));
    cpu.execute_next_opcode().unwrap();
    assert!(!cpu.get_flag(nes_core::hardware::cpu::CpuStatus::InterruptDisable));
}

#[test]
fn rti_preserves_break_and_push_bits_of_the_live_register() {
    // stack holds P = $FF and a return address; live P = 0
    let mut cpu = test_cpu_with_program(&[0x40]);
    cpu.p = 0x00;
    cpu.sp = 0xF0;
    cpu.bus.write(0x01F1, 0xFF).unwrap();
    cpu.bus.write(0x01F2, 0x34).unwrap();
    cpu.bus.write(0x01F3, 0x12).unwrap();
    cpu.execute_next_opcode().unwrap();
    assert_eq!(cpu.pc, 0x1234);
    // bits 4 and 5 come from the live register, the rest from the stack
    assert_eq!(cpu.p, 0xCF);
}

#[test]
fn prg_ram_round_trips_through_the_bus() {
    let mut bus = Bus::new(test_rom());
    bus.write(0x6010, 0x5C).unwrap();
    assert_eq!(bus.read(0x6010).unwrap(), 0x5C);
}

#[test]
fn absolute_loads_and_stores_round_trip_through_ram() {
    // LDA #$3C; STA $0145; LDA $0145
    let mut cpu = test_cpu_with_program(&[0xA9, 0x3C, 0x8D, 0x45, 0x01, 0xAD, 0x45, 0x01]);
    cpu.execute_next_opcode().unwrap();
    cpu.execute_next_opcode().unwrap();
    assert_eq!(cpu.bus.read(0x0145).unwrap(), 0x3C);
    cpu.a = 0;
    cpu.execute_next_opcode().unwrap();
    assert_eq!(cpu.a, 0x3C);
}
