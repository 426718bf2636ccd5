//! The system bus: a 16-bit memory map multiplexing internal RAM, the PPU
//! register window, the APU stub, the controller port, OAM DMA and the
//! cartridge, while advancing the PPU by exactly three dots per CPU cycle
//! and counting the interrupt latches down.

use vstd::prelude::*;

use super::apu::Apu;
use super::interrupt::{interrupt_after_tick, Interrupt};
use super::joypad::{joypad_after_read, joypad_read_result, Joypad};
use crate::cartridge::rom::{cart_read_spec, NESRom};
use crate::errors::EmuError;
use crate::mapper::Mapper;
use crate::ppu::renderer::{count_visible, spec_next_cycle, spec_next_scanline, spec_sprite0_hit_rule};
use crate::ppu::{spec_mirror_palette, spec_mirror_vram, spec_ppu_reg, Ppu};

verus! {

pub struct Bus {
    pub ram: Vec<u8>,
    pub cartridge: Box<NESRom>,
    pub ppu: Ppu,
    pub apu: Apu,
    pub cycles: u64,
    pub nmi: Interrupt,
    pub irq: Interrupt,
    pub joypad1: Joypad,
}

/// The status byte after the dot at position (scanline, cycle): vblank rises
/// at (241, 1), the three flags clear at (261, 1), and sprite evaluation at
/// dot 257 of a visible scanline may raise the overflow and sprite-0 hit
/// bits.
pub open spec fn spec_dot_status(
    scanline: int,
    cycle: int,
    ctrl: u8,
    mask: u8,
    oam: Seq<u8>,
    status: u8,
) -> u8 {
    if scanline == 241 && cycle == 1 {
        status | 0x80
    } else if scanline == 261 && cycle == 1 {
        status & 0x1F
    } else if scanline <= 239 && cycle == 257 {
        let h = if ctrl & 0x20 != 0 {
            16int
        } else {
            8int
        };
        let s1 = if count_visible(oam, scanline, h, 64) > 8 {
            status | 0x20
        } else {
            status
        };
        if spec_sprite0_hit_rule(oam, scanline, h, mask) {
            s1 | 0x40
        } else {
            s1
        }
    } else {
        status
    }
}

/// The NMI latch after the dot at position (scanline, cycle): entering
/// vertical blank schedules a one-tick delay when PPUCTRL bit 7 asks for it.
pub open spec fn spec_dot_nmi(scanline: int, cycle: int, ctrl: u8, nmi: Interrupt) -> Interrupt {
    if scanline == 241 && cycle == 1 && ctrl & 0x80 != 0 {
        Interrupt { schedule: Some(1usize) }
    } else {
        nmi
    }
}

/// The (cycle, scanline) position one dot later.
pub open spec fn spec_step_pos(p: (int, int)) -> (int, int) {
    (spec_next_cycle(p.0), spec_next_scanline(p.0, p.1))
}

/// The status byte after the three dots of one bus tick.
pub open spec fn spec_tick3_status(p: (int, int), ctrl: u8, mask: u8, oam: Seq<u8>, status: u8) -> u8 {
    let s1 = spec_dot_status(p.1, p.0, ctrl, mask, oam, status);
    let p1 = spec_step_pos(p);
    let s2 = spec_dot_status(p1.1, p1.0, ctrl, mask, oam, s1);
    let p2 = spec_step_pos(p1);
    spec_dot_status(p2.1, p2.0, ctrl, mask, oam, s2)
}

/// The NMI latch after one bus tick: it first counts down, then each of the
/// three dots may schedule it anew.
pub open spec fn spec_tick3_nmi(p: (int, int), ctrl: u8, nmi: Interrupt) -> Interrupt {
    let n0 = interrupt_after_tick(nmi);
    let n1 = spec_dot_nmi(p.1, p.0, ctrl, n0);
    let p1 = spec_step_pos(p);
    let n2 = spec_dot_nmi(p1.1, p1.0, ctrl, n1);
    let p2 = spec_step_pos(p1);
    spec_dot_nmi(p2.1, p2.0, ctrl, n2)
}

/// Whether one of the three dots of a tick starting at `p` lands on dot 257
/// of a visible scanline, where sprite evaluation runs.
pub open spec fn spec_tick3_evaluates_sprites(p: (int, int)) -> bool {
    let p1 = spec_step_pos(p);
    let p2 = spec_step_pos(p1);
    ||| (p.1 <= 239 && p.0 == 257)
    ||| (p1.1 <= 239 && p1.0 == 257)
    ||| (p2.1 <= 239 && p2.0 == 257)
}

/// The byte the bus hands out at `address`, as a function of the current
/// machine state: RAM is mirrored every 2 KiB, the PPU window decodes as its
/// registers do, the APU stub reads zero, $4016 serializes the controller,
/// and everything from $4020 up belongs to the cartridge. The disabled
/// region $4018-$401F has no value here; reads of it fail.
pub open spec fn bus_peek(b: Bus, address: u16) -> u8 {
    if address <= 0x1FFF {
        b.ram@[(address & 0x7FF) as int]
    } else if address <= 0x3FFF || address == 0x4014 {
        let reg = spec_ppu_reg(address);
        if reg == 0x2002 {
            (b.ppu.registers.status.0 & 0xE0) | (b.ppu.open_bus_value & 0x1F)
        } else if reg == 0x2004 {
            b.ppu.renderer.oam_data@[b.ppu.oam_addr as int]
        } else if reg == 0x2007 {
            let a = b.ppu.registers.addr.value % 0x4000;
            if a < 0x3F00 {
                b.ppu.internal
            } else {
                b.ppu.palette_table@[spec_mirror_palette(a)]
            }
        } else {
            b.ppu.open_bus_value
        }
    } else if address == 0x4016 {
        joypad_read_result(b.joypad1)
    } else if address <= 0x4017 {
        0u8
    } else if address <= 0x401F {
        0u8
    } else {
        cart_read_spec(*b.cartridge, address)
    }
}

impl Bus {
    pub open spec fn wf(self) -> bool {
        &&& self.ram@.len() == 0x800
        &&& self.cartridge.wf()
        &&& self.ppu.wf()
    }

    pub fn new(rom: Box<NESRom>) -> (r: Bus)
        requires
            rom.wf(),
        ensures
            r.wf(),
            r.cartridge == rom,
            r.cycles == 0,
            r.nmi.schedule == Option::<usize>::None,
            r.irq.schedule == Option::<usize>::None,
            r.joypad1.strobe == false,
            r.joypad1.idx == 0,
            r.joypad1.buttons.0 == 0,
            r.ppu.mirroring == rom.header.mirroring,
            r.ppu.renderer.cycle == 0,
            r.ppu.renderer.scanline == 0,
            r.ppu.renderer.dots == 0,
            r.ppu.registers.status.0 == 0b1000_0000,
            r.ppu.registers.ctrl.0 == 0,
            r.ppu.oam_addr == 0,
            forall|i: int| 0 <= i < 0x800 ==> r.ram@[i] == 0u8,
            rom.header.chr_rom_pages > 0 ==> r.ppu.chr_rom@ == rom.data@.subrange(
                0x2000 + rom.header.prg_rom_pages * 0x4000,
                0x2000 + rom.header.prg_rom_pages * 0x4000 + rom.header.chr_rom_pages * 0x2000,
            ),
            rom.header.chr_rom_pages == 0 ==> r.ppu.chr_rom@.len() == rom.header.chr_ram_pages
                * 0x2000 && (forall|i: int|
                0 <= i < r.ppu.chr_rom@.len() ==> r.ppu.chr_rom@[i] == 0u8),
    {
        let mirroring = rom.header.mirroring;
        let chr_rom = rom.chr_rom();

        let mut ram: Vec<u8> = Vec::new();
        ram.resize(0x800, 0u8);

        Bus {
            ram,
            cartridge: rom,
            ppu: Ppu::new(chr_rom, mirroring),
            apu: Apu::new(),
            cycles: 0,
            nmi: Interrupt::new(),
            irq: Interrupt::new(),
            joypad1: Joypad::new(),
        }
    }

    /// One bus cycle: the cycle counter steps, both interrupt latches count
    /// down, and the PPU advances exactly three dots, which may set or clear
    /// status bits and schedule an NMI at the vblank boundary.
    pub fn tick(&mut self)
        requires
            old(self).wf(),
        ensures
            final(self).wf(),
            final(self).cycles == old(self).cycles.wrapping_add(1),
            final(self).ppu.renderer.dots == old(self).ppu.renderer.dots.wrapping_add(
                1,
            ).wrapping_add(1).wrapping_add(1),
            ({
                let p0 = (old(self).ppu.renderer.cycle as int, old(self).ppu.renderer.scanline as int);
                let pend = spec_step_pos(spec_step_pos(spec_step_pos(p0)));
                &&& final(self).ppu.renderer.cycle == pend.0
                &&& final(self).ppu.renderer.scanline == pend.1
                &&& final(self).ppu.registers.status.0 == spec_tick3_status(
                    p0,
                    old(self).ppu.registers.ctrl.0,
                    old(self).ppu.registers.mask.0,
                    old(self).ppu.renderer.oam_data@,
                    old(self).ppu.registers.status.0,
                )
                &&& final(self).nmi == spec_tick3_nmi(
                    p0,
                    old(self).ppu.registers.ctrl.0,
                    old(self).nmi,
                )
                &&& (!spec_tick3_evaluates_sprites(p0) ==> final(self).ppu.renderer.secondary_oam
                    == old(self).ppu.renderer.secondary_oam)
            }),
            final(self).irq == interrupt_after_tick(old(self).irq),
            final(self).ram == old(self).ram,
            final(self).cartridge == old(self).cartridge,
            final(self).joypad1 == old(self).joypad1,
            final(self).apu == old(self).apu,
            final(self).ppu.registers.ctrl == old(self).ppu.registers.ctrl,
            final(self).ppu.registers.mask == old(self).ppu.registers.mask,
            final(self).ppu.registers.scroll == old(self).ppu.registers.scroll,
            final(self).ppu.registers.addr == old(self).ppu.registers.addr,
            final(self).ppu.renderer.oam_data == old(self).ppu.renderer.oam_data,
            final(self).ppu.renderer.frame == old(self).ppu.renderer.frame,
            final(self).ppu.vram == old(self).ppu.vram,
            final(self).ppu.chr_rom == old(self).ppu.chr_rom,
            final(self).ppu.palette_table == old(self).ppu.palette_table,
            final(self).ppu.internal == old(self).ppu.internal,
            final(self).ppu.open_bus_value == old(self).ppu.open_bus_value,
            final(self).ppu.oam_addr == old(self).ppu.oam_addr,
            final(self).ppu.mirroring == old(self).ppu.mirroring,
    {
        self.cycles = self.cycles.wrapping_add(1);

        self.nmi.tick();
        self.irq.tick();

        self.ppu.tick(&mut self.nmi);
        self.ppu.tick(&mut self.nmi);
        self.ppu.tick(&mut self.nmi);
    }

    /// Decode and read without advancing time; used by the CPU for opcode
    /// fetches that have already been paid for and by debug tracing.
    pub fn unclocked_read(&mut self, address: u16) -> (r: Result<u8, EmuError>)
        requires
            old(self).wf(),
        ensures
            final(self).wf(),
            (r is Err) <==> (0x4018 <= address <= 0x401F),
            r is Err ==> r == Err::<u8, EmuError>(EmuError::DisabledRegion(address)) && *final(self)
                == *old(self),
            r is Ok ==> r == Ok::<u8, EmuError>(bus_peek(*old(self), address)),
            final(self).cycles == old(self).cycles,
            final(self).ram == old(self).ram,
            final(self).cartridge == old(self).cartridge,
            final(self).nmi == old(self).nmi,
            final(self).irq == old(self).irq,
            final(self).apu == old(self).apu,
            final(self).ppu.renderer == old(self).ppu.renderer,
            final(self).ppu.vram == old(self).ppu.vram,
            final(self).ppu.chr_rom == old(self).ppu.chr_rom,
            final(self).ppu.palette_table == old(self).ppu.palette_table,
            final(self).ppu.open_bus_value == old(self).ppu.open_bus_value,
            final(self).ppu.oam_addr == old(self).ppu.oam_addr,
            final(self).ppu.registers.ctrl == old(self).ppu.registers.ctrl,
            final(self).ppu.registers.mask == old(self).ppu.registers.mask,
            final(self).ppu.mirroring == old(self).ppu.mirroring,
            address <= 0x1FFF || 0x4020 <= address ==> *final(self) == *old(self),
            0x4000 <= address <= 0x4015 && address != 0x4014 ==> *final(self) == *old(self),
            address == 0x4017 ==> *final(self) == *old(self),
            address == 0x4016 ==> *final(self) == (Bus {
                joypad1: joypad_after_read(old(self).joypad1),
                ..*old(self)
            }),
            (0x2000 <= address <= 0x3FFF) || address == 0x4014 ==> {
                let reg = spec_ppu_reg(address);
                &&& (reg != 0x2002 && reg != 0x2007) ==> *final(self) == *old(self)
                &&& reg == 0x2002 ==> {
                    &&& final(self).ppu.registers.status.0 == old(self).ppu.registers.status.0
                        & 0x7F
                    &&& final(self).ppu.registers.scroll.latch == false
                    &&& final(self).ppu.registers.addr.value == old(self).ppu.registers.addr.value
                    &&& final(self).ppu.registers.addr.high_pointer == true
                    &&& final(self).ppu.internal == old(self).ppu.internal
                    &&& final(self).joypad1 == old(self).joypad1
                }
                &&& reg == 0x2007 ==> {
                    &&& final(self).ppu.registers.addr.value == (old(self).ppu.registers.addr.value
                        + (if old(self).ppu.registers.ctrl.0 & 0b100 != 0 {
                        32int
                    } else {
                        1int
                    })) % 0x4000
                    &&& final(self).ppu.registers.status == old(self).ppu.registers.status
                    &&& final(self).ppu.registers.scroll == old(self).ppu.registers.scroll
                    &&& final(self).joypad1 == old(self).joypad1
                    &&& ({
                        let a = old(self).ppu.registers.addr.value % 0x4000;
                        &&& a < 0x2000 ==> final(self).ppu.internal == old(self).ppu.chr_rom@[a as int]
                        &&& 0x2000 <= a ==> final(self).ppu.internal == old(self).ppu.vram@[spec_mirror_vram(old(self).ppu.mirroring, a)]
                    })
                }
            },
    {
        if address <= 0x1FFF {
            proof {
                let a = address;
                assert(a & 0x7FF < 0x800) by (bit_vector);
            }
            Ok(self.ram[(address & 0x7FF) as usize])
        } else if address <= 0x3FFF || address == 0x4014 {
            proof {
                if address != 0x4014 {
                    let a = address;
                    assert(0x2000 <= (a & 0x2007) <= 0x2007) by (bit_vector)
                        requires 0x2000 <= a <= 0x3FFF;
                }
            }
            Ok(self.ppu.read(address))
        } else if address == 0x4016 {
            Ok(self.joypad1.read())
        } else if address == 0x4017 {
            Ok(0)
        } else if address <= 0x4015 {
            Ok(self.apu.read(address))
        } else if address <= 0x401F {
            Err(EmuError::DisabledRegion(address))
        } else {
            Ok(self.cartridge.read(address))
        }
    }

    /// Reads a byte from the interface at the given address: one bus cycle
    /// passes, then the value is decoded. Except at $2002, whose status bits
    /// the three PPU dots may move, the value returned is the one the
    /// address held before the tick.
    pub fn read(&mut self, address: u16) -> (r: Result<u8, EmuError>)
        requires
            old(self).wf(),
        ensures
            final(self).wf(),
            (r is Err) <==> (0x4018 <= address <= 0x401F),
            r is Err ==> r == Err::<u8, EmuError>(EmuError::DisabledRegion(address)),
            final(self).cycles == old(self).cycles.wrapping_add(1),
            final(self).ppu.renderer.dots == old(self).ppu.renderer.dots.wrapping_add(
                1,
            ).wrapping_add(1).wrapping_add(1),
            final(self).ram == old(self).ram,
            final(self).cartridge == old(self).cartridge,
            final(self).apu == old(self).apu,
            r is Ok && !((0x2000 <= address <= 0x3FFF) && spec_ppu_reg(address) == 0x2002) ==> r
                == Ok::<u8, EmuError>(bus_peek(*old(self), address)),
            address <= 0x1FFF ==> r == Ok::<u8, EmuError>(
                final(self).ram@[(address & 0x7FF) as int],
            ),
            0x4020 <= address ==> r == Ok::<u8, EmuError>(
                cart_read_spec(*final(self).cartridge, address),
            ),
            r is Ok && (0x2000 <= address <= 0x3FFF) && spec_ppu_reg(address) == 0x2002 ==> {
                &&& r == Ok::<u8, EmuError>(
                    (spec_tick3_status(
                        (old(self).ppu.renderer.cycle as int, old(self).ppu.renderer.scanline as int),
                        old(self).ppu.registers.ctrl.0,
                        old(self).ppu.registers.mask.0,
                        old(self).ppu.renderer.oam_data@,
                        old(self).ppu.registers.status.0,
                    ) & 0xE0) | (old(self).ppu.open_bus_value & 0x1F),
                )
                &&& final(self).ppu.registers.status.0 == spec_tick3_status(
                    (old(self).ppu.renderer.cycle as int, old(self).ppu.renderer.scanline as int),
                    old(self).ppu.registers.ctrl.0,
                    old(self).ppu.registers.mask.0,
                    old(self).ppu.renderer.oam_data@,
                    old(self).ppu.registers.status.0,
                ) & 0x7F
                &&& final(self).ppu.registers.scroll.latch == false
                &&& final(self).ppu.registers.addr.high_pointer == true
            },
            address == 0x4016 ==> final(self).joypad1 == joypad_after_read(old(self).joypad1),
            address != 0x4016 ==> final(self).joypad1 == old(self).joypad1,
            final(self).ppu.vram == old(self).ppu.vram,
            final(self).ppu.chr_rom@.len() == old(self).ppu.chr_rom@.len(),
            final(self).ppu.palette_table == old(self).ppu.palette_table,
            final(self).ppu.open_bus_value == old(self).ppu.open_bus_value,
            final(self).ppu.oam_addr == old(self).ppu.oam_addr,
            final(self).ppu.renderer.oam_data == old(self).ppu.renderer.oam_data,
            final(self).ppu.renderer.frame == old(self).ppu.renderer.frame,
            final(self).ppu.registers.ctrl == old(self).ppu.registers.ctrl,
            final(self).ppu.registers.mask == old(self).ppu.registers.mask,
            !((0x2000 <= address <= 0x3FFF) && (spec_ppu_reg(address) == 0x2002 || spec_ppu_reg(
                address,
            ) == 0x2007)) ==> {
                &&& final(self).ppu.registers.addr == old(self).ppu.registers.addr
                &&& final(self).ppu.registers.scroll == old(self).ppu.registers.scroll
                &&& final(self).ppu.internal == old(self).ppu.internal
            },
    {
        self.tick();
        self.unclocked_read(address)
    }

    /// Read a 16-bit little-endian word with two clocked reads.
    pub fn read_word(&mut self, address: u16) -> (r: Result<u16, EmuError>)
        requires
            old(self).wf(),
            address < 0xFFFF,
        ensures
            final(self).wf(),
            (r is Err) <==> (0x4018 <= address <= 0x401F || 0x4018 <= address + 1 <= 0x401F),
            final(self).cycles == old(self).cycles.wrapping_add(1).wrapping_add(1) || (r is Err
                && final(self).cycles == old(self).cycles.wrapping_add(1)),
            final(self).ppu.renderer.dots == old(self).ppu.renderer.dots.wrapping_add(
                1,
            ).wrapping_add(1).wrapping_add(1).wrapping_add(1).wrapping_add(1).wrapping_add(1) || (
            r is Err && final(self).ppu.renderer.dots == old(self).ppu.renderer.dots.wrapping_add(
                1,
            ).wrapping_add(1).wrapping_add(1)),
            final(self).ram == old(self).ram,
            final(self).cartridge == old(self).cartridge,
            r is Ok && 0x4020 <= address ==> r == Ok::<u16, EmuError>(
                (cart_read_spec(*old(self).cartridge, address) as u16) | ((cart_read_spec(
                    *old(self).cartridge,
                    (address + 1) as u16,
                ) as u16) << 8),
            ),
            r is Ok && address + 1 <= 0x1FFF ==> r == Ok::<u16, EmuError>(
                (old(self).ram@[(address & 0x7FF) as int] as u16) | ((old(self).ram@[((address
                    + 1) as u16 & 0x7FF) as int] as u16) << 8),
            ),
    {
        let low_byte = match self.read(address) {
            Ok(v) => v as u16,
            Err(e) => {
                return Err(e);
            },
        };
        let high_byte = match self.read(address + 1) {
            Ok(v) => v as u16,
            Err(e) => {
                return Err(e);
            },
        };

        Ok(low_byte | (high_byte << 8))
    }

    /// Read a 16-bit little-endian word without advancing time.
    pub fn unclocked_read_word(&mut self, address: u16) -> (r: Result<u16, EmuError>)
        requires
            old(self).wf(),
            address < 0xFFFF,
        ensures
            final(self).wf(),
            (r is Err) <==> (0x4018 <= address <= 0x401F || 0x4018 <= address + 1 <= 0x401F),
            final(self).cycles == old(self).cycles,
            final(self).ppu.renderer == old(self).ppu.renderer,
            final(self).ram == old(self).ram,
            final(self).cartridge == old(self).cartridge,
            r is Ok && 0x4020 <= address ==> r == Ok::<u16, EmuError>(
                (cart_read_spec(*old(self).cartridge, address) as u16) | ((cart_read_spec(
                    *old(self).cartridge,
                    (address + 1) as u16,
                ) as u16) << 8),
            ),
    {
        let low_byte = match self.unclocked_read(address) {
            Ok(v) => v as u16,
            Err(e) => {
                return Err(e);
            },
        };
        let high_byte = match self.unclocked_read(address + 1) {
            Ok(v) => v as u16,
            Err(e) => {
                return Err(e);
            },
        };

        Ok(low_byte | (high_byte << 8))
    }

    /// Writes a byte to the interface at the given address: one bus cycle
    /// passes, then the value is dispatched. A write to $4014 copies the
    /// named 256-byte RAM page into OAM and stalls for 513 cycles in all.
    pub fn write(&mut self, address: u16, data: u8) -> (r: Result<(), EmuError>)
        requires
            old(self).wf(),
        ensures
            final(self).wf(),
            (r is Err) <==> (0x4018 <= address <= 0x401F || (0x2000 <= address <= 0x3FFF
                && spec_ppu_reg(address) == 0x2002) || (address == 0x4014 && data == 0x40)),
            0x4018 <= address <= 0x401F ==> r == Err::<(), EmuError>(
                EmuError::DisabledRegion(address),
            ),
            0x2000 <= address <= 0x3FFF && spec_ppu_reg(address) == 0x2002 ==> r == Err::<
                (),
                EmuError,
            >(EmuError::WriteToReadOnly(address)),
            r matches Err(e) ==> (e is DisabledRegion || e is WriteToReadOnly),
            final(self).ram@.len() == old(self).ram@.len(),
            final(self).cartridge.header == old(self).cartridge.header,
            final(self).cartridge.mapper == old(self).cartridge.mapper,
            address <= 0x1FFF ==> {
                &&& final(self).cycles == old(self).cycles.wrapping_add(1)
                &&& final(self).ram@ == old(self).ram@.update((address & 0x7FF) as int, data)
                &&& final(self).cartridge == old(self).cartridge
                &&& final(self).joypad1 == old(self).joypad1
            },
            0x2000 <= address <= 0x3FFF ==> {
                &&& final(self).cycles == old(self).cycles.wrapping_add(1)
                &&& final(self).ram == old(self).ram
                &&& final(self).cartridge == old(self).cartridge
                &&& final(self).joypad1 == old(self).joypad1
                &&& (r is Ok ==> final(self).ppu.open_bus_value == data)
                &&& (spec_ppu_reg(address) == 0x2000 ==> final(self).ppu.registers.ctrl.0 == data)
                &&& (spec_ppu_reg(address) == 0x2001 ==> final(self).ppu.registers.mask.0 == data)
                &&& (spec_ppu_reg(address) == 0x2003 ==> final(self).ppu.oam_addr == data)
                &&& (spec_ppu_reg(address) == 0x2004 ==> final(self).ppu.oam_addr == old(
                    self,
                ).ppu.oam_addr.wrapping_add(1) && final(self).ppu.renderer.oam_data@ == old(
                    self,
                ).ppu.renderer.oam_data@.update(old(self).ppu.oam_addr as int, data))
            },
            address == 0x4014 && data != 0x40 ==> {
                &&& final(self).cycles == old(self).cycles.wrapping_add(513)
                &&& final(self).ppu.oam_addr == old(self).ppu.oam_addr
                &&& ((data <= 0x1F || data >= 0x41) ==> (forall|i: int|
                    0 <= i < 256 ==> #[trigger] final(self).ppu.renderer.oam_data@[(old(
                        self,
                    ).ppu.oam_addr + i) % 256] == bus_peek(
                        *old(self),
                        ((data as int) * 0x100 + i) as u16,
                    )))
                &&& final(self).ram == old(self).ram
                &&& final(self).cartridge == old(self).cartridge
                &&& final(self).joypad1 == old(self).joypad1
            },
            address == 0x4016 ==> {
                &&& final(self).cycles == old(self).cycles.wrapping_add(1)
                &&& final(self).joypad1.strobe == (data & 1 != 0)
                &&& (data & 1 != 0 ==> final(self).joypad1.idx == 0)
                &&& (data & 1 == 0 ==> final(self).joypad1.idx == old(self).joypad1.idx)
                &&& final(self).joypad1.buttons == old(self).joypad1.buttons
                &&& final(self).ram == old(self).ram
                &&& final(self).cartridge == old(self).cartridge
            },
            (0x4000 <= address <= 0x4013) || address == 0x4015 || address == 0x4017 ==> {
                &&& final(self).cycles == old(self).cycles.wrapping_add(1)
                &&& final(self).ram == old(self).ram
                &&& final(self).cartridge == old(self).cartridge
                &&& final(self).joypad1 == old(self).joypad1
            },
            0x4020 <= address ==> {
                &&& final(self).cycles == old(self).cycles.wrapping_add(1)
                &&& final(self).ram == old(self).ram
                &&& final(self).joypad1 == old(self).joypad1
                &&& final(self).cartridge.data@ == old(self).cartridge.data@.update(
                    old(self).cartridge.mapper.map_spec(address) as int,
                    data,
                )
            },
    {
        self.tick();
        if address <= 0x1FFF {
            proof {
                let a = address;
                assert(a & 0x7FF < 0x800) by (bit_vector);
            }
            self.ram.set((address & 0x7FF) as usize, data);
            Ok(())
        } else if address <= 0x3FFF {
            proof {
                let a = address;
                assert(0x2000 <= (a & 0x2007) <= 0x2007) by (bit_vector)
                    requires 0x2000 <= a <= 0x3FFF;
            }
            self.ppu.write(address, data)
        } else if address == 0x4014 {
            self.oam_dma(data)
        } else if address == 0x4016 {
            self.joypad1.write(data);
            Ok(())
        } else if address == 0x4017 {
            Ok(())
        } else if address <= 0x4015 {
            self.apu.write(address, data);
            Ok(())
        } else if address <= 0x401F {
            Err(EmuError::DisabledRegion(address))
        } else {
            self.cartridge.write(address, data);
            Ok(())
        }
    }

    /// The $4014 transfer: the 256 bytes at CPU page `page` stream into OAM
    /// through the unclocked read path, one byte per two bus cycles, for a
    /// stall of 512 cycles on top of the triggering write. Page $40 overlaps
    /// the disabled register region and is refused.
    fn oam_dma(&mut self, page: u8) -> (r: Result<(), EmuError>)
        requires
            old(self).wf(),
        ensures
            final(self).wf(),
            (r is Err) <==> page == 0x40,
            r is Err ==> r == Err::<(), EmuError>(EmuError::DisabledRegion(0x4018)) && *final(self)
                == *old(self),
            r is Ok ==> {
                &&& final(self).cycles == old(self).cycles.wrapping_add(512)
                &&& final(self).ppu.oam_addr == old(self).ppu.oam_addr
                &&& ((page <= 0x1F || page >= 0x41) ==> (forall|i: int|
                    0 <= i < 256 ==> #[trigger] final(self).ppu.renderer.oam_data@[(old(
                        self,
                    ).ppu.oam_addr + i) % 256] == bus_peek(
                        *old(self),
                        ((page as int) * 0x100 + i) as u16,
                    )))
                &&& final(self).ram == old(self).ram
                &&& final(self).cartridge == old(self).cartridge
                &&& final(self).joypad1 == old(self).joypad1
                &&& final(self).apu == old(self).apu
                &&& ((page <= 0x1F || page >= 0x41) ==> {
                    &&& final(self).ppu.vram == old(self).ppu.vram
                    &&& final(self).ppu.chr_rom == old(self).ppu.chr_rom
                    &&& final(self).ppu.palette_table == old(self).ppu.palette_table
                    &&& final(self).ppu.internal == old(self).ppu.internal
                    &&& final(self).ppu.registers.scroll == old(self).ppu.registers.scroll
                    &&& final(self).ppu.registers.addr == old(self).ppu.registers.addr
                })
                &&& final(self).ppu.chr_rom@.len() == old(self).ppu.chr_rom@.len()
                &&& final(self).ppu.open_bus_value == old(self).ppu.open_bus_value
                &&& final(self).ppu.registers.ctrl == old(self).ppu.registers.ctrl
                &&& final(self).ppu.registers.mask == old(self).ppu.registers.mask
                &&& final(self).ppu.renderer.frame == old(self).ppu.renderer.frame
            },
    {
        if page == 0x40 {
            return Err(EmuError::DisabledRegion(0x4018));
        }
        let base: u16 = (page as u16) * 0x100;
        let ghost addr0 = old(self).ppu.oam_addr as int;
        let mut i: u16 = 0;
        while i < 256
            invariant
                i <= 256,
                self.wf(),
                page != 0x40,
                base == (page as int) * 0x100,
                addr0 == old(self).ppu.oam_addr as int,
                self.ppu.oam_addr as int == (addr0 + i) % 256,
                self.cycles == old(self).cycles.wrapping_add((2 * i) as u64),
                (page <= 0x1F || page >= 0x41) ==> (forall|k: int|
                    0 <= k < i ==> #[trigger] self.ppu.renderer.oam_data@[(addr0 + k) % 256]
                        == bus_peek(*old(self), ((page as int) * 0x100 + k) as u16)),
                self.ram == old(self).ram,
                self.cartridge == old(self).cartridge,
                self.joypad1 == old(self).joypad1,
                self.apu == old(self).apu,
                (page <= 0x1F || page >= 0x41) ==> {
                    &&& self.ppu.vram == old(self).ppu.vram
                    &&& self.ppu.chr_rom == old(self).ppu.chr_rom
                    &&& self.ppu.palette_table == old(self).ppu.palette_table
                    &&& self.ppu.internal == old(self).ppu.internal
                    &&& self.ppu.registers.scroll == old(self).ppu.registers.scroll
                    &&& self.ppu.registers.addr == old(self).ppu.registers.addr
                },
                self.ppu.chr_rom@.len() == old(self).ppu.chr_rom@.len(),
                self.ppu.open_bus_value == old(self).ppu.open_bus_value,
                self.ppu.registers.ctrl == old(self).ppu.registers.ctrl,
                self.ppu.registers.mask == old(self).ppu.registers.mask,
                self.ppu.renderer.frame == old(self).ppu.renderer.frame,
                self.ppu.mirroring == old(self).ppu.mirroring,
            decreases 256 - i,
        {
            self.tick();
            self.tick();
            proof {
                assert(!(0x4018 <= base + i <= 0x401F)) by (nonlinear_arith)
                    requires
                        page != 0x40,
                        i < 256,
                        base == (page as int) * 0x100;
            }
            let value = match self.unclocked_read(base + i) {
                Ok(v) => v,
                Err(_) => {
                    proof {
                        assert(false);
                    }
                    0
                },
            };
            self.ppu.write_oam_data(value);
            proof {
                vstd::arithmetic::div_mod::lemma_fundamental_div_mod(addr0 + i as int, 256);
                vstd::arithmetic::div_mod::lemma_fundamental_div_mod(addr0 + i as int + 1, 256);
                if page <= 0x1F || page >= 0x41 {
                    assert forall|k: int|
                        0 <= k < i + 1 implies #[trigger] self.ppu.renderer.oam_data@[(addr0 + k)
                        % 256] == bus_peek(*old(self), ((page as int) * 0x100 + k) as u16) by {
                        if k < i as int {
                            assert((addr0 + k) % 256 != (addr0 + i as int) % 256) by {
                                vstd::arithmetic::div_mod::lemma_fundamental_div_mod(
                                    addr0 + k,
                                    256,
                                );
                            };
                        }
                    }
                }
            }
            i = i + 1;
        }
        Ok(())
    }
}

/// One CPU cycle always advances the PPU by exactly three dots, so a
/// machine whose dot total stands at three times its cycle count keeps that
/// ratio across a bus tick.
pub proof fn lemma_three_dots_per_cycle(cycles: u64, dots: u64)
    requires
        dots == 3 * cycles,
        3 * cycles + 3 <= u64::MAX,
    ensures
        dots.wrapping_add(1).wrapping_add(1).wrapping_add(1) == 3 * cycles.wrapping_add(1),
{
}

/// Internal RAM occupies $0000-$07FF and appears again at offsets $0800,
/// $1000 and $1800: a mirrored address decodes to the very cell the bare
/// address does, as `bus_peek` and the RAM write path index it.
pub proof fn lemma_ram_mirror(a: u16, m: u16)
    requires
        a <= 0x07FF,
        m == 0 || m == 0x0800 || m == 0x1000 || m == 0x1800,
    ensures
        ((a + m) as u16) & 0x7FF == a & 0x7FF,
        a & 0x7FF == a,
        (a + m) as u16 <= 0x1FFF,
{
    assert(((a + m) as u16) & 0x7FF == a & 0x7FF && a & 0x7FF == a && ((a + m) as u16) <= 0x1FFF)
        by (bit_vector)
        requires
            a <= 0x07FF,
            m == 0 || m == 0x0800 || m == 0x1000 || m == 0x1800;
}

} // verus!
