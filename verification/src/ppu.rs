//! The picture processing unit: its memory spaces (palette, nametable VRAM,
//! character memory, object attribute memory), the eight memory-mapped
//! registers with their latch and read-side-effect behavior, and the dot
//! clock that raises NMI at vertical blank.

pub mod address_register;
pub mod control_register;
pub mod frame;
pub mod mask_register;
pub mod oam;
pub mod palette;
pub mod ppu_state;
pub mod registers;
pub mod renderer;
pub mod scroll_register;
pub mod sprite;
pub mod status_register;

use vstd::prelude::*;

use crate::errors::EmuError;
use crate::hardware::interrupt::Interrupt;
use crate::mapper::Mirroring;
use registers::Registers;
use renderer::{spec_next_cycle, spec_next_scanline, sprite_eval_ok, Renderer};

verus! {

#[derive(Debug, Copy, Clone, PartialEq, Eq, Structural)]
pub enum PPUResult {
    Nmi,
    FrameComplete,
    Idle,
}

pub struct Ppu {
    pub palette_table: Vec<u8>,
    pub vram: Vec<u8>,
    pub oam_addr: u8,
    pub chr_rom: Vec<u8>,
    // Internal bus data buffer
    pub internal: u8,
    // Returned when reading from an open bus
    pub open_bus_value: u8,
    // Mirroring mode
    pub mirroring: Mirroring,
    pub registers: Registers,
    pub renderer: Renderer,
}

/// The register a $2000-$3FFF access lands on: the window repeats every
/// eight bytes; $4014 passes through untouched.
pub open spec fn spec_ppu_reg(address: u16) -> u16 {
    if address == 0x4014 {
        0x4014u16
    } else {
        address & 0x2007
    }
}

/// Where a logical nametable address lands in the 2 KiB of physical VRAM.
///
/// Horizontal:
///   [ A ] [ a ]
///   [ B ] [ b ]
///
/// Vertical:
///   [ A ] [ B ]
///   [ a ] [ b ]
pub open spec fn spec_mirror_vram(m: Mirroring, addr: u16) -> int {
    let vram_index = (addr & 0x0FFF) as int;
    let name_table = vram_index / 0x400;
    if m == Mirroring::Vertical && (name_table == 2 || name_table == 3) {
        vram_index - 0x800
    } else if m == Mirroring::Horizontal && (name_table == 1 || name_table == 2) {
        vram_index - 0x400
    } else if m == Mirroring::Horizontal && name_table == 3 {
        vram_index - 0x800
    } else {
        vram_index
    }
}

/// Where a $3F00-$3FFF access lands in the 32-byte palette: the sprite
/// transparent entries $3F10/$3F14/$3F18/$3F1C alias the background ones.
pub open spec fn spec_mirror_palette(addr: u16) -> int {
    if addr == 0x3F10 || addr == 0x3F14 || addr == 0x3F18 || addr == 0x3F1C {
        (addr & 0x0F) as int
    } else {
        (addr & 0x1F) as int
    }
}

/// The sprite palette's transparent entries $3F10, $3F14, $3F18 and $3F1C
/// alias the background entries $3F00, $3F04, $3F08 and $3F0C: both decode
/// to the same palette cell, so a write through one is read back through
/// the other.
pub proof fn lemma_palette_mirror(k: u16)
    requires
        k == 0 || k == 4 || k == 8 || k == 12,
    ensures
        spec_mirror_palette((0x3F10 + k) as u16) == spec_mirror_palette((0x3F00 + k) as u16),
{
    assert(((0x3F10 + k) as u16) & 0x0F == ((0x3F00 + k) as u16) & 0x1F) by (bit_vector)
        requires k == 0 || k == 4 || k == 8 || k == 12;
}

impl Ppu {
    pub open spec fn wf(self) -> bool {
        &&& self.palette_table@.len() == 32
        &&& self.vram@.len() == 0x800
        &&& self.chr_rom@.len() >= 0x2000
        &&& self.renderer.wf()
    }

    pub fn new(chr_rom: Vec<u8>, mirroring: Mirroring) -> (r: Ppu)
        requires
            chr_rom@.len() >= 0x2000,
        ensures
            r.wf(),
            r.chr_rom == chr_rom,
            r.mirroring == mirroring,
            r.internal == 0,
            r.open_bus_value == 0,
            r.oam_addr == 0,
            r.renderer.cycle == 0,
            r.renderer.scanline == 0,
            r.renderer.dots == 0,
            r.registers.status.0 == 0b1000_0000,
            r.registers.ctrl.0 == 0,
            r.registers.addr.value == 0,
            r.registers.addr.high_pointer == true,
            r.registers.scroll.latch == false,
            forall|i: int| 0 <= i < 32 ==> r.palette_table@[i] == 0u8,
            forall|i: int| 0 <= i < 0x800 ==> r.vram@[i] == 0u8,
            forall|i: int| 0 <= i < 256 ==> r.renderer.oam_data@[i] == 0u8,
    {
        let mut palette_table: Vec<u8> = Vec::new();
        palette_table.resize(32, 0u8);
        let mut vram: Vec<u8> = Vec::new();
        vram.resize(0x800, 0u8);

        Ppu {
            internal: 0,
            palette_table,
            vram,
            oam_addr: 0,
            registers: Registers::new(),
            mirroring,
            chr_rom,
            open_bus_value: 0,
            renderer: Renderer::new(),
        }
    }

    pub fn mirror_vram_addr(&self, addr: u16) -> (r: usize)
        ensures
            r == spec_mirror_vram(self.mirroring, addr),
            r < 0x800,
    {
        let vram_index = (addr & 0x0FFF) as usize;
        let name_table = vram_index / 0x400;

        proof {
            let a = addr;
            assert(a & 0x0FFF < 0x1000) by (bit_vector);
            vstd::arithmetic::div_mod::lemma_fundamental_div_mod(vram_index as int, 0x400);
        }

        match (&self.mirroring, name_table) {
            (Mirroring::Vertical, 2) => vram_index - 0x800,
            (Mirroring::Vertical, 3) => vram_index - 0x800,
            (Mirroring::Horizontal, 1) => vram_index - 0x400,
            (Mirroring::Horizontal, 2) => vram_index - 0x400,
            (Mirroring::Horizontal, 3) => vram_index - 0x800,
            _ => vram_index,
        }
    }

    pub fn mirror_palette(&self, addr: u16) -> (r: usize)
        ensures
            r == spec_mirror_palette(addr),
            r < 32,
    {
        if addr == 0x3F10 || addr == 0x3F14 || addr == 0x3F18 || addr == 0x3F1C {
            proof {
                let a = addr;
                assert(a & 0x0F < 32) by (bit_vector);
            }
            (addr & 0x0F) as usize
        } else {
            proof {
                let a = addr;
                assert(a & 0x1F < 32) by (bit_vector);
            }
            (addr & 0x1F) as usize
        }
    }

    /// Read a PPU register through the $2000-$3FFF window (or the $4014 OAM
    /// DMA port). Write-only registers hand back the open-bus byte; $2002
    /// merges the three status bits with the open bus, clears vblank and
    /// resets the shared write latch; $2004 reads OAM without advancing;
    /// $2007 reads the data port.
    pub fn read(&mut self, address: u16) -> (r: u8)
        requires
            old(self).wf(),
            (0x2000 <= address <= 0x3FFF) || address == 0x4014,
        ensures
            final(self).wf(),
            final(self).chr_rom == old(self).chr_rom,
            final(self).palette_table == old(self).palette_table,
            final(self).mirroring == old(self).mirroring,
            final(self).open_bus_value == old(self).open_bus_value,
            final(self).oam_addr == old(self).oam_addr,
            final(self).renderer == old(self).renderer,
            final(self).registers.ctrl == old(self).registers.ctrl,
            final(self).registers.mask == old(self).registers.mask,
            ({
                let reg = spec_ppu_reg(address);
                &&& (reg == 0x2000 || reg == 0x2001 || reg == 0x2003 || reg == 0x2005 || reg
                    == 0x2006 || reg == 0x4014) ==> r == old(self).open_bus_value && *final(self)
                    == *old(self)
                &&& reg == 0x2002 ==> {
                    &&& r == (old(self).registers.status.0 & 0xE0) | (old(self).open_bus_value
                        & 0x1F)
                    &&& final(self).registers.status.0 == old(self).registers.status.0 & 0x7F
                    &&& final(self).registers.scroll.x == old(self).registers.scroll.x
                    &&& final(self).registers.scroll.y == old(self).registers.scroll.y
                    &&& final(self).registers.scroll.latch == false
                    &&& final(self).registers.addr.value == old(self).registers.addr.value
                    &&& final(self).registers.addr.high_pointer == true
                    &&& final(self).vram == old(self).vram
                    &&& final(self).internal == old(self).internal
                }
                &&& reg == 0x2004 ==> r == old(self).renderer.oam_data@[old(self).oam_addr as int]
                    && *final(self) == *old(self)
                &&& reg == 0x2007 ==> {
                    &&& final(self).registers.addr.value == (old(self).registers.addr.value + (
                    if old(self).registers.ctrl.0 & 0b100 != 0 {
                        32int
                    } else {
                        1int
                    })) % 0x4000
                    &&& final(self).registers.scroll == old(self).registers.scroll
                    &&& final(self).registers.status == old(self).registers.status
                    &&& final(self).vram == old(self).vram
                    &&& ({
                        let a = old(self).registers.addr.value % 0x4000;
                        &&& a < 0x3F00 ==> r == old(self).internal
                        &&& a < 0x2000 ==> final(self).internal == old(self).chr_rom@[a as int]
                        &&& 0x2000 <= a < 0x3F00 ==> final(self).internal == old(self).vram@[spec_mirror_vram(old(self).mirroring, a)]
                        &&& a >= 0x3F00 ==> r == old(self).palette_table@[spec_mirror_palette(a)]
                            && final(self).internal == old(self).vram@[spec_mirror_vram(
                            old(self).mirroring,
                            a,
                        )]
                    })
                }
            }),
    {
        let reg = if address == 0x4014 {
            address
        } else {
            address & 0x2007
        };
        proof {
            if address != 0x4014 {
                let a = address;
                assert(0x2000 <= (a & 0x2007) <= 0x2007) by (bit_vector)
                    requires 0x2000 <= a <= 0x3FFF;
            }
        }

        if reg == 0x2002 {
            let status = self.registers.status.read();
            self.registers.scroll.reset_latch();
            self.registers.addr.reset_latch();
            (status & 0xE0) | (self.open_bus_value & 0x1F)
        } else if reg == 0x2004 {
            self.renderer.oam_data[self.oam_addr as usize]
        } else if reg == 0x2007 {
            self.read_data()
        } else {
            // Reading from a write only register returns the open bus value
            self.open_bus_value
        }
    }

    /// Write a PPU register through the $2000-$3FFF window. Every write also
    /// refreshes the open-bus byte; a write to the read-only $2002 is
    /// refused.
    pub fn write(&mut self, address: u16, data: u8) -> (r: Result<(), EmuError>)
        requires
            old(self).wf(),
            0x2000 <= address <= 0x3FFF,
        ensures
            final(self).wf(),
            final(self).chr_rom@.len() == old(self).chr_rom@.len(),
            final(self).mirroring == old(self).mirroring,
            final(self).open_bus_value == data,
            (r is Err) <==> spec_ppu_reg(address) == 0x2002,
            r is Err ==> r == Err::<(), EmuError>(EmuError::WriteToReadOnly(address)) && *final(self) == (Ppu { open_bus_value: data, ..*old(self) }),
            ({
                let reg = spec_ppu_reg(address);
                &&& reg == 0x2000 ==> *final(self) == (Ppu {
                    open_bus_value: data,
                    registers: (Registers {
                        ctrl: control_register::ControlRegister(data),
                        ..old(self).registers
                    }),
                    ..*old(self)
                })
                &&& reg == 0x2001 ==> *final(self) == (Ppu {
                    open_bus_value: data,
                    registers: (Registers {
                        mask: mask_register::MaskRegister(data),
                        ..old(self).registers
                    }),
                    ..*old(self)
                })
                &&& reg == 0x2003 ==> *final(self) == (Ppu {
                    open_bus_value: data,
                    oam_addr: data,
                    ..*old(self)
                })
                &&& reg == 0x2004 ==> {
                    &&& final(self).oam_addr == old(self).oam_addr.wrapping_add(1)
                    &&& final(self).renderer.oam_data@ == old(self).renderer.oam_data@.update(
                        old(self).oam_addr as int,
                        data,
                    )
                    &&& final(self).registers == old(self).registers
                    &&& final(self).vram == old(self).vram
                    &&& final(self).chr_rom == old(self).chr_rom
                    &&& final(self).palette_table == old(self).palette_table
                    &&& final(self).internal == old(self).internal
                }
                &&& reg == 0x2005 ==> {
                    &&& final(self).registers.scroll.latch == !old(self).registers.scroll.latch
                    &&& (!old(self).registers.scroll.latch ==> final(self).registers.scroll.x.data
                        == data && final(self).registers.scroll.y == old(self).registers.scroll.y)
                    &&& (old(self).registers.scroll.latch ==> final(self).registers.scroll.y.data
                        == data && final(self).registers.scroll.x == old(self).registers.scroll.x)
                    &&& final(self).registers.ctrl == old(self).registers.ctrl
                    &&& final(self).registers.mask == old(self).registers.mask
                    &&& final(self).registers.status == old(self).registers.status
                    &&& final(self).registers.addr == old(self).registers.addr
                    &&& final(self).vram == old(self).vram
                    &&& final(self).chr_rom == old(self).chr_rom
                    &&& final(self).palette_table == old(self).palette_table
                    &&& final(self).internal == old(self).internal
                    &&& final(self).oam_addr == old(self).oam_addr
                }
                &&& reg == 0x2006 ==> {
                    &&& (old(self).registers.addr.high_pointer ==> final(self).registers.addr.value == (old(self).registers.addr.value & 0x00FF) | ((
                    data as u16) << 8))
                    &&& (!old(self).registers.addr.high_pointer ==> final(self).registers.addr.value == (old(self).registers.addr.value & 0xFF00) | (
                    data as u16))
                    &&& final(self).registers.addr.high_pointer == !old(self).registers.addr.high_pointer
                    &&& final(self).registers.ctrl == old(self).registers.ctrl
                    &&& final(self).registers.mask == old(self).registers.mask
                    &&& final(self).registers.status == old(self).registers.status
                    &&& final(self).registers.scroll == old(self).registers.scroll
                    &&& final(self).vram == old(self).vram
                    &&& final(self).chr_rom == old(self).chr_rom
                    &&& final(self).palette_table == old(self).palette_table
                    &&& final(self).internal == old(self).internal
                    &&& final(self).oam_addr == old(self).oam_addr
                }
                &&& reg == 0x2007 ==> {
                    &&& final(self).registers.addr.value == (old(self).registers.addr.value + (
                    if old(self).registers.ctrl.0 & 0b100 != 0 {
                        32int
                    } else {
                        1int
                    })) % 0x4000
                    &&& final(self).registers.ctrl == old(self).registers.ctrl
                    &&& final(self).registers.mask == old(self).registers.mask
                    &&& final(self).registers.status == old(self).registers.status
                    &&& final(self).registers.scroll == old(self).registers.scroll
                    &&& final(self).internal == old(self).internal
                    &&& final(self).oam_addr == old(self).oam_addr
                    &&& ({
                        let a = old(self).registers.addr.value % 0x4000;
                        &&& a < 0x2000 ==> final(self).chr_rom@ == old(self).chr_rom@.update(
                            a as int,
                            data,
                        ) && final(self).vram == old(self).vram && final(self).palette_table
                            == old(self).palette_table
                        &&& 0x2000 <= a < 0x3F00 ==> final(self).vram@ == old(self).vram@.update(spec_mirror_vram(old(self).mirroring, a), data) && final(self).chr_rom == old(self).chr_rom && final(self).palette_table == old(self).palette_table
                        &&& a >= 0x3F00 ==> final(self).palette_table@ == old(self).palette_table@.update(spec_mirror_palette(a), data) && final(self).vram
                            == old(self).vram && final(self).chr_rom == old(self).chr_rom
                    })
                }
            }),
    {
        self.open_bus_value = data;

        let reg = address & 0x2007;
        proof {
            let a = address;
            assert(0x2000 <= (a & 0x2007) <= 0x2007) by (bit_vector)
                requires 0x2000 <= a <= 0x3FFF;
        }

        if reg == 0x2000 {
            self.registers.ctrl.store(data);
            Ok(())
        } else if reg == 0x2001 {
            self.registers.mask.store(data);
            Ok(())
        } else if reg == 0x2002 {
            Err(EmuError::WriteToReadOnly(address))
        } else if reg == 0x2003 {
            self.oam_addr = data;
            Ok(())
        } else if reg == 0x2004 {
            self.write_oam_data(data);
            Ok(())
        } else if reg == 0x2005 {
            self.registers.scroll.store(data);
            Ok(())
        } else if reg == 0x2006 {
            self.registers.addr.write(data);
            Ok(())
        } else {
            self.write_data(data);
            Ok(())
        }
    }

    /// Store one byte at the OAM address and advance it, wrapping at $100.
    pub fn write_oam_data(&mut self, value: u8)
        requires
            old(self).wf(),
        ensures
            final(self).wf(),
            final(self).oam_addr == old(self).oam_addr.wrapping_add(1),
            final(self).renderer.oam_data@ == old(self).renderer.oam_data@.update(
                old(self).oam_addr as int,
                value,
            ),
            final(self).renderer.cycle == old(self).renderer.cycle,
            final(self).renderer.scanline == old(self).renderer.scanline,
            final(self).renderer.dots == old(self).renderer.dots,
            final(self).renderer.frame == old(self).renderer.frame,
            final(self).renderer.secondary_oam == old(self).renderer.secondary_oam,
            final(self).registers == old(self).registers,
            final(self).vram == old(self).vram,
            final(self).chr_rom == old(self).chr_rom,
            final(self).palette_table == old(self).palette_table,
            final(self).internal == old(self).internal,
            final(self).open_bus_value == old(self).open_bus_value,
            final(self).mirroring == old(self).mirroring,
    {
        self.renderer.oam_data.set(self.oam_addr as usize, value);
        self.oam_addr = self.oam_addr.wrapping_add(1);
    }

    /// Buffered read of the data port: the caller gets the previous buffer
    /// byte for VRAM and character memory, or the palette byte directly;
    /// either way the buffer refills and the address advances by the
    /// PPUCTRL-selected step.
    pub fn read_data(&mut self) -> (r: u8)
        requires
            old(self).wf(),
        ensures
            final(self).wf(),
            final(self).registers.addr.value == (old(self).registers.addr.value + (if old(self).registers.ctrl.0 & 0b100 != 0 {
                32int
            } else {
                1int
            })) % 0x4000,
            final(self).registers.addr.high_pointer == old(self).registers.addr.high_pointer,
            final(self).registers.ctrl == old(self).registers.ctrl,
            final(self).registers.mask == old(self).registers.mask,
            final(self).registers.status == old(self).registers.status,
            final(self).registers.scroll == old(self).registers.scroll,
            final(self).vram == old(self).vram,
            final(self).chr_rom == old(self).chr_rom,
            final(self).palette_table == old(self).palette_table,
            final(self).oam_addr == old(self).oam_addr,
            final(self).open_bus_value == old(self).open_bus_value,
            final(self).renderer == old(self).renderer,
            final(self).mirroring == old(self).mirroring,
            ({
                let a = old(self).registers.addr.value % 0x4000;
                &&& a < 0x3F00 ==> r == old(self).internal
                &&& a < 0x2000 ==> final(self).internal == old(self).chr_rom@[a as int]
                &&& 0x2000 <= a < 0x3F00 ==> final(self).internal == old(self).vram@[spec_mirror_vram(old(self).mirroring, a)]
                &&& a >= 0x3F00 ==> r == old(self).palette_table@[spec_mirror_palette(a)] && final(self).internal == old(self).vram@[spec_mirror_vram(old(self).mirroring, a)]
            }),
    {
        let address = self.registers.addr.get() % 0x4000;
        let inc = self.registers.ctrl.vram_address_increment();
        self.registers.addr.increment(inc);

        if address < 0x2000 {
            let result = self.internal;
            self.internal = self.chr_rom[address as usize];
            result
        } else if address < 0x3F00 {
            let result = self.internal;
            let idx = self.mirror_vram_addr(address);
            self.internal = self.vram[idx];
            result
        } else {
            // Side effect: when reading from palette, it also reads from
            // VRAM into the buffer
            let idx = self.mirror_vram_addr(address);
            self.internal = self.vram[idx];
            let pidx = self.mirror_palette(address);
            self.palette_table[pidx]
        }
    }

    /// Write through the data port to character memory, mirrored VRAM or the
    /// palette, advancing the address by the PPUCTRL-selected step.
    pub fn write_data(&mut self, data: u8)
        requires
            old(self).wf(),
        ensures
            final(self).wf(),
            final(self).chr_rom@.len() == old(self).chr_rom@.len(),
            final(self).registers.addr.value == (old(self).registers.addr.value + (if old(self).registers.ctrl.0 & 0b100 != 0 {
                32int
            } else {
                1int
            })) % 0x4000,
            final(self).registers.addr.high_pointer == old(self).registers.addr.high_pointer,
            final(self).registers.ctrl == old(self).registers.ctrl,
            final(self).registers.mask == old(self).registers.mask,
            final(self).registers.status == old(self).registers.status,
            final(self).registers.scroll == old(self).registers.scroll,
            final(self).oam_addr == old(self).oam_addr,
            final(self).open_bus_value == old(self).open_bus_value,
            final(self).internal == old(self).internal,
            final(self).renderer == old(self).renderer,
            final(self).mirroring == old(self).mirroring,
            ({
                let a = old(self).registers.addr.value % 0x4000;
                &&& a < 0x2000 ==> final(self).chr_rom@ == old(self).chr_rom@.update(a as int, data)
                    && final(self).vram == old(self).vram && final(self).palette_table == old(self).palette_table
                &&& 0x2000 <= a < 0x3F00 ==> final(self).vram@ == old(self).vram@.update(
                    spec_mirror_vram(old(self).mirroring, a),
                    data,
                ) && final(self).chr_rom == old(self).chr_rom && final(self).palette_table == old(self).palette_table
                &&& a >= 0x3F00 ==> final(self).palette_table@ == old(self).palette_table@.update(
                    spec_mirror_palette(a),
                    data,
                ) && final(self).vram == old(self).vram && final(self).chr_rom == old(self).chr_rom
            }),
    {
        let address = self.registers.addr.get() % 0x4000;
        let inc = self.registers.ctrl.vram_address_increment();
        self.registers.addr.increment(inc);

        if address < 0x2000 {
            self.chr_rom.set(address as usize, data);
        } else if address < 0x3F00 {
            let idx = self.mirror_vram_addr(address);
            self.vram.set(idx, data);
        } else {
            let pidx = self.mirror_palette(address);
            self.palette_table.set(pidx, data);
        }
    }

    /// Advance the PPU by one dot; entering vertical blank schedules an NMI
    /// with a one-tick delay when PPUCTRL asks for one.
    pub fn tick(&mut self, nmi: &mut Interrupt)
        requires
            old(self).wf(),
        ensures
            final(self).wf(),
            final(self).renderer.cycle == spec_next_cycle(old(self).renderer.cycle as int),
            final(self).renderer.scanline == spec_next_scanline(
                old(self).renderer.cycle as int,
                old(self).renderer.scanline as int,
            ),
            final(self).renderer.dots == old(self).renderer.dots.wrapping_add(1),
            final(self).renderer.oam_data == old(self).renderer.oam_data,
            final(self).renderer.frame == old(self).renderer.frame,
            final(self).chr_rom == old(self).chr_rom,
            final(self).vram == old(self).vram,
            final(self).palette_table == old(self).palette_table,
            final(self).internal == old(self).internal,
            final(self).open_bus_value == old(self).open_bus_value,
            final(self).oam_addr == old(self).oam_addr,
            final(self).mirroring == old(self).mirroring,
            final(self).registers.ctrl == old(self).registers.ctrl,
            final(self).registers.mask == old(self).registers.mask,
            final(self).registers.scroll == old(self).registers.scroll,
            final(self).registers.addr == old(self).registers.addr,
            old(self).renderer.scanline == 241 && old(self).renderer.cycle == 1 ==> {
                &&& final(self).registers.status.0 == (old(self).registers.status.0 | 0x80)
                &&& (old(self).registers.ctrl.0 & 0x80 != 0 ==> final(nmi).schedule == Some(
                    1usize,
                ))
                &&& (old(self).registers.ctrl.0 & 0x80 == 0 ==> *final(nmi) == *old(nmi))
            },
            old(self).renderer.scanline == 261 && old(self).renderer.cycle == 1 ==> final(self).registers.status.0 == (old(self).registers.status.0 & 0x1F),
            old(self).renderer.scanline <= 239 && old(self).renderer.cycle == 257 ==> final(self).registers.status.0 == ({
                let h = if old(self).registers.ctrl.0 & 0x20 != 0 {
                    16int
                } else {
                    8int
                };
                let s1 = if renderer::count_visible(
                    old(self).renderer.oam_data@,
                    old(self).renderer.scanline as int,
                    h,
                    64,
                ) > 8 {
                    old(self).registers.status.0 | 0x20
                } else {
                    old(self).registers.status.0
                };
                if renderer::spec_sprite0_hit_rule(
                    old(self).renderer.oam_data@,
                    old(self).renderer.scanline as int,
                    h,
                    old(self).registers.mask.0,
                ) {
                    s1 | 0x40
                } else {
                    s1
                }
            }),
            !(old(self).renderer.scanline == 241 && old(self).renderer.cycle == 1) ==> *final(nmi)
                == *old(nmi),
            !((old(self).renderer.scanline == 241 || old(self).renderer.scanline == 261) && old(self).renderer.cycle == 1) && !(old(self).renderer.scanline <= 239 && old(self).renderer.cycle == 257) ==> final(self).registers.status == old(self).registers.status,
            old(self).renderer.scanline <= 239 && old(self).renderer.cycle == 257
                ==> sprite_eval_ok(
                old(self).renderer.oam_data@,
                old(self).renderer.scanline as int,
                if old(self).registers.ctrl.0 & 0x20 != 0 {
                    16int
                } else {
                    8int
                },
                final(self).renderer.secondary_oam@,
                old(self).registers.status.0 & 0x20 != 0,
                final(self).registers.status.0 & 0x20 != 0,
            ),
            !(old(self).renderer.scanline <= 239 && old(self).renderer.cycle == 257) ==> final(self).renderer.secondary_oam == old(self).renderer.secondary_oam,
    {
        let result = self.renderer.tick(&mut self.registers);
        match result {
            PPUResult::Nmi => {
                if self.registers.ctrl.generate_nmi() {
                    nmi.schedule(1);
                }
            },
            PPUResult::FrameComplete => (),
            PPUResult::Idle => (),
        }
    }

    /// Copy 256 bytes into OAM, starting at the current OAM address and
    /// wrapping, as the $4014 DMA does; the OAM address ends where it began.
    pub fn write_oam_dma(&mut self, data: &[u8])
        requires
            old(self).wf(),
            data@.len() == 256,
        ensures
            final(self).wf(),
            final(self).oam_addr == old(self).oam_addr,
            forall|i: int|
                0 <= i < 256 ==> final(self).renderer.oam_data@[(old(self).oam_addr + i) % 256]
                    == data@[i],
            final(self).renderer.cycle == old(self).renderer.cycle,
            final(self).renderer.scanline == old(self).renderer.scanline,
            final(self).renderer.dots == old(self).renderer.dots,
            final(self).renderer.frame == old(self).renderer.frame,
            final(self).renderer.secondary_oam == old(self).renderer.secondary_oam,
            final(self).registers == old(self).registers,
            final(self).vram == old(self).vram,
            final(self).chr_rom == old(self).chr_rom,
            final(self).palette_table == old(self).palette_table,
            final(self).internal == old(self).internal,
            final(self).open_bus_value == old(self).open_bus_value,
            final(self).mirroring == old(self).mirroring,
    {
        let ghost addr0 = old(self).oam_addr as int;
        let mut i: usize = 0;
        while i < 256
            invariant
                i <= 256,
                self.wf(),
                data@.len() == 256,
                addr0 == old(self).oam_addr as int,
                self.oam_addr as int == (addr0 + i) % 256,
                forall|k: int|
                    0 <= k < i ==> self.renderer.oam_data@[(addr0 + k) % 256] == data@[k],
                self.renderer.cycle == old(self).renderer.cycle,
                self.renderer.scanline == old(self).renderer.scanline,
                self.renderer.dots == old(self).renderer.dots,
                self.renderer.frame == old(self).renderer.frame,
                self.renderer.secondary_oam == old(self).renderer.secondary_oam,
                self.registers == old(self).registers,
                self.vram == old(self).vram,
                self.chr_rom == old(self).chr_rom,
                self.palette_table == old(self).palette_table,
                self.internal == old(self).internal,
                self.open_bus_value == old(self).open_bus_value,
                self.mirroring == old(self).mirroring,
            decreases 256 - i,
        {
            self.write_oam_data(data[i]);
            proof {
                vstd::arithmetic::div_mod::lemma_fundamental_div_mod(addr0 + i, 256);
                vstd::arithmetic::div_mod::lemma_fundamental_div_mod(addr0 + i + 1, 256);
                assert forall|k: int| 0 <= k < i + 1 implies self.renderer.oam_data@[(addr0 + k)
                    % 256] == data@[k] by {
                    if k < i {
                        assert((addr0 + k) % 256 != (addr0 + i) % 256) by {
                            vstd::arithmetic::div_mod::lemma_fundamental_div_mod(addr0 + k, 256);
                        };
                    }
                }
            }
            i = i + 1;
        }
    }
}

} // verus!
