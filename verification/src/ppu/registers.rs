//! The eight architectural PPU registers gathered in one place.

use vstd::prelude::*;

use super::address_register::AddressRegister;
use super::control_register::ControlRegister;
use super::mask_register::MaskRegister;
use super::scroll_register::ScrollRegister;
use super::status_register::StatusRegister;

verus! {

pub struct Registers {
    pub ctrl: ControlRegister,  // 0x2000
    pub mask: MaskRegister,  // 0x2001
    pub status: StatusRegister,  // 0x2002
    pub scroll: ScrollRegister,  // 0x2005
    pub addr: AddressRegister,  // 0x2006
}

impl Registers {
    pub fn new() -> (r: Registers)
        ensures
            r.ctrl.0 == 0,
            r.mask.0 == 0,
            r.status.0 == 0b1000_0000,
            r.scroll.x.data == 0,
            r.scroll.y.data == 0,
            r.scroll.latch == false,
            r.addr.value == 0,
            r.addr.high_pointer == true,
    {
        Registers {
            ctrl: ControlRegister::new(),
            mask: MaskRegister::new(),
            status: StatusRegister::new(),
            scroll: ScrollRegister::new(),
            addr: AddressRegister::new(),
        }
    }
}

} // verus!
