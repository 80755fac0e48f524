//! The PPU control register ($2000).
use vstd::prelude::*;

verus! {

/// Bit of the control register that selects the VRAM address increment.
pub const VRAM_ADD_INCREMENT: u8 = 0b0000_0100;

/// The step by which the PPU address advances after each data access,
/// given the control bits: 32 (one row down) when bit 2 is set, else 1.
pub open spec fn increment_for(bits: u8) -> u8 {
    if bits & VRAM_ADD_INCREMENT != 0 {
        32
    } else {
        1
    }
}

/// The PPU control register: a plain byte of flags.
pub struct ControlRegister {
    bits: u8,
}

impl View for ControlRegister {
    type V = u8;

    closed spec fn view(&self) -> u8 {
        self.bits
    }
}

impl ControlRegister {
    /// A control register with every flag clear.
    pub fn new() -> (r: Self)
        ensures
            r@ == 0,
    {
        ControlRegister { bits: 0 }
    }

    /// Replaces all the flags with `data`.
    pub fn update(&mut self, data: u8)
        ensures
            final(self)@ == data,
    {
        self.bits = data;
    }

    /// The step by which the PPU address advances after a data access.
    pub fn vram_addr_increment(&self) -> (inc: u8)
        ensures
            inc == increment_for(self@),
    {
        if self.bits & VRAM_ADD_INCREMENT != 0 {
            32
        } else {
            1
        }
    }
}

} // verus!
