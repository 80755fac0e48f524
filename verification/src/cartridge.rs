//! The cartridge contents the bus is built from.
use vstd::prelude::*;

verus! {

/// How the two physical name tables are mirrored into the PPU's four
/// logical name tables.
#[derive(Clone, Copy, Debug, PartialEq, Eq, Structural)]
pub enum Mirroring {
    Vertical,
    Horizontal,
    FourScreen,
}

/// A loaded cartridge: program ROM, character ROM and the name-table
/// mirroring wired on the board.
pub struct Rom {
    pub prg_rom: Vec<u8>,
    pub chr_rom: Vec<u8>,
    pub screen_mirroring: Mirroring,
}

} // verus!
