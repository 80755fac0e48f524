//! A 6502 (NES) CPU core with its memory bus and picture-processing unit,
//! verified with Verus.
use vstd::prelude::*;

pub mod addr_register;
pub mod bus;
pub mod cartridge;
pub mod control_register;
pub mod cpu;
pub mod opcodes;
pub mod ppu;
pub mod semantics;

verus! {

} // verus!
