//! A CHIP-8 interpreter: opcode decoding, the instruction set, memory, call stack and
//! display, each with a contract over the mathematical machine state in `state`.
use vstd::prelude::*;

pub mod audio;
pub mod cpu;
pub mod display;
pub mod instruction;
pub mod laws;
pub mod memory;
pub mod nibbles;
pub mod registers;
pub mod stack;
pub mod state;

verus! {

} // verus!
