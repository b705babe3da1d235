//! A CHIP-8 virtual machine, verified.
//!
//! The crate has two parts: a pure decoder that turns a raw 16-bit
//! instruction word into a tagged [`Instruction`] value, and a
//! `VirtualMachine` that owns all architectural state (memory, registers,
//! call stack, timers, display, keypad) and executes decoded instructions
//! one per cycle.  Every instruction's effect on the machine state is stated
//! as a contract over a ghost model of the state and proved.

use vstd::prelude::*;

mod cycle;
mod decode;
mod laws;
mod machine;
mod ops;

pub use cycle::cycle_rel;
pub use cycle::step_rel;
pub use decode::decode;
pub use decode::spec_decode;
pub use decode::Instruction;
pub use laws::lemma_add_with_carry;
pub use laws::lemma_call_return_round_trip;
pub use laws::lemma_key_wait_round_trip;
pub use laws::lemma_sprite_double_draw;
pub use laws::lemma_sub_borrow;
pub use machine::MachineModel;
pub use machine::VirtualMachine;
pub use ops::nth_bit;
pub use ops::spec_nth_bit;

verus! {

/// Size of the machine's memory in bytes.
pub const MEM_SIZE: usize = 4096;

/// Width of the display in pixels.
pub const DISPLAY_WIDTH: usize = 64;

/// Height of the display in pixels.
pub const DISPLAY_HEIGHT: usize = 32;

/// Address at which loaded programs begin; the region below it holds the
/// built-in font sprites.
pub const START_ADDR: u16 = 0x200;

} // verus!
