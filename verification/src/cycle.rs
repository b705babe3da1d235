//! The fetch–decode–execute cycle.
//!
//! [`step_rel`] states, instruction by instruction, how executing one
//! decoded instruction relates the machine state before it to the state
//! after it; [`cycle_rel`] wraps it with the fetch: a halted or waiting
//! machine does nothing, a fetch from past the last valid two-byte window
//! halts the machine, and otherwise the word at the program counter is
//! decoded and executed with the counter already advanced past it.

use crate::decode::decode;
use crate::decode::lemma_decode_operands_in_range;
use crate::decode::spec_decode;
use crate::decode::Instruction;
use crate::machine::MachineModel;
use crate::machine::VirtualMachine;
use vstd::prelude::*;

verus! {

/// How executing `ins` once relates the pre-state to the post-state.
/// Every instruction except the random one determines the post-state
/// exactly; the random one fixes everything except which byte the source
/// produced.
pub open spec fn step_rel(pre: MachineModel, ins: Instruction, post: MachineModel) -> bool {
    match ins {
        Instruction::ClearDisplay => post == pre.clear_display(),
        Instruction::Return => post == pre.ret_from_subroutine(),
        Instruction::JumpToSysRoutine { .. } => post == pre,
        Instruction::JumpToAddress { addr } => post == pre.jump_addr(addr),
        Instruction::CallSubroutine { addr } => post == pre.call_subroutine(addr),
        Instruction::SkipNextVxEq { x, cmp_with } => post == pre.skip_if(
            pre.v[x as int] == cmp_with,
        ),
        Instruction::SkipNextVxNe { x, cmp_with } => post == pre.skip_if(
            pre.v[x as int] != cmp_with,
        ),
        Instruction::SkipNextVxEqVy { x, y } => post == pre.skip_if(
            pre.v[x as int] == pre.v[y as int],
        ),
        Instruction::SetVxByte { x, to } => post == pre.set_vx(x as int, to),
        Instruction::AddVxByte { x, rhs } => post == pre.add_vx_byte(x as int, rhs),
        Instruction::SetVxToVy { x, y } => post == pre.set_vx(x as int, pre.v[y as int]),
        Instruction::SetVxToVxOrVy { x, y } => post == pre.set_vx(
            x as int,
            pre.v[x as int] | pre.v[y as int],
        ),
        Instruction::SetVxToVxAndVy { x, y } => post == pre.set_vx(
            x as int,
            pre.v[x as int] & pre.v[y as int],
        ),
        Instruction::SetVxToVxXorVy { x, y } => post == pre.set_vx(
            x as int,
            pre.v[x as int] ^ pre.v[y as int],
        ),
        Instruction::AddVxVy { x, y } => post == pre.add_vx_vy(x as int, y as int),
        Instruction::SubVxVy { x, y } => post == pre.sub_vx_vy(x as int, y as int),
        Instruction::SetVxToVyShr1 { x, y } => post == pre.shr_vy_into_vx(x as int, y as int),
        Instruction::SubnVxVy { x, y } => post == pre.subn_vx_vy(x as int, y as int),
        Instruction::SetVxToVyShl1 { x, y } => post == pre.shl_vy_into_vx(x as int, y as int),
        Instruction::SkipNextVxNeVy { x, y } => post == pre.skip_if(
            pre.v[x as int] != pre.v[y as int],
        ),
        Instruction::SetI { to } => post == pre.set_i(to),
        Instruction::SetVxRandAnd { x, and } => exists|b: u8|
            post == pre.rand_masked(x as int, and, b),
        Instruction::DisplaySprite { x, y, n } => post == pre.display_sprite(
            x as int,
            y as int,
            n as int,
        ),
        Instruction::SkipNextKeyVxNotPressed { x } => post == pre.skip_if(
            !pre.keys[pre.v[x as int] as int % 16],
        ),
        Instruction::SkipNextKeyVxPressed { x } => post == pre.skip_if(
            pre.keys[pre.v[x as int] as int % 16],
        ),
        Instruction::SetVxToDelayTimer { x } => post == pre.set_vx(x as int, pre.delay_timer),
        Instruction::WaitForKeypressStoreInVx { x } => post == pre.wait_for_keypress(x as int),
        Instruction::SetDelayTimer { x } => post == pre.set_delay_timer(x as int),
        Instruction::SetSoundTimer { x } => post == pre.set_sound_timer(x as int),
        Instruction::AddVxToI { x } => post == pre.add_vx_to_i(x as int),
        Instruction::SetIToLocOfDigitVx { x } => post == pre.set_i_to_loc_of_digit_vx(x as int),
        Instruction::StoreBcdOfVxToI { x } => post == pre.store_bcd_of_vx(x as int),
        Instruction::CopyV0ThroughVxToMem { x } => post == pre.copy_v0_through_vx_to_mem(
            x as int,
        ),
        Instruction::ReadV0ThroughVxFromMem { x } => post == pre.read_v0_through_vx_from_mem(
            x as int,
        ),
        Instruction::Unknown => post == pre.log_line("Unknown instruction."@),
    }
}

/// How one call of `do_cycle` relates the machine state before it to the
/// state after it.  A halted or key-waiting machine executes nothing; a
/// program counter past the last valid two-byte window makes the fetch
/// fail fatally; otherwise the fetched word is executed with the program
/// counter already advanced by two.
pub open spec fn cycle_rel(pre: MachineModel, post: MachineModel) -> bool {
    if pre.halt || pre.wait_for_key {
        post == pre
    } else if pre.pc > 4094 {
        post == pre.fetch_fail()
    } else {
        step_rel(
            (MachineModel { pc: (pre.pc + 2) as u16, ..pre }),
            spec_decode(pre.word_at()),
            post,
        )
    }
}

impl VirtualMachine {
    /// Decodes `ins` and executes it.  An unrecognized word is logged and
    /// otherwise does nothing, so decoding and execution are total.
    fn dispatch(&mut self, ins: u16)
        requires
            old(self)@.wf(),
            old(self)@.pc + 2 <= 0xFFFF,
        ensures
            final(self)@.wf(),
            step_rel(old(self)@, spec_decode(ins), final(self)@),
    {
        proof {
            lemma_decode_operands_in_range(ins);
        }
        match decode(ins) {
            Instruction::ClearDisplay => self.clear_display(),
            Instruction::Return => self.ret_from_subroutine(),
            Instruction::JumpToSysRoutine { addr } => self.jump_to_sys_routine(addr as usize),
            Instruction::JumpToAddress { addr } => self.jump_addr(addr),
            Instruction::CallSubroutine { addr } => self.call_subroutine(addr),
            Instruction::SkipNextVxEq { x, cmp_with } => self.skip_next_vx_eq(
                x as usize,
                cmp_with,
            ),
            Instruction::SkipNextVxNe { x, cmp_with } => self.skip_next_vx_ne(
                x as usize,
                cmp_with,
            ),
            Instruction::SkipNextVxEqVy { x, y } => self.skip_next_vx_eq_vy(
                x as usize,
                y as usize,
            ),
            Instruction::SetVxByte { x, to } => self.set_vx_byte(x as usize, to),
            Instruction::AddVxByte { x, rhs } => self.add_vx_byte(x as usize, rhs),
            Instruction::SetVxToVy { x, y } => self.set_vx_to_vy(x as usize, y as usize),
            Instruction::SetVxToVxOrVy { x, y } => self.set_vx_to_vx_or_vy(
                x as usize,
                y as usize,
            ),
            Instruction::SetVxToVxAndVy { x, y } => self.set_vx_to_vx_and_vy(
                x as usize,
                y as usize,
            ),
            Instruction::SetVxToVxXorVy { x, y } => self.set_vx_to_vx_xor_vy(
                x as usize,
                y as usize,
            ),
            Instruction::AddVxVy { x, y } => self.add_vx_vy(x as usize, y as usize),
            Instruction::SubVxVy { x, y } => self.sub_vx_vy(x as usize, y as usize),
            Instruction::SetVxToVyShr1 { x, y } => self.set_vx_to_vy_shr_1(
                x as usize,
                y as usize,
            ),
            Instruction::SubnVxVy { x, y } => self.subn_vx_vy(x as usize, y as usize),
            Instruction::SetVxToVyShl1 { x, y } => self.set_vx_to_vy_shl_1(
                x as usize,
                y as usize,
            ),
            Instruction::SkipNextVxNeVy { x, y } => self.skip_next_vx_ne_vy(
                x as usize,
                y as usize,
            ),
            Instruction::SetI { to } => self.set_i(to),
            Instruction::SetVxRandAnd { x, and } => self.set_vx_rand_and(x as usize, and),
            Instruction::DisplaySprite { x, y, n } => self.display_sprite(
                x as usize,
                y as usize,
                n as usize,
            ),
            Instruction::SkipNextKeyVxNotPressed { x } => self.skip_next_key_vx_not_pressed(
                x as usize,
            ),
            Instruction::SkipNextKeyVxPressed { x } => self.skip_next_key_vx_pressed(
                x as usize,
            ),
            Instruction::SetVxToDelayTimer { x } => self.set_vx_to_delay_timer(x as usize),
            Instruction::WaitForKeypressStoreInVx { x } => self.wait_for_keypress_store_in_vx(
                x as usize,
            ),
            Instruction::SetDelayTimer { x } => self.set_delay_timer(x as usize),
            Instruction::SetSoundTimer { x } => self.set_sound_timer(x as usize),
            Instruction::AddVxToI { x } => self.add_vx_to_i(x as usize),
            Instruction::SetIToLocOfDigitVx { x } => self.set_i_to_loc_of_digit_vx(x as usize),
            Instruction::StoreBcdOfVxToI { x } => self.store_bcd_of_vx_to_i(x as usize),
            Instruction::CopyV0ThroughVxToMem { x } => self.copy_v0_through_vx_to_mem(
                x as u16,
            ),
            Instruction::ReadV0ThroughVxFromMem { x } => self.read_v0_through_vx_from_mem(
                x as u16,
            ),
            Instruction::Unknown => self.log_msg("Unknown instruction."),
        }
    }

    /// Does one interpretation cycle.  A halted or key-waiting machine
    /// does nothing; otherwise the two-byte big-endian word at the program
    /// counter is fetched, the counter advances by two, and the decoded
    /// instruction executes.  A fetch from past the last valid window
    /// halts the machine permanently instead.
    pub fn do_cycle(&mut self)
        requires
            old(self)@.wf(),
        ensures
            final(self)@.wf(),
            cycle_rel(old(self)@, final(self)@),
    {
        if self.halt || self.wait_for_key {
            return;
        }
        let ins: u16 = self.get_ins();
        if self.halt {
            return;
        }
        self.pc += 2;
        self.dispatch(ins);
    }
}

} // verus!
