//! The instruction set: one method per operation, with the exact effect on
//! the machine model stated in each contract.
//!
//! Register indices handed to these methods come from 4-bit instruction
//! fields and are always below 16.  Memory addresses computed from the
//! index register, by contrast, can leave the address space; every such
//! access is bounds-checked, and an out-of-bounds access is fatal: the
//! machine halts permanently, as it does on a failed fetch.

use crate::machine::MachineModel;
use crate::machine::VirtualMachine;
use vstd::prelude::*;

verus! {

/// The bit of `byte` at position `pos`, counting from the most significant
/// bit: position 0 is bit 7, position 7 is bit 0.
pub open spec fn spec_nth_bit(byte: u8, pos: int) -> u8 {
    (byte >> ((7 - pos) as u8)) & 1
}

/// Returns the bit of `byte` at position `pos`, counting from the most
/// significant bit down.
pub fn nth_bit(byte: u8, pos: usize) -> (r: u8)
    requires
        pos < 8,
    ensures
        r == spec_nth_bit(byte, pos as int),
        r <= 1,
{
    let sh: u8 = (7 - pos) as u8;
    let r: u8 = (byte >> sh) & 1;
    proof {
        assert((byte >> sh) & 1 <= 1) by (bit_vector);
    }
    r
}

/// Relies on `rand::random` with the `StandardUniform` distribution: a
/// uniformly distributed random byte.  Nothing is promised of the value;
/// callers state what holds of every outcome.
#[verifier::external_body]
fn random_byte() -> u8 {
    rand::random::<u8>()
}

impl MachineModel {
    /// The state with every display pixel cleared.
    pub open spec fn clear_display(self) -> Self {
        MachineModel { display: Seq::new(2048, |p: int| 0u8), ..self }
    }

    /// The state after a return: the program counter is restored from the
    /// top of the stack and the frame is popped.  A return with an empty
    /// stack is logged and otherwise ignored, so the stack pointer never
    /// underflows.
    pub open spec fn ret_from_subroutine(self) -> Self {
        if self.sp > 0 {
            MachineModel {
                pc: self.stack[self.sp as int - 1],
                sp: (self.sp - 1) as u8,
                ..self
            }
        } else {
            self.log_line("Return with empty stack. Ignoring."@)
        }
    }

    /// The state after a jump.
    pub open spec fn jump_addr(self, addr: u16) -> Self {
        MachineModel { pc: addr, ..self }
    }

    /// The state after a call: the current (post-fetch) program counter is
    /// pushed and execution jumps to `addr`.  With all 16 frames in use the
    /// push is logged and dropped — the jump is still taken — so unrelated
    /// state is never corrupted.
    pub open spec fn call_subroutine(self, addr: u16) -> Self {
        if self.sp < 16 {
            MachineModel {
                stack: self.stack.update(self.sp as int, self.pc),
                sp: (self.sp + 1) as u8,
                pc: addr,
                ..self
            }
        } else {
            MachineModel {
                pc: addr,
                ..self.log_line("Stack out of bounds. Ignoring write."@)
            }
        }
    }

    /// The state with the program counter moved past one instruction when
    /// `cond` holds.
    pub open spec fn skip_if(self, cond: bool) -> Self {
        if cond {
            MachineModel { pc: (self.pc + 2) as u16, ..self }
        } else {
            self
        }
    }

    /// The state with register `x` set to `val`.
    pub open spec fn set_vx(self, x: int, val: u8) -> Self {
        MachineModel { v: self.v.update(x, val), ..self }
    }

    /// The state after the wrapping immediate add: `Vx = (Vx + rhs) mod
    /// 256`, with no carry reported.
    pub open spec fn add_vx_byte(self, x: int, rhs: u8) -> Self {
        self.set_vx(x, ((self.v[x] + rhs) % 256) as u8)
    }

    /// The state after the arithmetic add `Vx += Vy`: VF reports whether
    /// the pre-wrap sum exceeds 255, and `Vx` holds the low 8 bits of the
    /// sum.  VF is written first, so when `x` is 15 the sum wins.
    pub open spec fn add_vx_vy(self, x: int, y: int) -> Self {
        let sum = self.v[x] + self.v[y];
        MachineModel {
            v: self.v.update(15, if sum > 255 { 1u8 } else { 0u8 }).update(
                x,
                (sum % 256) as u8,
            ),
            ..self
        }
    }

    /// The state after the subtract `Vx -= Vy`: VF is 1 exactly when
    /// `Vx > Vy` before the operation, and the result wraps modulo 256.
    /// VF is written first, so when `x` is 15 the difference wins.
    pub open spec fn sub_vx_vy(self, x: int, y: int) -> Self {
        let a = self.v[x];
        let b = self.v[y];
        let diff = if a >= b { (a - b) as u8 } else { (a + 256 - b) as u8 };
        MachineModel {
            v: self.v.update(15, if a > b { 1u8 } else { 0u8 }).update(x, diff),
            ..self
        }
    }

    /// The state after the reverse subtract `Vx = Vy - Vx`: VF is 1 exactly
    /// when `Vy > Vx` before the operation, and the result wraps modulo
    /// 256.
    pub open spec fn subn_vx_vy(self, x: int, y: int) -> Self {
        let a = self.v[x];
        let b = self.v[y];
        let diff = if b >= a { (b - a) as u8 } else { (b + 256 - a) as u8 };
        MachineModel {
            v: self.v.update(15, if b > a { 1u8 } else { 0u8 }).update(x, diff),
            ..self
        }
    }

    /// The state after the shift right `Vx = Vy >> 1`: VF receives the bit
    /// shifted out (bit 0 of `Vy` before the shift).  The source is `Vy`,
    /// not `Vx`.
    pub open spec fn shr_vy_into_vx(self, x: int, y: int) -> Self {
        let b = self.v[y];
        MachineModel {
            v: self.v.update(15, (b % 2) as u8).update(x, (b / 2) as u8),
            ..self
        }
    }

    /// The state after the shift left `Vx = Vy << 1`: VF receives the bit
    /// shifted out (bit 7 of `Vy` before the shift).  The source is `Vy`,
    /// not `Vx`.
    pub open spec fn shl_vy_into_vx(self, x: int, y: int) -> Self {
        let b = self.v[y];
        MachineModel {
            v: self.v.update(15, (b / 128) as u8).update(x, ((b * 2) % 256) as u8),
            ..self
        }
    }

    /// The state with the index register set.
    pub open spec fn set_i(self, to: u16) -> Self {
        MachineModel { i: to, ..self }
    }

    /// The state after the random-AND instruction when the random source
    /// produced `b`: `Vx = b & mask`.
    pub open spec fn rand_masked(self, x: int, mask: u8, b: u8) -> Self {
        self.set_vx(x, b & mask)
    }

    /// The state with the key-wait latch armed for register `x`.
    pub open spec fn wait_for_keypress(self, x: int) -> Self {
        MachineModel { wait_for_key: true, wait_reg: x as u8, ..self }
    }

    /// The state with the delay timer set from register `x`.
    pub open spec fn set_delay_timer(self, x: int) -> Self {
        MachineModel { delay_timer: self.v[x], ..self }
    }

    /// The state with the sound timer set from register `x`.
    pub open spec fn set_sound_timer(self, x: int) -> Self {
        MachineModel { sound_timer: self.v[x], ..self }
    }

    /// The state after `I += Vx`.  The sum is not allowed to wrap: address
    /// arithmetic that overflows the 16-bit index register is fatal.
    pub open spec fn add_vx_to_i(self, x: int) -> Self {
        if self.i + self.v[x] <= 0xFFFF {
            MachineModel { i: (self.i + self.v[x]) as u16, ..self }
        } else {
            MachineModel {
                halt: true,
                ..self.log_line("Index register overflow. Halted."@)
            }
        }
    }

    /// The state with the index register pointing at the font glyph for
    /// digit `Vx`: each glyph is 5 bytes, stored from the base of memory,
    /// so `I = 5 * Vx`.
    pub open spec fn set_i_to_loc_of_digit_vx(self, x: int) -> Self {
        MachineModel { i: (5 * self.v[x]) as u16, ..self }
    }

    /// The state after the BCD store: the hundreds, tens and ones decimal
    /// digits of `Vx` land at `I`, `I+1` and `I+2`.  A write past the end
    /// of memory is fatal.
    pub open spec fn store_bcd_of_vx(self, x: int) -> Self {
        if self.i + 2 < 4096 {
            let num = self.v[x];
            MachineModel {
                ram: self.ram.update(self.i as int, (num / 100) as u8).update(
                    self.i as int + 1,
                    ((num / 10) % 10) as u8,
                ).update(self.i as int + 2, (num % 10) as u8),
                ..self
            }
        } else {
            MachineModel {
                halt: true,
                ..self.log_line("Out of bounds memory write. Halted."@)
            }
        }
    }

    /// The state after the register block store: `V0..=Vx` are copied to
    /// memory starting at `I`, and `I` is advanced by `x + 1` (the
    /// post-increment is part of the instruction's contract).  A write
    /// past the end of memory is fatal.
    pub open spec fn copy_v0_through_vx_to_mem(self, x: int) -> Self {
        if self.i + x + 1 <= 4096 {
            MachineModel {
                ram: Seq::new(
                    4096,
                    |a: int|
                        if self.i <= a <= self.i + x {
                            self.v[a - self.i]
                        } else {
                            self.ram[a]
                        },
                ),
                i: (self.i + x + 1) as u16,
                ..self
            }
        } else {
            MachineModel {
                halt: true,
                ..self.log_line("Out of bounds memory write. Halted."@)
            }
        }
    }

    /// The state after the register block load: `V0..=Vx` are filled from
    /// memory starting at `I`, and `I` is advanced by `x + 1`.  A read
    /// past the end of memory is fatal.
    pub open spec fn read_v0_through_vx_from_mem(self, x: int) -> Self {
        if self.i + x + 1 <= 4096 {
            MachineModel {
                v: Seq::new(
                    16,
                    |j: int| if j <= x { self.ram[self.i + j] } else { self.v[j] },
                ),
                i: (self.i + x + 1) as u16,
                ..self
            }
        } else {
            MachineModel {
                halt: true,
                ..self.log_line("Out of bounds memory read. Halted."@)
            }
        }
    }

    /// Whether sprite bit `j` lands a set pixel on the frame.  Bit `j`
    /// (row-major: row `j / 8`, column `j % 8`) of the sprite read from
    /// memory at `I` is drawn at `(Vx + column, Vy + row)`; it lands only
    /// if it is set and that point lies inside the 64x32 frame (pixels
    /// outside are clipped, not wrapped).
    pub open spec fn sprite_hit(self, vx: int, vy: int, j: int) -> bool {
        let r = j / 8;
        let c = j % 8;
        &&& spec_nth_bit(self.ram[self.i + r], c) == 1
        &&& self.v[vx] + c < 64
        &&& self.v[vy] + r < 32
    }

    /// The display index that sprite bit `j` lands on.
    pub open spec fn sprite_target(self, vx: int, vy: int, j: int) -> int {
        (self.v[vy] + j / 8) * 64 + self.v[vx] + j % 8
    }

    /// The display after the first `k` sprite bits have been drawn: every
    /// pixel hit by one of them is XORed with 1, every other pixel keeps
    /// its value.
    pub open spec fn sprite_partial_display(self, vx: int, vy: int, k: int) -> Seq<u8> {
        Seq::new(
            2048,
            |idx: int|
                if exists|j: int|
                    0 <= j < k && self.sprite_hit(vx, vy, j) && self.sprite_target(
                        vx,
                        vy,
                        j,
                    ) == idx {
                    self.display[idx] ^ 1
                } else {
                    self.display[idx]
                },
        )
    }

    /// Whether one of the first `k` sprite bits lands on a pixel that is
    /// already set: the collision condition reported in VF.
    pub open spec fn sprite_partial_collision(self, vx: int, vy: int, k: int) -> bool {
        exists|j: int|
            0 <= j < k && self.sprite_hit(vx, vy, j) && self.display[self.sprite_target(
                vx,
                vy,
                j,
            )] == 1
    }

    /// The state after drawing the `n`-row sprite at memory `I` at the
    /// point `(Vx, Vy)`: set sprite bits are XORed into the display with
    /// out-of-frame pixels clipped, VF reports whether any pixel went from
    /// set to unset, and the display-updated flag is raised.  A sprite
    /// read past the end of memory is fatal, exactly like a failed fetch.
    pub open spec fn display_sprite(self, vx: int, vy: int, n: int) -> Self {
        if self.i + n > 4096 {
            MachineModel {
                halt: true,
                ..self.log_line("Out of bounds sprite read. Halted."@)
            }
        } else {
            MachineModel {
                v: self.v.update(
                    15,
                    if self.sprite_partial_collision(vx, vy, 8 * n) {
                        1u8
                    } else {
                        0u8
                    },
                ),
                display: self.sprite_partial_display(vx, vy, 8 * n),
                display_updated: true,
                ..self
            }
        }
    }
}

/// Two distinct sprite bits that both land on the frame land on distinct
/// pixels: rows differ by at least one display line, columns stay inside
/// one line.
proof fn lemma_sprite_target_injective(
    m: MachineModel,
    vx: int,
    vy: int,
    j1: int,
    j2: int,
)
    requires
        m.wf(),
        0 <= vx < 16,
        0 <= vy < 16,
        0 <= j1,
        0 <= j2,
        j1 != j2,
        m.sprite_hit(vx, vy, j1),
        m.sprite_hit(vx, vy, j2),
    ensures
        m.sprite_target(vx, vy, j1) != m.sprite_target(vx, vy, j2),
{
    vstd::arithmetic::div_mod::lemma_fundamental_div_mod(j1, 8);
    vstd::arithmetic::div_mod::lemma_fundamental_div_mod(j2, 8);
    vstd::arithmetic::div_mod::lemma_mod_division_less_than_divisor(j1, 8);
    vstd::arithmetic::div_mod::lemma_mod_division_less_than_divisor(j2, 8);
    vstd::arithmetic::div_mod::lemma_div_pos_is_pos(j1, 8);
    vstd::arithmetic::div_mod::lemma_div_pos_is_pos(j2, 8);
    let px1 = m.v[vx] + j1 % 8;
    let py1 = m.v[vy] + j1 / 8;
    let px2 = m.v[vx] + j2 % 8;
    let py2 = m.v[vy] + j2 / 8;
    assert(0 <= px1 < 64 && 0 <= px2 < 64);
    if j1 / 8 == j2 / 8 {
        assert(j1 % 8 != j2 % 8);
        assert(py1 * 64 + px1 != py2 * 64 + px2);
    } else {
        assert(py1 != py2);
        if py1 < py2 {
            assert(py1 * 64 + px1 < (py1 + 1) * 64 <= py2 * 64 + px2);
        } else {
            assert(py2 * 64 + px2 < (py2 + 1) * 64 <= py1 * 64 + px1);
        }
    }
}

/// How drawing one more sprite bit changes the partially drawn display
/// and the collision condition.
proof fn lemma_sprite_step(m: MachineModel, vx: int, vy: int, k: int)
    requires
        m.wf(),
        0 <= vx < 16,
        0 <= vy < 16,
        0 <= k,
    ensures
        m.sprite_hit(vx, vy, k) ==> 0 <= m.sprite_target(vx, vy, k) < 2048,
        m.sprite_hit(vx, vy, k) ==> m.sprite_partial_display(vx, vy, k)[m.sprite_target(
            vx,
            vy,
            k,
        )] == m.display[m.sprite_target(vx, vy, k)],
        m.sprite_hit(vx, vy, k) ==> m.sprite_partial_display(vx, vy, k + 1)
            =~= m.sprite_partial_display(vx, vy, k).update(
            m.sprite_target(vx, vy, k),
            m.display[m.sprite_target(vx, vy, k)] ^ 1,
        ),
        m.sprite_hit(vx, vy, k) ==> (m.sprite_partial_collision(vx, vy, k + 1)
            <==> m.sprite_partial_collision(vx, vy, k) || m.display[m.sprite_target(
            vx,
            vy,
            k,
        )] == 1),
        !m.sprite_hit(vx, vy, k) ==> m.sprite_partial_display(vx, vy, k + 1)
            =~= m.sprite_partial_display(vx, vy, k),
        !m.sprite_hit(vx, vy, k) ==> (m.sprite_partial_collision(vx, vy, k + 1)
            <==> m.sprite_partial_collision(vx, vy, k)),
{
    if m.sprite_hit(vx, vy, k) {
        let t = m.sprite_target(vx, vy, k);
        vstd::arithmetic::div_mod::lemma_mod_division_less_than_divisor(k, 8);
        vstd::arithmetic::div_mod::lemma_div_pos_is_pos(k, 8);
        assert(0 <= t < 2048);
        assert forall|j: int|
            0 <= j < k && m.sprite_hit(vx, vy, j) implies m.sprite_target(vx, vy, j)
            != t by {
            lemma_sprite_target_injective(m, vx, vy, j, k);
        }
        assert(m.sprite_partial_display(vx, vy, k)[t] == m.display[t]);
        assert forall|idx: int| 0 <= idx < 2048 implies m.sprite_partial_display(
            vx,
            vy,
            k + 1,
        )[idx] == m.sprite_partial_display(vx, vy, k).update(
            t,
            m.display[t] ^ 1,
        )[idx] by {
            if idx == t {
                assert(m.sprite_hit(vx, vy, k) && m.sprite_target(vx, vy, k) == idx);
            } else {
                assert forall|j: int|
                    0 <= j < k + 1 && m.sprite_hit(vx, vy, j) && m.sprite_target(
                        vx,
                        vy,
                        j,
                    ) == idx implies 0 <= j < k by {}
            }
        }
        if m.sprite_partial_collision(vx, vy, k + 1) {
            let j = choose|j: int|
                0 <= j < k + 1 && m.sprite_hit(vx, vy, j) && m.display[m.sprite_target(
                    vx,
                    vy,
                    j,
                )] == 1;
            if j < k {
                assert(m.sprite_partial_collision(vx, vy, k));
            }
        }
        if m.sprite_partial_collision(vx, vy, k) || m.display[t] == 1 {
            assert(m.sprite_partial_collision(vx, vy, k + 1));
        }
    } else {
        assert forall|idx: int| 0 <= idx < 2048 implies m.sprite_partial_display(
            vx,
            vy,
            k + 1,
        )[idx] == m.sprite_partial_display(vx, vy, k)[idx] by {
            assert forall|j: int|
                0 <= j < k + 1 && m.sprite_hit(vx, vy, j) && m.sprite_target(
                    vx,
                    vy,
                    j,
                ) == idx implies 0 <= j < k by {}
        }
        if m.sprite_partial_collision(vx, vy, k + 1) {
            let j = choose|j: int|
                0 <= j < k + 1 && m.sprite_hit(vx, vy, j) && m.display[m.sprite_target(
                    vx,
                    vy,
                    j,
                )] == 1;
            assert(0 <= j < k);
            assert(m.sprite_partial_collision(vx, vy, k));
        }
    }
}

impl VirtualMachine {
    /// Jump to a machine code routine: only meaningful on the original
    /// hardware, so it is a deliberate no-op here, never an error.
    pub fn jump_to_sys_routine(&mut self, _addr: usize)
        ensures
            *final(self) == *old(self),
    {
    }

    /// Clears the display.
    pub fn clear_display(&mut self)
        requires
            old(self)@.wf(),
        ensures
            final(self)@.wf(),
            final(self)@ == old(self)@.clear_display(),
    {
        let ghost m0: MachineModel = self@;
        let mut p: usize = 0;
        while p < 2048
            invariant
                m0.wf(),
                p <= 2048,
                self@ == (MachineModel { display: self@.display, ..m0 }),
                self@.display.len() == 2048,
                forall|a: int| 0 <= a < p ==> self@.display[a] == 0u8,
                forall|a: int| p <= a < 2048 ==> self@.display[a] == m0.display[a],
            decreases 2048 - p,
        {
            self.display[p] = 0;
            p += 1;
        }
        proof {
            assert(self@.display =~= m0.clear_display().display);
            assert(self@ =~= m0.clear_display());
        }
    }

    /// Returns from a subroutine: pops the top of the stack into the
    /// program counter.  With an empty stack the return is logged and
    /// ignored.
    pub fn ret_from_subroutine(&mut self)
        requires
            old(self)@.wf(),
        ensures
            final(self)@.wf(),
            final(self)@ == old(self)@.ret_from_subroutine(),
    {
        if self.sp > 0 {
            let idx: usize = (self.sp - 1) as usize;
            self.pc = self.stack[idx];
            self.sp -= 1;
        } else {
            self.log_msg("Return with empty stack. Ignoring.");
        }
    }

    /// Jumps to `addr`.
    pub fn jump_addr(&mut self, addr: u16)
        requires
            old(self)@.wf(),
        ensures
            final(self)@.wf(),
            final(self)@ == old(self)@.jump_addr(addr),
    {
        self.pc = addr;
    }

    /// Calls the subroutine at `addr`: pushes the current program counter
    /// and jumps.  Sixteen nested calls fit; with the stack full the push
    /// is logged and dropped while the jump is still taken.
    pub fn call_subroutine(&mut self, addr: u16)
        requires
            old(self)@.wf(),
        ensures
            final(self)@.wf(),
            final(self)@ == old(self)@.call_subroutine(addr),
    {
        if self.sp < 16 {
            let idx: usize = self.sp as usize;
            self.stack[idx] = self.pc;
            self.sp += 1;
        } else {
            self.log_msg("Stack out of bounds. Ignoring write.");
        }
        self.pc = addr;
    }

    /// Skips the next instruction if `Vx` equals `to`.
    pub fn skip_next_vx_eq(&mut self, x: usize, to: u8)
        requires
            old(self)@.wf(),
            x < 16,
            old(self)@.pc + 2 <= 0xFFFF,
        ensures
            final(self)@.wf(),
            final(self)@ == old(self)@.skip_if(old(self)@.v[x as int] == to),
    {
        if self.v[x] == to {
            self.pc += 2;
        }
    }

    /// Skips the next instruction if `Vx` differs from `to`.
    pub fn skip_next_vx_ne(&mut self, x: usize, to: u8)
        requires
            old(self)@.wf(),
            x < 16,
            old(self)@.pc + 2 <= 0xFFFF,
        ensures
            final(self)@.wf(),
            final(self)@ == old(self)@.skip_if(old(self)@.v[x as int] != to),
    {
        if self.v[x] != to {
            self.pc += 2;
        }
    }

    /// Skips the next instruction if `Vx` equals `Vy`.
    pub fn skip_next_vx_eq_vy(&mut self, x: usize, y: usize)
        requires
            old(self)@.wf(),
            x < 16,
            y < 16,
            old(self)@.pc + 2 <= 0xFFFF,
        ensures
            final(self)@.wf(),
            final(self)@ == old(self)@.skip_if(old(self)@.v[x as int] == old(self)@.v[y as int]),
    {
        if self.v[x] == self.v[y] {
            self.pc += 2;
        }
    }

    /// Skips the next instruction if `Vx` differs from `Vy`.
    pub fn skip_next_vx_ne_vy(&mut self, x: usize, y: usize)
        requires
            old(self)@.wf(),
            x < 16,
            y < 16,
            old(self)@.pc + 2 <= 0xFFFF,
        ensures
            final(self)@.wf(),
            final(self)@ == old(self)@.skip_if(old(self)@.v[x as int] != old(self)@.v[y as int]),
    {
        if self.v[x] != self.v[y] {
            self.pc += 2;
        }
    }

    /// Sets `Vx` to an immediate byte.
    pub fn set_vx_byte(&mut self, x: usize, byte: u8)
        requires
            old(self)@.wf(),
            x < 16,
        ensures
            final(self)@.wf(),
            final(self)@ == old(self)@.set_vx(x as int, byte),
    {
        self.v[x] = byte;
    }

    /// Adds an immediate byte to `Vx`, wrapping modulo 256; no carry is
    /// reported.
    pub fn add_vx_byte(&mut self, x: usize, byte: u8)
        requires
            old(self)@.wf(),
            x < 16,
        ensures
            final(self)@.wf(),
            final(self)@ == old(self)@.add_vx_byte(x as int, byte),
    {
        let sum: u16 = self.v[x] as u16 + byte as u16;
        self.v[x] = (sum % 256) as u8;
    }

    /// Sets `Vx` to `Vy`.
    pub fn set_vx_to_vy(&mut self, x: usize, y: usize)
        requires
            old(self)@.wf(),
            x < 16,
            y < 16,
        ensures
            final(self)@.wf(),
            final(self)@ == old(self)@.set_vx(x as int, old(self)@.v[y as int]),
    {
        self.v[x] = self.v[y];
    }

    /// Sets `Vx` to `Vx | Vy`.
    pub fn set_vx_to_vx_or_vy(&mut self, x: usize, y: usize)
        requires
            old(self)@.wf(),
            x < 16,
            y < 16,
        ensures
            final(self)@.wf(),
            final(self)@ == old(self)@.set_vx(
                x as int,
                old(self)@.v[x as int] | old(self)@.v[y as int],
            ),
    {
        self.v[x] = self.v[x] | self.v[y];
    }

    /// Sets `Vx` to `Vx & Vy`.
    pub fn set_vx_to_vx_and_vy(&mut self, x: usize, y: usize)
        requires
            old(self)@.wf(),
            x < 16,
            y < 16,
        ensures
            final(self)@.wf(),
            final(self)@ == old(self)@.set_vx(
                x as int,
                old(self)@.v[x as int] & old(self)@.v[y as int],
            ),
    {
        self.v[x] = self.v[x] & self.v[y];
    }

    /// Sets `Vx` to `Vx ^ Vy`.
    pub fn set_vx_to_vx_xor_vy(&mut self, x: usize, y: usize)
        requires
            old(self)@.wf(),
            x < 16,
            y < 16,
        ensures
            final(self)@.wf(),
            final(self)@ == old(self)@.set_vx(
                x as int,
                old(self)@.v[x as int] ^ old(self)@.v[y as int],
            ),
    {
        self.v[x] = self.v[x] ^ self.v[y];
    }

    /// Adds `Vy` to `Vx`: VF reports the carry out of the 9-bit sum, `Vx`
    /// takes the low 8 bits.
    pub fn add_vx_vy(&mut self, x: usize, y: usize)
        requires
            old(self)@.wf(),
            x < 16,
            y < 16,
        ensures
            final(self)@.wf(),
            final(self)@ == old(self)@.add_vx_vy(x as int, y as int),
    {
        let sum: u16 = self.v[x] as u16 + self.v[y] as u16;
        self.v[15] = if sum > 255 {
            1
        } else {
            0
        };
        self.v[x] = (sum % 256) as u8;
    }

    /// Subtracts `Vy` from `Vx`: VF is 1 exactly when `Vx > Vy` before the
    /// operation; the result wraps.
    pub fn sub_vx_vy(&mut self, x: usize, y: usize)
        requires
            old(self)@.wf(),
            x < 16,
            y < 16,
        ensures
            final(self)@.wf(),
            final(self)@ == old(self)@.sub_vx_vy(x as int, y as int),
    {
        let a: u8 = self.v[x];
        let b: u8 = self.v[y];
        self.v[15] = if a > b {
            1
        } else {
            0
        };
        self.v[x] = if a >= b {
            a - b
        } else {
            ((a as u16 + 256) - b as u16) as u8
        };
    }

    /// Sets `Vx = Vy - Vx`: VF is 1 exactly when `Vy > Vx` before the
    /// operation; the result wraps.
    pub fn subn_vx_vy(&mut self, x: usize, y: usize)
        requires
            old(self)@.wf(),
            x < 16,
            y < 16,
        ensures
            final(self)@.wf(),
            final(self)@ == old(self)@.subn_vx_vy(x as int, y as int),
    {
        let a: u8 = self.v[x];
        let b: u8 = self.v[y];
        self.v[15] = if b > a {
            1
        } else {
            0
        };
        self.v[x] = if b >= a {
            b - a
        } else {
            ((b as u16 + 256) - a as u16) as u8
        };
    }

    /// Shifts `Vy` right by one into `Vx`: VF receives bit 0 of `Vy`.
    pub fn set_vx_to_vy_shr_1(&mut self, x: usize, y: usize)
        requires
            old(self)@.wf(),
            x < 16,
            y < 16,
        ensures
            final(self)@.wf(),
            final(self)@ == old(self)@.shr_vy_into_vx(x as int, y as int),
    {
        let b: u8 = self.v[y];
        let flag: u8 = nth_bit(b, 7);
        proof {
            assert((b >> 0u8) & 1 == b % 2) by (bit_vector);
            assert(b >> 1u8 == b / 2) by (bit_vector);
        }
        self.v[15] = flag;
        self.v[x] = b >> 1u8;
    }

    /// Shifts `Vy` left by one into `Vx`: VF receives bit 7 of `Vy`.
    pub fn set_vx_to_vy_shl_1(&mut self, x: usize, y: usize)
        requires
            old(self)@.wf(),
            x < 16,
            y < 16,
        ensures
            final(self)@.wf(),
            final(self)@ == old(self)@.shl_vy_into_vx(x as int, y as int),
    {
        let b: u8 = self.v[y];
        let flag: u8 = nth_bit(b, 0);
        proof {
            assert((b >> 7u8) & 1 == b / 128) by (bit_vector);
            assert(b << 1u8 == (b * 2) % 256) by (bit_vector);
        }
        self.v[15] = flag;
        self.v[x] = b << 1u8;
    }

    /// Sets the index register.
    pub fn set_i(&mut self, to: u16)
        requires
            old(self)@.wf(),
        ensures
            final(self)@.wf(),
            final(self)@ == old(self)@.set_i(to),
    {
        self.i = to;
    }

    /// Sets `Vx` to a random byte ANDed with `to`.  The random source is
    /// uniform over 0..=255 and otherwise opaque; whatever it produced,
    /// the result carries no bit outside the mask.
    pub fn set_vx_rand_and(&mut self, x: usize, to: u8)
        requires
            old(self)@.wf(),
            x < 16,
        ensures
            final(self)@.wf(),
            exists|b: u8| final(self)@ == old(self)@.rand_masked(x as int, to, b),
    {
        let b: u8 = random_byte();
        self.v[x] = b & to;
        proof {
            assert(self@ == old(self)@.rand_masked(x as int, to, b));
        }
    }

    /// Skips the next instruction if the key named by the low nibble of
    /// `Vx` is not pressed.
    pub fn skip_next_key_vx_not_pressed(&mut self, x: usize)
        requires
            old(self)@.wf(),
            x < 16,
            old(self)@.pc + 2 <= 0xFFFF,
        ensures
            final(self)@.wf(),
            final(self)@ == old(self)@.skip_if(
                !old(self)@.keys[old(self)@.v[x as int] as int % 16],
            ),
    {
        let k: usize = (self.v[x] % 16) as usize;
        if !self.keys[k] {
            self.pc += 2;
        }
    }

    /// Skips the next instruction if the key named by the low nibble of
    /// `Vx` is pressed.
    pub fn skip_next_key_vx_pressed(&mut self, x: usize)
        requires
            old(self)@.wf(),
            x < 16,
            old(self)@.pc + 2 <= 0xFFFF,
        ensures
            final(self)@.wf(),
            final(self)@ == old(self)@.skip_if(
                old(self)@.keys[old(self)@.v[x as int] as int % 16],
            ),
    {
        let k: usize = (self.v[x] % 16) as usize;
        if self.keys[k] {
            self.pc += 2;
        }
    }

    /// Sets `Vx` from the delay timer.
    pub fn set_vx_to_delay_timer(&mut self, x: usize)
        requires
            old(self)@.wf(),
            x < 16,
        ensures
            final(self)@.wf(),
            final(self)@ == old(self)@.set_vx(x as int, old(self)@.delay_timer),
    {
        self.v[x] = self.delay_timer;
    }

    /// Arms the key-wait latch for register `x`: no further cycles execute
    /// until a key press resolves the wait.  The calling thread is never
    /// blocked.
    pub fn wait_for_keypress_store_in_vx(&mut self, x: usize)
        requires
            old(self)@.wf(),
            x < 16,
        ensures
            final(self)@.wf(),
            final(self)@ == old(self)@.wait_for_keypress(x as int),
    {
        self.wait_for_key = true;
        self.wait_reg = x as u8;
    }

    /// Sets the delay timer from `Vx`.
    pub fn set_delay_timer(&mut self, x: usize)
        requires
            old(self)@.wf(),
            x < 16,
        ensures
            final(self)@.wf(),
            final(self)@ == old(self)@.set_delay_timer(x as int),
    {
        self.delay_timer = self.v[x];
    }

    /// Sets the sound timer from `Vx`.
    pub fn set_sound_timer(&mut self, x: usize)
        requires
            old(self)@.wf(),
            x < 16,
        ensures
            final(self)@.wf(),
            final(self)@ == old(self)@.set_sound_timer(x as int),
    {
        self.sound_timer = self.v[x];
    }

    /// Adds `Vx` to the index register.  Overflow of the 16-bit register
    /// is fatal rather than silently wrapped: addresses wrap nowhere
    /// outside the documented register arithmetic.
    pub fn add_vx_to_i(&mut self, x: usize)
        requires
            old(self)@.wf(),
            x < 16,
        ensures
            final(self)@.wf(),
            final(self)@ == old(self)@.add_vx_to_i(x as int),
    {
        let sum: u32 = self.i as u32 + self.v[x] as u32;
        if sum <= 0xFFFF {
            self.i = sum as u16;
        } else {
            self.halt = true;
            self.log_msg("Index register overflow. Halted.");
        }
    }

    /// Points the index register at the font glyph for digit `Vx`:
    /// `I = 5 * Vx`.
    pub fn set_i_to_loc_of_digit_vx(&mut self, x: usize)
        requires
            old(self)@.wf(),
            x < 16,
        ensures
            final(self)@.wf(),
            final(self)@ == old(self)@.set_i_to_loc_of_digit_vx(x as int),
    {
        self.i = 5 * self.v[x] as u16;
    }

    /// Stores the BCD digits of `Vx` at `I`, `I+1` and `I+2`.  A write
    /// past the end of memory is fatal.
    pub fn store_bcd_of_vx_to_i(&mut self, x: usize)
        requires
            old(self)@.wf(),
            x < 16,
        ensures
            final(self)@.wf(),
            final(self)@ == old(self)@.store_bcd_of_vx(x as int),
    {
        if self.i <= 4093 {
            let num: u8 = self.v[x];
            let base: usize = self.i as usize;
            self.ram[base] = num / 100;
            self.ram[base + 1] = (num / 10) % 10;
            self.ram[base + 2] = num % 10;
        } else {
            self.halt = true;
            self.log_msg("Out of bounds memory write. Halted.");
        }
    }

    /// Copies `V0..=Vx` to memory starting at `I`, advancing `I` by
    /// `x + 1`.  A write past the end of memory is fatal.
    pub fn copy_v0_through_vx_to_mem(&mut self, x: u16)
        requires
            old(self)@.wf(),
            x < 16,
        ensures
            final(self)@.wf(),
            final(self)@ == old(self)@.copy_v0_through_vx_to_mem(x as int),
    {
        if self.i as usize + x as usize + 1 <= 4096 {
            let ghost m0: MachineModel = self@;
            let base: usize = self.i as usize;
            let mut pos: usize = 0;
            while pos <= x as usize
                invariant
                    m0.wf(),
                    x < 16,
                    pos <= x + 1,
                    base == m0.i,
                    base + x + 1 <= 4096,
                    self@ == (MachineModel { ram: self@.ram, ..m0 }),
                    self@.ram.len() == 4096,
                    forall|a: int|
                        base <= a < base + pos ==> self@.ram[a] == m0.v[a - base],
                    forall|a: int|
                        0 <= a < 4096 && !(base <= a < base + pos) ==> self@.ram[a]
                            == m0.ram[a],
                decreases x + 1 - pos,
            {
                self.ram[base + pos] = self.v[pos];
                pos += 1;
            }
            self.i = self.i + x + 1;
            proof {
                assert(self@.ram =~= m0.copy_v0_through_vx_to_mem(x as int).ram);
                assert(self@ =~= m0.copy_v0_through_vx_to_mem(x as int));
            }
        } else {
            self.halt = true;
            self.log_msg("Out of bounds memory write. Halted.");
        }
    }

    /// Fills `V0..=Vx` from memory starting at `I`, advancing `I` by
    /// `x + 1`.  A read past the end of memory is fatal.
    pub fn read_v0_through_vx_from_mem(&mut self, x: u16)
        requires
            old(self)@.wf(),
            x < 16,
        ensures
            final(self)@.wf(),
            final(self)@ == old(self)@.read_v0_through_vx_from_mem(x as int),
    {
        if self.i as usize + x as usize + 1 <= 4096 {
            let ghost m0: MachineModel = self@;
            let base: usize = self.i as usize;
            let mut pos: usize = 0;
            while pos <= x as usize
                invariant
                    m0.wf(),
                    x < 16,
                    pos <= x + 1,
                    base == m0.i,
                    base + x + 1 <= 4096,
                    self@ == (MachineModel { v: self@.v, ..m0 }),
                    self@.v.len() == 16,
                    forall|j: int| 0 <= j < pos ==> self@.v[j] == m0.ram[base + j],
                    forall|j: int| pos <= j < 16 ==> self@.v[j] == m0.v[j],
                decreases x + 1 - pos,
            {
                self.v[pos] = self.ram[base + pos];
                pos += 1;
            }
            self.i = self.i + x + 1;
            proof {
                assert(self@.v =~= m0.read_v0_through_vx_from_mem(x as int).v);
                assert(self@ =~= m0.read_v0_through_vx_from_mem(x as int));
            }
        } else {
            self.halt = true;
            self.log_msg("Out of bounds memory read. Halted.");
        }
    }

    /// Draws the `n`-row sprite at memory `I` at the point `(Vx, Vy)`.
    /// Set sprite bits are XORed into the display; pixels falling outside
    /// the 64x32 frame are clipped.  VF is set to 1 exactly when some
    /// pixel goes from set to unset, computed once for the whole draw.
    /// A sprite read past the end of memory is fatal.
    pub fn display_sprite(&mut self, vx: usize, vy: usize, n: usize)
        requires
            old(self)@.wf(),
            vx < 16,
            vy < 16,
            n <= 15,
        ensures
            final(self)@.wf(),
            final(self)@ == old(self)@.display_sprite(vx as int, vy as int, n as int),
    {
        if self.i as usize + n > 4096 {
            self.halt = true;
            self.log_msg("Out of bounds sprite read. Halted.");
            return;
        }
        let ghost m0: MachineModel = self@;
        let x0: usize = self.v[vx] as usize;
        let y0: usize = self.v[vy] as usize;
        let mut collision: bool = false;
        let mut k: usize = 0;
        proof {
            assert(m0.sprite_partial_display(vx as int, vy as int, 0) =~= m0.display);
        }
        while k < 8 * n
            invariant
                m0.wf(),
                vx < 16,
                vy < 16,
                n <= 15,
                m0.i + n <= 4096,
                x0 == m0.v[vx as int],
                y0 == m0.v[vy as int],
                k <= 8 * n,
                self@ == (MachineModel { display: self@.display, ..m0 }),
                self@.display == m0.sprite_partial_display(vx as int, vy as int, k as int),
                collision == m0.sprite_partial_collision(vx as int, vy as int, k as int),
            decreases 8 * n - k,
        {
            proof {
                vstd::arithmetic::div_mod::lemma_multiply_divide_lt(k as int, 8, n as int);
                vstd::arithmetic::div_mod::lemma_mod_division_less_than_divisor(k as int, 8);
                vstd::arithmetic::div_mod::lemma_div_pos_is_pos(k as int, 8);
                lemma_sprite_step(m0, vx as int, vy as int, k as int);
            }
            let r: usize = k / 8;
            let c: usize = k % 8;
            let b: u8 = self.ram[self.i as usize + r];
            let bit: u8 = nth_bit(b, c);
            if bit == 1 && x0 + c < 64 && y0 + r < 32 {
                let idx: usize = (y0 + r) * 64 + (x0 + c);
                proof {
                    assert(m0.sprite_hit(vx as int, vy as int, k as int));
                    assert(m0.sprite_target(vx as int, vy as int, k as int) == idx);
                }
                let cur: u8 = self.display[idx];
                if cur == 1 {
                    collision = true;
                }
                self.display[idx] = cur ^ 1;
            } else {
                proof {
                    assert(!m0.sprite_hit(vx as int, vy as int, k as int));
                }
            }
            k += 1;
        }
        self.v[15] = if collision {
            1
        } else {
            0
        };
        self.display_updated = true;
        proof {
            assert(0u8 ^ 1u8 == 1u8) by (bit_vector);
            assert(1u8 ^ 1u8 == 0u8) by (bit_vector);
            assert(self@ =~= m0.display_sprite(vx as int, vy as int, n as int));
        }
    }
}

} // verus!
