//! Laws of the instruction set that relate several operations or hold for
//! all inputs, stated over the machine model and proved once and for all.

use crate::cycle::cycle_rel;
use crate::machine::MachineModel;
use vstd::prelude::*;

verus! {

/// Add with carry: for every pair of registers, the arithmetic add leaves
/// `(Vx + Vy) mod 256` in `Vx` and sets VF to 1 exactly when the pre-wrap
/// sum exceeds 255.  Register 15 is excluded as the destination, since VF
/// itself carries the flag there.
pub proof fn lemma_add_with_carry(m: MachineModel, x: int, y: int)
    requires
        m.wf(),
        0 <= x < 15,
        0 <= y < 16,
    ensures
        m.add_vx_vy(x, y).v[x] == (m.v[x] + m.v[y]) % 256,
        m.add_vx_vy(x, y).v[15] == 1 <==> m.v[x] + m.v[y] > 255,
        m.add_vx_vy(x, y).v[15] == 0 <==> m.v[x] + m.v[y] <= 255,
{
}

/// Subtract with borrow flag: for every pair of registers, the subtract
/// leaves `(Vx - Vy) mod 256` in `Vx` and sets VF to 1 exactly when
/// `Vx > Vy` before the operation.  Register 15 is excluded as the
/// destination, since VF itself carries the flag there.
pub proof fn lemma_sub_borrow(m: MachineModel, x: int, y: int)
    requires
        m.wf(),
        0 <= x < 15,
        0 <= y < 16,
    ensures
        m.sub_vx_vy(x, y).v[x] == (m.v[x] - m.v[y]) % 256,
        m.sub_vx_vy(x, y).v[15] == 1 <==> m.v[x] > m.v[y],
        m.sub_vx_vy(x, y).v[15] == 0 <==> m.v[x] <= m.v[y],
{
    let a = m.v[x] as int;
    let b = m.v[y] as int;
    if a >= b {
        assert((a - b) % 256 == a - b);
    } else {
        assert((a - b) % 256 == a - b + 256);
    }
}

/// Drawing the same sprite at the same location twice restores the
/// pre-draw display exactly, and the second draw reports a collision
/// precisely when some landing sprite bit found its pixel set — that is,
/// when the first draw had turned that pixel on from off.  The coordinate
/// registers are excluded from being VF, which the draw overwrites.
pub proof fn lemma_sprite_double_draw(m: MachineModel, vx: int, vy: int, n: int)
    requires
        m.wf(),
        0 <= vx < 15,
        0 <= vy < 15,
        0 <= n <= 15,
        m.i + n <= 4096,
    ensures
        m.display_sprite(vx, vy, n).display_sprite(vx, vy, n).display == m.display,
        m.display_sprite(vx, vy, n).display_sprite(vx, vy, n).v[15] == 1 <==> (exists|j: int|
            0 <= j < 8 * n && m.sprite_hit(vx, vy, j) && m.display[m.sprite_target(
                vx,
                vy,
                j,
            )] == 0),
{
    let m1 = m.display_sprite(vx, vy, n);
    let m2 = m1.display_sprite(vx, vy, n);
    assert(m1.ram == m.ram && m1.i == m.i && m1.v[vx] == m.v[vx] && m1.v[vy] == m.v[vy]);
    assert forall|j: int| 0 <= j < 8 * n implies m1.sprite_hit(vx, vy, j) == m.sprite_hit(
        vx,
        vy,
        j,
    ) && m1.sprite_target(vx, vy, j) == m.sprite_target(vx, vy, j) by {}
    assert forall|idx: int| 0 <= idx < 2048 implies m2.display[idx] == m.display[idx] by {
        let d = m.display[idx];
        assert((d ^ 1) ^ 1 == d) by (bit_vector);
        if exists|j: int|
            0 <= j < 8 * n && m.sprite_hit(vx, vy, j) && m.sprite_target(vx, vy, j) == idx {
            let j = choose|j: int|
                0 <= j < 8 * n && m.sprite_hit(vx, vy, j) && m.sprite_target(vx, vy, j)
                    == idx;
            assert(m1.sprite_hit(vx, vy, j) && m1.sprite_target(vx, vy, j) == idx);
            assert(m1.display[idx] == d ^ 1);
            assert(m2.display[idx] == (d ^ 1) ^ 1);
        } else {
            assert(m1.display[idx] == d);
            assert(m2.display[idx] == d);
        }
    }
    assert(m2.display =~= m.display);
    assert forall|j: int|
        0 <= j < 8 * n && m.sprite_hit(vx, vy, j) implies m1.display[m.sprite_target(
        vx,
        vy,
        j,
    )] == m.display[m.sprite_target(vx, vy, j)] ^ 1 by {
        vstd::arithmetic::div_mod::lemma_mod_division_less_than_divisor(j, 8);
        vstd::arithmetic::div_mod::lemma_div_pos_is_pos(j, 8);
    }
    if m2.v[15] == 1 {
        let j = choose|j: int|
            0 <= j < 8 * n && m1.sprite_hit(vx, vy, j) && m1.display[m1.sprite_target(
                vx,
                vy,
                j,
            )] == 1;
        let d = m.display[m.sprite_target(vx, vy, j)];
        assert(d ^ 1 == 1 ==> d == 0) by (bit_vector);
        assert(m.sprite_hit(vx, vy, j) && d == 0);
    }
    if exists|j: int|
        0 <= j < 8 * n && m.sprite_hit(vx, vy, j) && m.display[m.sprite_target(vx, vy, j)]
            == 0 {
        let j = choose|j: int|
            0 <= j < 8 * n && m.sprite_hit(vx, vy, j) && m.display[m.sprite_target(
                vx,
                vy,
                j,
            )] == 0;
        assert(0u8 ^ 1u8 == 1u8) by (bit_vector);
        assert(m1.sprite_hit(vx, vy, j) && m1.display[m1.sprite_target(vx, vy, j)] == 1);
        assert(m1.sprite_partial_collision(vx, vy, 8 * n));
    }
}

/// A call followed immediately by a return restores the program counter
/// and the stack pointer exactly; the only trace left is the return
/// address written into the stack slot the call used.  This needs a free
/// frame; with all 16 in use the call pushes nothing (it logs instead),
/// which is what keeps a deeper call from corrupting unrelated state.
pub proof fn lemma_call_return_round_trip(m: MachineModel, addr: u16)
    requires
        m.wf(),
        m.sp < 16,
    ensures
        m.call_subroutine(addr).ret_from_subroutine().pc == m.pc,
        m.call_subroutine(addr).ret_from_subroutine().sp == m.sp,
        m.call_subroutine(addr).ret_from_subroutine() == (MachineModel {
            stack: m.stack.update(m.sp as int, m.pc),
            ..m
        }),
{
    assert(m.call_subroutine(addr).ret_from_subroutine() =~= (MachineModel {
        stack: m.stack.update(m.sp as int, m.pc),
        ..m
    }));
}

/// Arming the key wait blocks the machine: any cycle taken while the
/// latch is armed changes nothing at all.  A key press then resolves the
/// wait in one step: the key value lands in the chosen register, the key
/// is marked pressed, and the latch is released, so the following cycle
/// executes normally.
pub proof fn lemma_key_wait_round_trip(
    m: MachineModel,
    x: int,
    key: u8,
    post: MachineModel,
)
    requires
        m.wf(),
        0 <= x < 16,
        key <= 15,
    ensures
        cycle_rel(m.wait_for_keypress(x), post) ==> post == m.wait_for_keypress(x),
        m.wait_for_keypress(x).press_key(key) == (MachineModel {
            keys: m.keys.update(key as int, true),
            v: m.v.update(x, key),
            wait_for_key: false,
            wait_reg: x as u8,
            ..m
        }),
{
    assert(m.wait_for_keypress(x).press_key(key) =~= (MachineModel {
        keys: m.keys.update(key as int, true),
        v: m.v.update(x, key),
        wait_for_key: false,
        wait_reg: x as u8,
        ..m
    }));
}

} // verus!
