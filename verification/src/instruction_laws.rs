//! What each instruction does, stated over the fields of the machine before
//! and after: one law per opcode, for every state and every operand.
//!
//! Each law speaks of `execute` on an opcode that is assembled here from its
//! fields, so it covers decoding and the instruction together. Where a
//! relation says more than a formula (a carry, a halving, a bit of a mask),
//! the law states the relation.

use vstd::prelude::*;

use crate::cpu::{DISPLAY_SIZE, FONT_START, RAM_SIZE, STACK_SIZE};
use crate::laws::{lemma_draw_without_overlap, lemma_first_pressed_is_first};
use crate::state::{first_pressed, op_kind, op_n, op_nn, op_nnn, op_x, op_y, CpuState};

verus! {

/// The opcode `0xKXYN`.
pub open spec fn opcode(kind: int, x: int, y: int, n: int) -> u16 {
    (kind * 0x1000 + x * 0x100 + y * 0x10 + n) as u16
}

/// The opcode `0xKXNN`.
pub open spec fn opcode_nn(kind: int, x: int, nn: u8) -> u16 {
    (kind * 0x1000 + x * 0x100 + nn) as u16
}

/// The opcode `0xKNNN`.
pub open spec fn opcode_nnn(kind: int, nnn: u16) -> u16 {
    (kind * 0x1000 + nnn) as u16
}

/// Bit `b` of `v`, counting from the least significant bit.
pub open spec fn bit(v: u8, b: u8) -> bool {
    (v >> b) & 1u8 == 1u8
}

/// The decoder reads back the fields an opcode was assembled from.
pub proof fn lemma_opcode_fields(kind: int, x: int, y: int, n: int)
    requires
        0 <= kind < 16,
        0 <= x < 16,
        0 <= y < 16,
        0 <= n < 16,
    ensures
        op_kind(opcode(kind, x, y, n)) == kind,
        op_x(opcode(kind, x, y, n)) == x,
        op_y(opcode(kind, x, y, n)) == y,
        op_n(opcode(kind, x, y, n)) == n,
        op_nn(opcode(kind, x, y, n)) == y * 0x10 + n,
        op_nnn(opcode(kind, x, y, n)) == x * 0x100 + y * 0x10 + n,
        opcode(kind, x, y, n) == kind * 0x1000 + x * 0x100 + y * 0x10 + n,
{
    let op = kind * 0x1000 + x * 0x100 + y * 0x10 + n;
    assert(0 <= op < 0x10000);
    assert(op / 0x1000 == kind);
    assert(op / 0x100 == kind * 0x10 + x);
    assert((kind * 0x10 + x) % 0x10 == x);
    assert(op / 0x10 == kind * 0x100 + x * 0x10 + y);
    assert((kind * 0x100 + x * 0x10 + y) % 0x10 == y);
    assert(op % 0x10 == n);
    assert(op % 0x100 == y * 0x10 + n);
    assert(op % 0x1000 == x * 0x100 + y * 0x10 + n);
}

/// The decoder reads back the fields of an opcode `0xKXNN`.
pub proof fn lemma_opcode_nn_fields(kind: int, x: int, nn: u8)
    requires
        0 <= kind < 16,
        0 <= x < 16,
    ensures
        opcode_nn(kind, x, nn) == opcode(kind, x, nn as int / 16, nn as int % 16),
        op_kind(opcode_nn(kind, x, nn)) == kind,
        op_x(opcode_nn(kind, x, nn)) == x,
        op_nn(opcode_nn(kind, x, nn)) == nn,
{
    lemma_opcode_fields(kind, x, (nn / 16) as int, (nn % 16) as int);
}

/// The decoder reads back the fields of an opcode `0xKNNN`.
pub proof fn lemma_opcode_nnn_fields(kind: int, nnn: u16)
    requires
        0 <= kind < 16,
        nnn < 0x1000,
    ensures
        opcode_nnn(kind, nnn) == opcode(
            kind,
            nnn as int / 0x100,
            (nnn as int / 0x10) % 0x10,
            nnn as int % 0x10,
        ),
        op_kind(opcode_nnn(kind, nnn)) == kind,
        op_nnn(opcode_nnn(kind, nnn)) == nnn,
{
    lemma_opcode_fields(
        kind,
        (nnn / 0x100) as int,
        ((nnn / 0x10) % 0x10) as int,
        (nnn % 0x10) as int,
    );
}

/// OR, AND and XOR act bit by bit.
pub proof fn lemma_bitwise(a: u8, c: u8)
    ensures
        forall|b: u8| b < 8 ==> #[trigger] bit(a | c, b) == (bit(a, b) || bit(c, b)),
        forall|b: u8| b < 8 ==> #[trigger] bit(a & c, b) == (bit(a, b) && bit(c, b)),
        forall|b: u8| b < 8 ==> #[trigger] bit(a ^ c, b) == (bit(a, b) != bit(c, b)),
{
    assert(forall|b: u8|
        b < 8 ==> ((((a | c) >> b) & 1u8 == 1u8) == (((a >> b) & 1u8 == 1u8) || ((c >> b) & 1u8
            == 1u8)))) by (bit_vector);
    assert(forall|b: u8|
        b < 8 ==> ((((a & c) >> b) & 1u8 == 1u8) == (((a >> b) & 1u8 == 1u8) && ((c >> b) & 1u8
            == 1u8)))) by (bit_vector);
    assert(forall|b: u8|
        b < 8 ==> ((((a ^ c) >> b) & 1u8 == 1u8) == (((a >> b) & 1u8 == 1u8) != ((c >> b) & 1u8
            == 1u8)))) by (bit_vector);
}

// ---------------------------------------------------------------------------
// Flow of control
// ---------------------------------------------------------------------------

/// `00E0` darkens every pixel, marks the screen as drawn and changes
/// nothing else.
pub proof fn law_cls(s: CpuState, rnd: u8)
    requires
        s.well_formed(),
    ensures
        ({
            let t = s.execute(0x00E0, rnd);
            &&& t.display.len() == DISPLAY_SIZE
            &&& forall|k: int| 0 <= k < DISPLAY_SIZE ==> !#[trigger] t.display[k]
            &&& t == (CpuState { display: t.display, draw_flag: true, ..s })
        }),
{
}

/// `00EE` pops the return address: the program counter becomes the top
/// stack entry, the depth drops by one, and nothing else changes.
pub proof fn law_ret(s: CpuState, rnd: u8)
    requires
        s.well_formed(),
        0 < s.sp <= STACK_SIZE,
    ensures
        ({
            let t = s.execute(0x00EE, rnd);
            &&& t.pc == s.stack[s.sp - 1]
            &&& t.sp + 1 == s.sp
            &&& t == (CpuState { pc: t.pc, sp: t.sp, ..s })
        }),
{
}

/// `1NNN` jumps to `NNN` and changes nothing else.
pub proof fn law_jp(s: CpuState, nnn: u16, rnd: u8)
    requires
        s.well_formed(),
        nnn < 0x1000,
    ensures
        s.execute(opcode_nnn(0x1, nnn), rnd) == (CpuState { pc: nnn, ..s }),
{
    lemma_opcode_nnn_fields(0x1, nnn);
}

/// `2NNN` pushes the address of the next instruction on top of the stack,
/// one deeper, and jumps to `NNN`; the rest of the stack and the machine are
/// kept.
pub proof fn law_call(s: CpuState, nnn: u16, rnd: u8)
    requires
        s.well_formed(),
        nnn < 0x1000,
        s.sp < STACK_SIZE,
    ensures
        ({
            let t = s.execute(opcode_nnn(0x2, nnn), rnd);
            &&& t.stack.len() == STACK_SIZE
            &&& t.stack[s.sp as int] == s.pc
            &&& forall|j: int| 0 <= j < STACK_SIZE && j != s.sp ==> t.stack[j] == s.stack[j]
            &&& t.sp == s.sp + 1
            &&& t.pc == nnn
            &&& t == (CpuState { stack: t.stack, sp: t.sp, pc: t.pc, ..s })
        }),
{
    lemma_opcode_nnn_fields(0x2, nnn);
}

/// `3XNN` skips the next instruction exactly when `VX` equals `NN`; it
/// changes nothing but the program counter.
pub proof fn law_skip_if_equal_byte(s: CpuState, x: int, nn: u8, rnd: u8)
    requires
        s.well_formed(),
        0 <= x < 16,
        s.pc + 2 <= u16::MAX,
    ensures
        ({
            let t = s.execute(opcode_nn(0x3, x, nn), rnd);
            &&& (t.pc == s.pc + 2) <==> (s.v[x] == nn)
            &&& (t.pc == s.pc) <==> (s.v[x] != nn)
            &&& t == (CpuState { pc: t.pc, ..s })
        }),
{
    lemma_opcode_nn_fields(0x3, x, nn);
}

/// `4XNN` skips the next instruction exactly when `VX` differs from `NN`;
/// it changes nothing but the program counter.
pub proof fn law_skip_if_not_equal_byte(s: CpuState, x: int, nn: u8, rnd: u8)
    requires
        s.well_formed(),
        0 <= x < 16,
        s.pc + 2 <= u16::MAX,
    ensures
        ({
            let t = s.execute(opcode_nn(0x4, x, nn), rnd);
            &&& (t.pc == s.pc + 2) <==> (s.v[x] != nn)
            &&& (t.pc == s.pc) <==> (s.v[x] == nn)
            &&& t == (CpuState { pc: t.pc, ..s })
        }),
{
    lemma_opcode_nn_fields(0x4, x, nn);
}

/// `5XY0` skips exactly when `VX` equals `VY`; `9XY0` exactly when they
/// differ. Neither changes anything but the program counter.
pub proof fn law_skip_on_registers(s: CpuState, x: int, y: int, rnd: u8)
    requires
        s.well_formed(),
        0 <= x < 16,
        0 <= y < 16,
        s.pc + 2 <= u16::MAX,
    ensures
        ({
            let t = s.execute(opcode(0x5, x, y, 0), rnd);
            &&& (t.pc == s.pc + 2) <==> (s.v[x] == s.v[y])
            &&& (t.pc == s.pc) <==> (s.v[x] != s.v[y])
            &&& t == (CpuState { pc: t.pc, ..s })
        }),
        ({
            let t = s.execute(opcode(0x9, x, y, 0), rnd);
            &&& (t.pc == s.pc + 2) <==> (s.v[x] != s.v[y])
            &&& (t.pc == s.pc) <==> (s.v[x] == s.v[y])
            &&& t == (CpuState { pc: t.pc, ..s })
        }),
{
    lemma_opcode_fields(0x5, x, y, 0);
    lemma_opcode_fields(0x9, x, y, 0);
}

/// `BNNN` jumps to `NNN` plus `V0` and changes nothing else.
pub proof fn law_jp_v0(s: CpuState, nnn: u16, rnd: u8)
    requires
        s.well_formed(),
        nnn < 0x1000,
    ensures
        ({
            let t = s.execute(opcode_nnn(0xB, nnn), rnd);
            &&& t.pc == nnn + s.v[0]
            &&& t == (CpuState { pc: t.pc, ..s })
        }),
{
    lemma_opcode_nnn_fields(0xB, nnn);
}

/// `EX9E` skips exactly when the key numbered `VX` is pressed, and `EXA1`
/// exactly when it is not, whatever the other keys are; neither changes
/// anything but the program counter.
pub proof fn law_skip_on_key(s: CpuState, x: int, rnd: u8)
    requires
        s.well_formed(),
        0 <= x < 16,
        s.v[x] < 16,
        s.pc + 2 <= u16::MAX,
    ensures
        ({
            let t = s.execute(opcode_nn(0xE, x, 0x9E), rnd);
            &&& (t.pc == s.pc + 2) <==> s.keys[s.v[x] as int]
            &&& (t.pc == s.pc) <==> !s.keys[s.v[x] as int]
            &&& t == (CpuState { pc: t.pc, ..s })
        }),
        ({
            let t = s.execute(opcode_nn(0xE, x, 0xA1), rnd);
            &&& (t.pc == s.pc + 2) <==> !s.keys[s.v[x] as int]
            &&& (t.pc == s.pc) <==> s.keys[s.v[x] as int]
            &&& t == (CpuState { pc: t.pc, ..s })
        }),
{
    lemma_opcode_nn_fields(0xE, x, 0x9E);
    lemma_opcode_nn_fields(0xE, x, 0xA1);
}

// ---------------------------------------------------------------------------
// Registers
// ---------------------------------------------------------------------------

/// `6XNN` sets `VX` to `NN` and changes nothing else.
pub proof fn law_ld_vx_byte(s: CpuState, x: int, nn: u8, rnd: u8)
    requires
        s.well_formed(),
        0 <= x < 16,
    ensures
        ({
            let t = s.execute(opcode_nn(0x6, x, nn), rnd);
            &&& t.v.len() == 16
            &&& t.v[x] == nn
            &&& forall|j: int| 0 <= j < 16 && j != x ==> t.v[j] == s.v[j]
            &&& t == (CpuState { v: t.v, ..s })
        }),
{
    lemma_opcode_nn_fields(0x6, x, nn);
}

/// `7XNN` adds `NN` to `VX` modulo 256, leaving the other registers (the
/// flag too) and the rest of the machine as they were.
pub proof fn law_add_vx_byte(s: CpuState, x: int, nn: u8, rnd: u8)
    requires
        s.well_formed(),
        0 <= x < 16,
    ensures
        ({
            let t = s.execute(opcode_nn(0x7, x, nn), rnd);
            &&& t.v.len() == 16
            &&& t.v[x] + (if s.v[x] + nn >= 256 { 256int } else { 0int }) == s.v[x] + nn
            &&& forall|j: int| 0 <= j < 16 && j != x ==> t.v[j] == s.v[j]
            &&& t == (CpuState { v: t.v, ..s })
        }),
{
    lemma_opcode_nn_fields(0x7, x, nn);
}

/// `8XY0` copies `VY` into `VX` and changes nothing else.
pub proof fn law_ld_vx_vy(s: CpuState, x: int, y: int, rnd: u8)
    requires
        s.well_formed(),
        0 <= x < 16,
        0 <= y < 16,
    ensures
        ({
            let t = s.execute(opcode(0x8, x, y, 0x0), rnd);
            &&& t.v.len() == 16
            &&& t.v[x] == s.v[y]
            &&& forall|j: int| 0 <= j < 16 && j != x ==> t.v[j] == s.v[j]
            &&& t == (CpuState { v: t.v, ..s })
        }),
{
    lemma_opcode_fields(0x8, x, y, 0x0);
}

/// `8XY1`, `8XY2`, `8XY3` set each bit of `VX` to the OR, AND, XOR of that
/// bit of `VX` and `VY`, and change nothing else.
pub proof fn law_logic(s: CpuState, x: int, y: int, rnd: u8)
    requires
        s.well_formed(),
        0 <= x < 16,
        0 <= y < 16,
    ensures
        ({
            let t = s.execute(opcode(0x8, x, y, 0x1), rnd);
            &&& t.v.len() == 16
            &&& forall|b: u8| b < 8 ==> #[trigger] bit(t.v[x], b) == (bit(s.v[x], b) || bit(s.v[y], b))
            &&& forall|j: int| 0 <= j < 16 && j != x ==> t.v[j] == s.v[j]
            &&& t == (CpuState { v: t.v, ..s })
        }),
        ({
            let t = s.execute(opcode(0x8, x, y, 0x2), rnd);
            &&& t.v.len() == 16
            &&& forall|b: u8| b < 8 ==> #[trigger] bit(t.v[x], b) == (bit(s.v[x], b) && bit(s.v[y], b))
            &&& forall|j: int| 0 <= j < 16 && j != x ==> t.v[j] == s.v[j]
            &&& t == (CpuState { v: t.v, ..s })
        }),
        ({
            let t = s.execute(opcode(0x8, x, y, 0x3), rnd);
            &&& t.v.len() == 16
            &&& forall|b: u8| b < 8 ==> #[trigger] bit(t.v[x], b) == (bit(s.v[x], b) != bit(s.v[y], b))
            &&& forall|j: int| 0 <= j < 16 && j != x ==> t.v[j] == s.v[j]
            &&& t == (CpuState { v: t.v, ..s })
        }),
{
    lemma_opcode_fields(0x8, x, y, 0x1);
    lemma_opcode_fields(0x8, x, y, 0x2);
    lemma_opcode_fields(0x8, x, y, 0x3);
    lemma_bitwise(s.v[x], s.v[y]);
}

/// `8XY4` (for `X` other than `F`): the carry in `VF` and the new `VX`
/// together are the full sum `VX + VY`; the other registers are kept.
pub proof fn law_add_vx_vy(s: CpuState, x: int, y: int, rnd: u8)
    requires
        s.well_formed(),
        0 <= x < 15,
        0 <= y < 16,
    ensures
        ({
            let t = s.execute(opcode(0x8, x, y, 0x4), rnd);
            &&& t.v.len() == 16
            &&& t.v[15] <= 1
            &&& t.v[15] * 256 + t.v[x] == s.v[x] + s.v[y]
            &&& forall|j: int| 0 <= j < 15 && j != x ==> t.v[j] == s.v[j]
            &&& t == (CpuState { v: t.v, ..s })
        }),
{
    lemma_opcode_fields(0x8, x, y, 0x4);
}

/// `8XY5` (for `X` other than `F`): `VF` is 1 exactly when `VX >= VY`, and
/// the new `VX` is `VX - VY`, plus 256 exactly when `VF` is 0.
pub proof fn law_sub(s: CpuState, x: int, y: int, rnd: u8)
    requires
        s.well_formed(),
        0 <= x < 15,
        0 <= y < 16,
    ensures
        ({
            let t = s.execute(opcode(0x8, x, y, 0x5), rnd);
            &&& t.v.len() == 16
            &&& t.v[15] <= 1
            &&& (t.v[15] == 1) <==> (s.v[x] >= s.v[y])
            &&& t.v[x] == s.v[x] - s.v[y] + (1 - t.v[15]) * 256
            &&& forall|j: int| 0 <= j < 15 && j != x ==> t.v[j] == s.v[j]
            &&& t == (CpuState { v: t.v, ..s })
        }),
{
    lemma_opcode_fields(0x8, x, y, 0x5);
}

/// `8XY7` (for `X` other than `F`): `VF` is 1 exactly when `VY >= VX`, and
/// the new `VX` is `VY - VX`, plus 256 exactly when `VF` is 0.
pub proof fn law_subn(s: CpuState, x: int, y: int, rnd: u8)
    requires
        s.well_formed(),
        0 <= x < 15,
        0 <= y < 16,
    ensures
        ({
            let t = s.execute(opcode(0x8, x, y, 0x7), rnd);
            &&& t.v.len() == 16
            &&& t.v[15] <= 1
            &&& (t.v[15] == 1) <==> (s.v[y] >= s.v[x])
            &&& t.v[x] == s.v[y] - s.v[x] + (1 - t.v[15]) * 256
            &&& forall|j: int| 0 <= j < 15 && j != x ==> t.v[j] == s.v[j]
            &&& t == (CpuState { v: t.v, ..s })
        }),
{
    lemma_opcode_fields(0x8, x, y, 0x7);
}

/// `8XY6` (for `X` other than `F`) halves `VX`: twice the new `VX` plus the
/// bit shifted out into `VF` is the old `VX`.
pub proof fn law_shr(s: CpuState, x: int, y: int, rnd: u8)
    requires
        s.well_formed(),
        0 <= x < 15,
        0 <= y < 16,
    ensures
        ({
            let t = s.execute(opcode(0x8, x, y, 0x6), rnd);
            &&& t.v.len() == 16
            &&& t.v[15] <= 1
            &&& t.v[x] * 2 + t.v[15] == s.v[x]
            &&& forall|j: int| 0 <= j < 15 && j != x ==> t.v[j] == s.v[j]
            &&& t == (CpuState { v: t.v, ..s })
        }),
{
    lemma_opcode_fields(0x8, x, y, 0x6);
}

/// `8XYE` (for `X` other than `F`) doubles `VX`: the bit shifted out into
/// `VF`, times 256, plus the new `VX` is twice the old `VX`.
pub proof fn law_shl(s: CpuState, x: int, y: int, rnd: u8)
    requires
        s.well_formed(),
        0 <= x < 15,
        0 <= y < 16,
    ensures
        ({
            let t = s.execute(opcode(0x8, x, y, 0xE), rnd);
            &&& t.v.len() == 16
            &&& t.v[15] <= 1
            &&& t.v[15] * 256 + t.v[x] == s.v[x] * 2
            &&& forall|j: int| 0 <= j < 15 && j != x ==> t.v[j] == s.v[j]
            &&& t == (CpuState { v: t.v, ..s })
        }),
{
    lemma_opcode_fields(0x8, x, y, 0xE);
}

/// `CXNN` sets each bit of `VX` exactly when that bit is set in both the
/// random byte and `NN`, and changes nothing else.
pub proof fn law_rnd(s: CpuState, x: int, nn: u8, rnd: u8)
    requires
        s.well_formed(),
        0 <= x < 16,
    ensures
        ({
            let t = s.execute(opcode_nn(0xC, x, nn), rnd);
            &&& t.v.len() == 16
            &&& forall|b: u8| b < 8 ==> #[trigger] bit(t.v[x], b) == (bit(rnd, b) && bit(nn, b))
            &&& forall|j: int| 0 <= j < 16 && j != x ==> t.v[j] == s.v[j]
            &&& t == (CpuState { v: t.v, ..s })
        }),
{
    lemma_opcode_nn_fields(0xC, x, nn);
    lemma_bitwise(rnd, nn);
}

// ---------------------------------------------------------------------------
// Timers and keys
// ---------------------------------------------------------------------------

/// `FX07` copies the delay timer into `VX`, whatever the sound timer is, and
/// changes nothing else.
pub proof fn law_ld_vx_dt(s: CpuState, x: int, rnd: u8)
    requires
        s.well_formed(),
        0 <= x < 16,
    ensures
        ({
            let t = s.execute(opcode_nn(0xF, x, 0x07), rnd);
            &&& t.v.len() == 16
            &&& t.v[x] == s.delay_timer
            &&& forall|j: int| 0 <= j < 16 && j != x ==> t.v[j] == s.v[j]
            &&& t == (CpuState { v: t.v, ..s })
        }),
{
    lemma_opcode_nn_fields(0xF, x, 0x07);
}

/// `FX15` sets the delay timer and `FX18` the sound timer to `VX`; each
/// leaves the other timer and the rest of the machine as they were.
pub proof fn law_set_timers(s: CpuState, x: int, rnd: u8)
    requires
        s.well_formed(),
        0 <= x < 16,
    ensures
        s.execute(opcode_nn(0xF, x, 0x15), rnd) == (CpuState { delay_timer: s.v[x], ..s }),
        s.execute(opcode_nn(0xF, x, 0x18), rnd) == (CpuState { sound_timer: s.v[x], ..s }),
{
    lemma_opcode_nn_fields(0xF, x, 0x15);
    lemma_opcode_nn_fields(0xF, x, 0x18);
}

/// `FX0A` with a key pressed stores the lowest pressed key in `VX`; with no
/// key pressed it steps the program counter back onto itself. Nothing else
/// changes.
pub proof fn law_wait_for_key(s: CpuState, x: int, rnd: u8)
    requires
        s.well_formed(),
        0 <= x < 16,
    ensures
        ({
            let t = s.execute(opcode_nn(0xF, x, 0x0A), rnd);
            &&& (exists|k: int| 0 <= k < 16 && s.keys[k]) ==> {
                &&& t.v.len() == 16
                &&& t.v[x] < 16
                &&& s.keys[t.v[x] as int]
                &&& forall|j: int| 0 <= j < t.v[x] ==> !s.keys[j]
                &&& forall|j: int| 0 <= j < 16 && j != x ==> t.v[j] == s.v[j]
                &&& t == (CpuState { v: t.v, ..s })
            }
            &&& (forall|k: int| 0 <= k < 16 ==> !s.keys[k]) ==> t == (CpuState {
                pc: (s.pc - 2) as u16,
                ..s
            })
        }),
{
    lemma_opcode_nn_fields(0xF, x, 0x0A);
    if first_pressed(s.keys) >= 0 {
        lemma_first_pressed_is_first(s.keys, 0);
    } else {
        lemma_no_key_found(s.keys, 0);
    }
}

/// When the search finds no key at or after `from`, none is pressed there.
pub proof fn lemma_no_key_found(keys: Seq<bool>, from: int)
    requires
        0 <= from,
        crate::state::first_pressed_from(keys, from) < 0,
    ensures
        forall|k: int| from <= k < keys.len() ==> !keys[k],
    decreases keys.len() - from,
{
    if from < keys.len() {
        lemma_no_key_found(keys, from + 1);
    }
}

// ---------------------------------------------------------------------------
// The index register and memory
// ---------------------------------------------------------------------------

/// `ANNN` sets `I` to `NNN` and changes nothing else.
pub proof fn law_ld_i(s: CpuState, nnn: u16, rnd: u8)
    requires
        s.well_formed(),
        nnn < 0x1000,
    ensures
        s.execute(opcode_nnn(0xA, nnn), rnd) == (CpuState { i: nnn, ..s }),
{
    lemma_opcode_nnn_fields(0xA, nnn);
}

/// `FX1E` adds the unsigned value of `VX` to `I`, wrapping at 2^16, and
/// changes nothing else.
pub proof fn law_add_i_vx(s: CpuState, x: int, rnd: u8)
    requires
        s.well_formed(),
        0 <= x < 16,
    ensures
        ({
            let t = s.execute(opcode_nn(0xF, x, 0x1E), rnd);
            &&& t.i + (if s.i + s.v[x] >= 0x10000 { 0x10000int } else { 0int }) == s.i + s.v[x]
            &&& t == (CpuState { i: t.i, ..s })
        }),
{
    lemma_opcode_nn_fields(0xF, x, 0x1E);
}

/// `FX29` points `I` at five times the low nibble of `VX` (the font starts
/// at address 0) and changes nothing else.
pub proof fn law_ld_f_vx(s: CpuState, x: int, rnd: u8)
    requires
        s.well_formed(),
        0 <= x < 16,
    ensures
        ({
            let t = s.execute(opcode_nn(0xF, x, 0x29), rnd);
            &&& t.i == FONT_START + (s.v[x] % 16) * 5
            &&& t == (CpuState { i: t.i, ..s })
        }),
{
    lemma_opcode_nn_fields(0xF, x, 0x29);
}

/// `FX33` writes the hundreds, tens and ones digit of `VX` to `I`, `I + 1`,
/// `I + 2`: three digits whose decimal value is `VX`. Nothing else changes.
pub proof fn law_bcd(s: CpuState, x: int, rnd: u8)
    requires
        s.well_formed(),
        0 <= x < 16,
        s.i + 2 < RAM_SIZE,
    ensures
        ({
            let t = s.execute(opcode_nn(0xF, x, 0x33), rnd);
            &&& t.ram.len() == RAM_SIZE
            &&& t.ram[s.i as int] < 10
            &&& t.ram[s.i + 1] < 10
            &&& t.ram[s.i + 2] < 10
            &&& t.ram[s.i as int] * 100 + t.ram[s.i + 1] * 10 + t.ram[s.i + 2] == s.v[x]
            &&& forall|a: int|
                0 <= a < RAM_SIZE && !(s.i <= a <= s.i + 2) ==> t.ram[a] == s.ram[a]
            &&& t == (CpuState { ram: t.ram, ..s })
        }),
{
    lemma_opcode_nn_fields(0xF, x, 0x33);
}

/// `FX55` writes `V0..=VX` to `I..=I+X` and leaves the rest of memory and
/// the machine as they were.
pub proof fn law_store_registers(s: CpuState, x: int, rnd: u8)
    requires
        s.well_formed(),
        0 <= x < 16,
        s.i + x < RAM_SIZE,
    ensures
        ({
            let t = s.execute(opcode_nn(0xF, x, 0x55), rnd);
            &&& t.ram.len() == RAM_SIZE
            &&& forall|k: int| 0 <= k <= x ==> #[trigger] t.ram[s.i + k] == s.v[k]
            &&& forall|a: int|
                0 <= a < RAM_SIZE && !(s.i <= a <= s.i + x) ==> t.ram[a] == s.ram[a]
            &&& t == (CpuState { ram: t.ram, ..s })
        }),
{
    lemma_opcode_nn_fields(0xF, x, 0x55);
    let t = s.execute(opcode_nn(0xF, x, 0x55), rnd);
    assert forall|k: int| 0 <= k <= x implies #[trigger] t.ram[s.i + k] == s.v[k] by {
        assert(s.i <= s.i + k <= s.i + x);
    }
}

/// `FX65` reads `V0..=VX` from `I..=I+X`, keeps the registers above `VX`,
/// and changes nothing else.
pub proof fn law_load_registers(s: CpuState, x: int, rnd: u8)
    requires
        s.well_formed(),
        0 <= x < 16,
        s.i + x < RAM_SIZE,
    ensures
        ({
            let t = s.execute(opcode_nn(0xF, x, 0x65), rnd);
            &&& t.v.len() == 16
            &&& forall|k: int| 0 <= k <= x ==> #[trigger] t.v[k] == s.ram[s.i + k]
            &&& forall|k: int| x < k < 16 ==> #[trigger] t.v[k] == s.v[k]
            &&& t == (CpuState { v: t.v, ..s })
        }),
{
    lemma_opcode_nn_fields(0xF, x, 0x65);
}

// ---------------------------------------------------------------------------
// The screen, fetching and the timers' countdown
// ---------------------------------------------------------------------------

/// `DXYN` with `N` rows flips exactly the pixels its sprite covers, sets
/// `VF` to 1 exactly when one of them was lit, marks the screen as drawn and
/// changes nothing else.
pub proof fn law_draw(s: CpuState, x: int, y: int, n: int, rnd: u8)
    requires
        s.well_formed(),
        0 <= x < 16,
        0 <= y < 16,
        0 <= n < 16,
    ensures
        ({
            let t = s.execute(opcode(0xD, x, y, n), rnd);
            let xs = s.v[x] as int % 64;
            let ys = s.v[y] as int % 32;
            &&& t.display.len() == DISPLAY_SIZE
            &&& forall|idx: int|
                0 <= idx < DISPLAY_SIZE ==> #[trigger] t.display[idx] == (s.display[idx]
                    != s.sprite_covers(xs, ys, n, idx))
            &&& (t.v[15] == 1) <==> (exists|idx: int|
                0 <= idx < DISPLAY_SIZE && #[trigger] s.sprite_covers(xs, ys, n, idx)
                    && s.display[idx])
            &&& t.v[15] <= 1
            &&& forall|j: int| 0 <= j < 15 ==> t.v[j] == s.v[j]
            &&& t == (CpuState { display: t.display, v: t.v, draw_flag: true, ..s })
        }),
{
    lemma_opcode_fields(0xD, x, y, n);
    lemma_draw_without_overlap(s, x, y, n);
}

/// A sprite of `N` rows covers pixel (`px`, `py`) of the screen exactly when,
/// counting from its corner with wrap-around, that pixel lies in one of its
/// rows and columns and the sprite's bit there is set (most significant bit
/// leftmost).
pub proof fn law_sprite_covers(s: CpuState, xs: int, ys: int, n: int, px: int, py: int)
    requires
        0 <= xs < 64,
        0 <= ys < 32,
        0 <= px < 64,
        0 <= py < 32,
    ensures
        s.sprite_covers(xs, ys, n, py * 64 + px) <==> exists|r: int, c: int|
            0 <= r < n && r < 32 && 0 <= c < 8 && (ys + r) % 32 == py && (xs + c) % 64 == px
                && #[trigger] bit(s.ram[s.i + r], (7 - c) as u8),
{
    let idx = py * 64 + px;
    assert(idx / 64 == py && idx % 64 == px);
    let r = CpuState::sprite_row(ys, py);
    let c = CpuState::sprite_col(xs, px);
    if py >= ys {
        assert(r == py - ys);
    } else {
        assert(r == py - ys + 32);
    }
    if px >= xs {
        assert(c == px - xs);
    } else {
        assert(c == px - xs + 64);
    }
    if s.sprite_covers(xs, ys, n, idx) {
        assert(bit(s.ram[s.i + r], (7 - c) as u8));
    }
    if exists|r: int, c: int|
        0 <= r < n && r < 32 && 0 <= c < 8 && (ys + r) % 32 == py && (xs + c) % 64 == px
            && #[trigger] bit(s.ram[s.i + r], (7 - c) as u8) {
        let (r2, c2) = choose|r: int, c: int|
            0 <= r < n && r < 32 && 0 <= c < 8 && (ys + r) % 32 == py && (xs + c) % 64 == px
                && #[trigger] bit(s.ram[s.i + r], (7 - c) as u8);
        if ys + r2 < 32 {
            assert(py == ys + r2);
        } else {
            assert(py == ys + r2 - 32);
        }
        if xs + c2 < 64 {
            assert(px == xs + c2);
        } else {
            assert(px == xs + c2 - 64);
        }
        assert(r2 == r && c2 == c);
    }
}

/// The opcode at the program counter has the byte at the program counter as
/// its high byte and the next byte as its low byte; fetching moves the
/// program counter two bytes on and changes nothing else.
pub proof fn law_fetch(s: CpuState)
    requires
        s.well_formed(),
        s.can_fetch(),
    ensures
        s.opcode_at_pc() / 256 == s.ram[s.pc as int],
        s.opcode_at_pc() % 256 == s.ram[s.pc + 1],
        s.after_fetch() == (CpuState { pc: (s.pc + 2) as u16, ..s }),
        s.after_fetch().pc == s.pc + 2,
{
}

/// One timer tick lowers each nonzero timer by one, keeps a zero timer at
/// zero, and changes nothing else.
pub proof fn law_timer_tick(s: CpuState)
    ensures
        s.timers_ticked().delay_timer + (if s.delay_timer > 0 { 1int } else { 0int })
            == s.delay_timer,
        s.timers_ticked().sound_timer + (if s.sound_timer > 0 { 1int } else { 0int })
            == s.sound_timer,
        s.timers_ticked() == (CpuState {
            delay_timer: s.timers_ticked().delay_timer,
            sound_timer: s.timers_ticked().sound_timer,
            ..s
        }),
{
}

/// A cycle fetches the opcode at the program counter and executes it with
/// the program counter already past it; for example a jump `1NNN` stored at
/// the program counter takes the machine to `NNN`.
pub proof fn law_step_runs_fetched_jump(s: CpuState, rnd: u8)
    requires
        s.well_formed(),
        s.can_fetch(),
        s.ram[s.pc as int] / 16 == 1,
    ensures
        s.step(rnd) == (CpuState {
            pc: ((s.ram[s.pc as int] % 16) as int * 256 + s.ram[s.pc + 1]) as u16,
            ..s
        }),
{
    let hi = s.ram[s.pc as int] as int;
    let lo = s.ram[s.pc + 1] as int;
    let nnn = ((hi % 16) * 256 + lo) as u16;
    assert(s.opcode_at_pc() == opcode_nnn(0x1, nnn));
    lemma_opcode_nnn_fields(0x1, nnn);
}

/// With `VF` itself as the destination, the flag is what remains: `8FY4`
/// leaves the carry in `VF`, `8FY5` and `8FY7` the no-borrow flag, `8F06`
/// the shifted-out low bit halved (always 0), `8F0E` the shifted-out high
/// bit doubled.
pub proof fn law_flag_register_as_destination(s: CpuState, y: int, rnd: u8)
    requires
        s.well_formed(),
        0 <= y < 16,
    ensures
        (s.execute(opcode(0x8, 15, y, 0x4), rnd).v[15] == 1) <==> (s.v[15] + s.v[y] > 255),
        s.execute(opcode(0x8, 15, y, 0x4), rnd).v[15] <= 1,
        (s.execute(opcode(0x8, 15, y, 0x5), rnd).v[15] == 1) <==> (s.v[15] >= s.v[y]),
        s.execute(opcode(0x8, 15, y, 0x5), rnd).v[15] <= 1,
        (s.execute(opcode(0x8, 15, y, 0x7), rnd).v[15] == 1) <==> (s.v[y] >= s.v[15]),
        s.execute(opcode(0x8, 15, y, 0x7), rnd).v[15] <= 1,
        s.execute(opcode(0x8, 15, y, 0x6), rnd).v[15] == 0,
        s.execute(opcode(0x8, 15, y, 0xE), rnd).v[15] * 128 == (s.v[15] / 128) * 256,
{
    lemma_opcode_fields(0x8, 15, y, 0x4);
    lemma_opcode_fields(0x8, 15, y, 0x5);
    lemma_opcode_fields(0x8, 15, y, 0x7);
    lemma_opcode_fields(0x8, 15, y, 0x6);
    lemma_opcode_fields(0x8, 15, y, 0xE);
}

/// Opcodes that name no instruction change nothing: `0NNN` other than
/// `00E0` and `00EE`, `8XYN` with `N` in `8..=D` or `F`, `EXNN` other than
/// `9E` and `A1`, and `FXNN` other than the nine timer, key and memory
/// instructions.
pub proof fn law_unknown_opcodes(s: CpuState, x: int, y: int, n: int, nn: u8, nnn: u16, rnd: u8)
    requires
        s.well_formed(),
        0 <= x < 16,
        0 <= y < 16,
        0 <= n < 16,
        nnn < 0x1000,
    ensures
        nnn != 0x0E0 && nnn != 0x0EE ==> s.execute(opcode_nnn(0x0, nnn), rnd) == s,
        (8 <= n <= 0xD || n == 0xF) ==> s.execute(opcode(0x8, x, y, n), rnd) == s,
        nn != 0x9E && nn != 0xA1 ==> s.execute(opcode_nn(0xE, x, nn), rnd) == s,
        (nn != 0x07 && nn != 0x0A && nn != 0x15 && nn != 0x18 && nn != 0x1E && nn != 0x29 && nn
            != 0x33 && nn != 0x55 && nn != 0x65) ==> s.execute(opcode_nn(0xF, x, nn), rnd) == s,
{
    lemma_opcode_nnn_fields(0x0, nnn);
    lemma_opcode_fields(0x8, x, y, n);
    lemma_opcode_nn_fields(0xE, x, nn);
    lemma_opcode_nn_fields(0xF, x, nn);
}

/// When each instruction can run: every access it makes lies in memory, on
/// the stack or on the keypad, and a skip keeps the program counter within
/// 16 bits. (The exec instructions are verified free of panics under these
/// conditions, so they are also necessary.)
pub proof fn law_can_execute_when(s: CpuState, x: int, y: int, n: int, nn: u8, nnn: u16)
    requires
        s.well_formed(),
        0 <= x < 16,
        0 <= y < 16,
        0 <= n < 16,
        nnn < 0x1000,
    ensures
        0 < s.sp <= STACK_SIZE ==> s.can_execute(0x00EE),
        s.can_execute(0x00E0),
        s.can_execute(opcode_nnn(0x1, nnn)),
        s.sp < STACK_SIZE ==> s.can_execute(opcode_nnn(0x2, nnn)),
        s.pc + 2 <= u16::MAX ==> s.can_execute(opcode_nn(0x3, x, nn)),
        s.pc + 2 <= u16::MAX ==> s.can_execute(opcode_nn(0x4, x, nn)),
        s.pc + 2 <= u16::MAX ==> s.can_execute(opcode(0x5, x, y, 0)),
        s.can_execute(opcode_nn(0x6, x, nn)),
        s.can_execute(opcode_nn(0x7, x, nn)),
        s.can_execute(opcode(0x8, x, y, n)),
        s.pc + 2 <= u16::MAX ==> s.can_execute(opcode(0x9, x, y, 0)),
        s.can_execute(opcode_nnn(0xA, nnn)),
        s.can_execute(opcode_nnn(0xB, nnn)),
        s.can_execute(opcode_nn(0xC, x, nn)),
        s.i + n <= RAM_SIZE ==> s.can_execute(opcode(0xD, x, y, n)),
        s.v[x] < 16 && s.pc + 2 <= u16::MAX ==> s.can_execute(opcode_nn(0xE, x, 0x9E)),
        s.v[x] < 16 && s.pc + 2 <= u16::MAX ==> s.can_execute(opcode_nn(0xE, x, 0xA1)),
        s.can_execute(opcode_nn(0xF, x, 0x07)),
        s.pc >= 2 ==> s.can_execute(opcode_nn(0xF, x, 0x0A)),
        s.can_execute(opcode_nn(0xF, x, 0x15)),
        s.can_execute(opcode_nn(0xF, x, 0x18)),
        s.can_execute(opcode_nn(0xF, x, 0x1E)),
        s.can_execute(opcode_nn(0xF, x, 0x29)),
        s.i + 2 < RAM_SIZE ==> s.can_execute(opcode_nn(0xF, x, 0x33)),
        s.i + x < RAM_SIZE ==> s.can_execute(opcode_nn(0xF, x, 0x55)),
        s.i + x < RAM_SIZE ==> s.can_execute(opcode_nn(0xF, x, 0x65)),
{
    lemma_opcode_nnn_fields(0x1, nnn);
    lemma_opcode_nnn_fields(0x2, nnn);
    lemma_opcode_nn_fields(0x3, x, nn);
    lemma_opcode_nn_fields(0x4, x, nn);
    lemma_opcode_fields(0x5, x, y, 0);
    lemma_opcode_nn_fields(0x6, x, nn);
    lemma_opcode_nn_fields(0x7, x, nn);
    lemma_opcode_fields(0x8, x, y, n);
    lemma_opcode_fields(0x9, x, y, 0);
    lemma_opcode_nnn_fields(0xA, nnn);
    lemma_opcode_nnn_fields(0xB, nnn);
    lemma_opcode_nn_fields(0xC, x, nn);
    lemma_opcode_fields(0xD, x, y, n);
    lemma_opcode_nn_fields(0xE, x, 0x9E);
    lemma_opcode_nn_fields(0xE, x, 0xA1);
    lemma_opcode_nn_fields(0xF, x, 0x07);
    lemma_opcode_nn_fields(0xF, x, 0x0A);
    lemma_opcode_nn_fields(0xF, x, 0x15);
    lemma_opcode_nn_fields(0xF, x, 0x18);
    lemma_opcode_nn_fields(0xF, x, 0x1E);
    lemma_opcode_nn_fields(0xF, x, 0x29);
    lemma_opcode_nn_fields(0xF, x, 0x33);
    lemma_opcode_nn_fields(0xF, x, 0x55);
    lemma_opcode_nn_fields(0xF, x, 0x65);
}

/// A cycle on `6XNN` stored at the program counter moves the program
/// counter two bytes on and sets `VX` to `NN`: the opcode is fetched before
/// it is executed, and the program counter is advanced once.
pub proof fn law_step_runs_fetched_load(s: CpuState, rnd: u8)
    requires
        s.well_formed(),
        s.can_fetch(),
        s.ram[s.pc as int] / 16 == 6,
    ensures
        s.step(rnd) == (CpuState {
            pc: (s.pc + 2) as u16,
            v: s.v.update((s.ram[s.pc as int] % 16) as int, s.ram[s.pc + 1]),
            ..s
        }),
{
    let hi = s.ram[s.pc as int];
    let lo = s.ram[s.pc + 1];
    let x = (hi % 16) as int;
    assert(s.opcode_at_pc() == opcode_nn(0x6, x, lo));
    lemma_opcode_nn_fields(0x6, x, lo);
}

/// A cycle on `3XNN` stored at the program counter ends four bytes on when
/// `VX` equals `NN` and two bytes on otherwise.
pub proof fn law_step_runs_fetched_skip(s: CpuState, rnd: u8)
    requires
        s.well_formed(),
        s.can_fetch(),
        s.pc + 4 <= u16::MAX,
        s.ram[s.pc as int] / 16 == 3,
    ensures
        (s.step(rnd).pc == s.pc + 4) <==> (s.v[(s.ram[s.pc as int] % 16) as int] == s.ram[s.pc
            + 1]),
        (s.step(rnd).pc == s.pc + 2) <==> (s.v[(s.ram[s.pc as int] % 16) as int] != s.ram[s.pc
            + 1]),
        s.step(rnd) == (CpuState { pc: s.step(rnd).pc, ..s }),
{
    let hi = s.ram[s.pc as int];
    let lo = s.ram[s.pc + 1];
    let x = (hi % 16) as int;
    assert(s.opcode_at_pc() == opcode_nn(0x3, x, lo));
    lemma_opcode_nn_fields(0x3, x, lo);
}

} // verus!
