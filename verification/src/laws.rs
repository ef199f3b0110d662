//! Properties of the instruction set that span several instructions or states.

use vstd::prelude::*;

use crate::cpu::{
    DISPLAY_HEIGHT, DISPLAY_SIZE, DISPLAY_WIDTH, FONT_SIZE, FONT_START, PROGRAM_START, RAM_SIZE,
    STACK_SIZE,
};
use crate::state::{
    first_pressed, font_sprites, names_instruction, op_kind, op_n, op_nn, op_x, op_y,
    sprite_pixel, sprite_position_set, CpuState,
};

verus! {

/// A freshly switched-on machine has memory, registers, stack, screen and
/// keypad of their fixed sizes, an empty stack, and the font in memory.
pub proof fn lemma_initial_state()
    ensures
        CpuState::initial().well_formed(),
        CpuState::initial().sp == 0,
        CpuState::initial().pc == PROGRAM_START,
        forall|k: int|
            0 <= k < FONT_SIZE ==> #[trigger] CpuState::initial().ram[FONT_START + k]
                == font_sprites()[k],
{
}

/// After `FX29` the five bytes at `I` are the font sprite of the low nibble
/// of `VX`, as long as the font in memory is intact.
pub proof fn lemma_font_sprite_address(s: CpuState, x: int)
    requires
        s.well_formed(),
        0 <= x < 16,
        forall|k: int|
            0 <= k < FONT_SIZE ==> #[trigger] s.ram[FONT_START + k] == font_sprites()[k],
    ensures
        forall|k: int|
            0 <= k < 5 ==> #[trigger] s.op_ld_f_vx(x).ram[s.op_ld_f_vx(x).i + k]
                == font_sprites()[(s.v[x] % 16) * 5 + k],
{
    let d = (s.v[x] % 16) as int;
    assert(0 <= d < 16);
    assert(s.op_ld_f_vx(x).i == d * 5);
    assert forall|k: int| 0 <= k < 5 implies #[trigger] s.op_ld_f_vx(x).ram[s.op_ld_f_vx(x).i + k]
        == font_sprites()[(s.v[x] % 16) * 5 + k] by {
        assert(s.ram[FONT_START + (d * 5 + k)] == font_sprites()[d * 5 + k]);
    }
}

/// A program loaded into a fresh machine starts with its first two bytes:
/// they form the first opcode that is fetched.
pub proof fn lemma_rom_first_opcode(data: Seq<u8>)
    requires
        2 <= data.len(),
        PROGRAM_START + data.len() <= RAM_SIZE,
    ensures
        CpuState::initial().with_rom(data).can_fetch(),
        CpuState::initial().with_rom(data).opcode_at_pc() == data[0] as int * 0x100
            + data[1] as int,
{
}

/// Loading a program changes memory at the program's addresses only, and
/// there to the program's bytes.
pub proof fn lemma_rom_read_back(s: CpuState, data: Seq<u8>, a: int)
    requires
        s.well_formed(),
        PROGRAM_START + data.len() <= RAM_SIZE,
        0 <= a < RAM_SIZE,
    ensures
        s.with_rom(data).well_formed(),
        PROGRAM_START <= a < PROGRAM_START + data.len() ==> s.with_rom(data).ram[a] == data[a
            - PROGRAM_START],
        !(PROGRAM_START <= a < PROGRAM_START + data.len()) ==> s.with_rom(data).ram[a]
            == s.ram[a],
{
}

/// `2NNN` followed by `00EE` comes back to where it was called from: the
/// program counter and stack depth are restored, and only the stack slot
/// that held the return address differs.
pub proof fn lemma_call_then_return(s: CpuState, nnn: u16)
    requires
        s.well_formed(),
        s.sp < STACK_SIZE,
    ensures
        s.op_call(nnn).op_ret() == (CpuState { stack: s.stack.update(s.sp as int, s.pc), ..s }),
{
}

/// Whether pixel `idx` is flipped an odd number of times by the first `k`
/// positions of the sprite stored at `i`, drawn with its corner at
/// (`xs`, `ys`).
pub open spec fn flipped(ram: Seq<u8>, i: u16, xs: int, ys: int, k: nat, idx: int) -> bool
    decreases k,
{
    if k == 0 {
        false
    } else {
        flipped(ram, i, xs, ys, (k - 1) as nat, idx) != (sprite_position_set(ram, i, k - 1)
            && sprite_pixel(xs, ys, k - 1) == idx)
    }
}

/// Every sprite position lands on the screen.
pub proof fn lemma_sprite_pixel_on_screen(xs: int, ys: int, p: int)
    requires
        0 <= xs < DISPLAY_WIDTH,
        0 <= ys < DISPLAY_HEIGHT,
        0 <= p,
    ensures
        0 <= sprite_pixel(xs, ys, p) < DISPLAY_SIZE,
{
    let py = (ys + p / 8) % 32;
    let px = (xs + p % 8) % 64;
    assert(0 <= py < 32 && 0 <= px < 64);
    assert(py * 64 + px < 2048) by (nonlinear_arith)
        requires
            0 <= py < 32,
            0 <= px < 64,
    ;
}

/// Drawing keeps the screen's size, and a pixel ends up lit exactly when it
/// was lit before or was flipped an odd number of times, not both.
pub proof fn lemma_draw_flips(s: CpuState, screen: Seq<bool>, xs: int, ys: int, k: nat)
    requires
        screen.len() == DISPLAY_SIZE,
        0 <= xs < DISPLAY_WIDTH,
        0 <= ys < DISPLAY_HEIGHT,
    ensures
        s.draw_positions(screen, xs, ys, k).0.len() == DISPLAY_SIZE,
        forall|idx: int|
            0 <= idx < DISPLAY_SIZE ==> #[trigger] s.draw_positions(screen, xs, ys, k).0[idx] == (
            screen[idx] != flipped(s.ram, s.i, xs, ys, k, idx)),
    decreases k,
{
    if k > 0 {
        lemma_draw_flips(s, screen, xs, ys, (k - 1) as nat);
        lemma_sprite_pixel_on_screen(xs, ys, k - 1);
    }
}

/// `DXYN` keeps the machine's shape.
pub proof fn lemma_draw_keeps_shape(s: CpuState, x: int, y: int, n: int)
    requires
        s.well_formed(),
        0 <= x < 16,
        0 <= y < 16,
    ensures
        s.op_drw(x, y, n).well_formed(),
{
    lemma_draw_flips(
        s,
        s.display,
        s.v[x] as int % DISPLAY_WIDTH as int,
        s.v[y] as int % DISPLAY_HEIGHT as int,
        (n * 8) as nat,
    );
}

/// Drawing the same sprite twice at the same place leaves the screen as it
/// was (the second XOR undoes the first), for any number of rows, as long as
/// neither coordinate is read from `VF`, which the first drawing overwrites.
/// Memory, `I`, the program counter, the stack, the timers, the keys and
/// `V0`..`VE` are kept too, and the screen is marked as drawn.
pub proof fn lemma_draw_twice_restores_screen(s: CpuState, x: int, y: int, n: int)
    requires
        s.well_formed(),
        0 <= x < 15,
        0 <= y < 15,
        0 <= n,
    ensures
        ({
            let t = s.op_drw(x, y, n).op_drw(x, y, n);
            &&& t.display == s.display
            &&& t == (CpuState { display: s.display, v: t.v, draw_flag: true, ..s })
            &&& t.v.len() == 16
            &&& forall|r: int| 0 <= r < 15 ==> t.v[r] == s.v[r]
        }),
{
    let xs = s.v[x] as int % DISPLAY_WIDTH as int;
    let ys = s.v[y] as int % DISPLAY_HEIGHT as int;
    let t = s.op_drw(x, y, n);
    assert(t.v[x] == s.v[x]);
    assert(t.v[y] == s.v[y]);
    lemma_draw_flips(s, s.display, xs, ys, (n * 8) as nat);
    lemma_draw_flips(t, t.display, xs, ys, (n * 8) as nat);
    assert(t.op_drw(x, y, n).display =~= s.display);
}

/// Whether pixel `idx` is set by the sprite among the first `k` sprite
/// positions, taken row by row (position `8 * row + col`).
pub open spec fn drawn_before(s: CpuState, xs: int, ys: int, n: int, idx: int, k: int) -> bool {
    &&& s.sprite_covers(xs, ys, n, idx)
    &&& CpuState::sprite_row(ys, idx / DISPLAY_WIDTH as int) * 8 + CpuState::sprite_col(
        xs,
        idx % DISPLAY_WIDTH as int,
    ) < k
}

/// Whether one of the first `k` sprite positions lands on a lit pixel.
pub open spec fn collides_before(s: CpuState, xs: int, ys: int, n: int, k: int) -> bool {
    exists|idx: int|
        0 <= idx < DISPLAY_SIZE && #[trigger] drawn_before(s, xs, ys, n, idx, k) && s.display[idx]
}

/// The screen index of sprite row `r`, column `c` for a sprite at (`xs`,
/// `ys`) is the only pixel that lies at that sprite row and column.
#[verifier::spinoff_prover]
pub proof fn lemma_pixel_index(xs: int, ys: int, r: int, c: int)
    requires
        0 <= xs < DISPLAY_WIDTH,
        0 <= ys < DISPLAY_HEIGHT,
        0 <= r < DISPLAY_HEIGHT,
        0 <= c < DISPLAY_WIDTH,
    ensures
        ({
            let idx0 = ((ys + r) % 32) * 64 + (xs + c) % 64;
            &&& 0 <= idx0 < DISPLAY_SIZE
            &&& CpuState::sprite_row(ys, idx0 / 64) == r
            &&& CpuState::sprite_col(xs, idx0 % 64) == c
            &&& forall|idx: int|
                0 <= idx < DISPLAY_SIZE && #[trigger] CpuState::sprite_row(ys, idx / 64) == r
                    && CpuState::sprite_col(xs, idx % 64) == c ==> idx == idx0
        }),
{
    let py0 = (ys + r) % 32;
    let px0 = (xs + c) % 64;
    if ys + r < 32 {
        assert(py0 == ys + r);
    } else {
        assert(py0 == ys + r - 32);
    }
    if xs + c < 64 {
        assert(px0 == xs + c);
    } else {
        assert(px0 == xs + c - 64);
    }
    let idx0 = py0 * 64 + px0;
    assert(idx0 / 64 == py0 && idx0 % 64 == px0);
    assert(CpuState::sprite_row(ys, idx0 / 64) == r) by {
        if py0 >= ys {
            assert((py0 - ys) % 32 == py0 - ys);
        } else {
            assert((py0 - ys) % 32 == py0 - ys + 32);
        }
    }
    assert(CpuState::sprite_col(xs, idx0 % 64) == c) by {
        if px0 >= xs {
            assert((px0 - xs) % 64 == px0 - xs);
        } else {
            assert((px0 - xs) % 64 == px0 - xs + 64);
        }
    }
    assert forall|idx: int|
        0 <= idx < DISPLAY_SIZE && #[trigger] CpuState::sprite_row(ys, idx / 64) == r
            && CpuState::sprite_col(xs, idx % 64) == c implies idx == idx0 by {
        let py = idx / 64;
        let px = idx % 64;
        assert(0 <= py < 32 && 0 <= px < 64);
        assert(idx == py * 64 + px);
        if py >= ys {
            assert((py - ys) % 32 == py - ys);
        } else {
            assert((py - ys) % 32 == py - ys + 32);
        }
        if px >= xs {
            assert((px - xs) % 64 == px - xs);
        } else {
            assert((px - xs) % 64 == px - xs + 64);
        }
        assert(py == py0);
        assert(px == px0);
    }
}

/// Drawing sprite position `p` adds exactly the pixel it lands on, if its
/// bit is set, to the pixels drawn so far, and that pixel was not drawn
/// before (sprites of at most 32 rows never land twice on one pixel).
pub proof fn lemma_drawn_before_step(s: CpuState, xs: int, ys: int, n: int, p: int)
    requires
        0 <= xs < DISPLAY_WIDTH,
        0 <= ys < DISPLAY_HEIGHT,
        0 <= n <= DISPLAY_HEIGHT,
        0 <= p < n * 8,
    ensures
        0 <= sprite_pixel(xs, ys, p) < DISPLAY_SIZE,
        !drawn_before(s, xs, ys, n, sprite_pixel(xs, ys, p), p),
        forall|j: int|
            0 <= j < DISPLAY_SIZE ==> #[trigger] drawn_before(s, xs, ys, n, j, p + 1) == (
            drawn_before(s, xs, ys, n, j, p) || (sprite_position_set(s.ram, s.i, p) && j
                == sprite_pixel(xs, ys, p))),
{
    let r = p / 8;
    let c = p % 8;
    assert(0 <= r < 32);
    lemma_pixel_index(xs, ys, r, c);
    let gi = sprite_pixel(xs, ys, p);
    assert(gi == ((ys + r) % 32) * 64 + (xs + c) % 64);
    assert forall|j: int| 0 <= j < DISPLAY_SIZE implies #[trigger] drawn_before(
        s,
        xs,
        ys,
        n,
        j,
        p + 1,
    ) == (drawn_before(s, xs, ys, n, j, p) || (sprite_position_set(s.ram, s.i, p) && j == gi)) by {
        if j == gi {
            assert(CpuState::sprite_row(ys, j / 64) == r);
            assert(CpuState::sprite_col(xs, j % 64) == c);
        }
        if drawn_before(s, xs, ys, n, j, p + 1) && !drawn_before(s, xs, ys, n, j, p) {
            assert(CpuState::sprite_row(ys, j / 64) == r);
            assert(CpuState::sprite_col(xs, j % 64) == c);
        }
    }
}

/// Up to sprite position `k`, drawing flips exactly the pixels drawn so far,
/// and the flag is raised exactly when one of them was lit.
#[verifier::spinoff_prover]
#[verifier::rlimit(40)]
pub proof fn lemma_draw_closed_form_upto(s: CpuState, xs: int, ys: int, n: int, k: nat)
    requires
        s.well_formed(),
        0 <= xs < DISPLAY_WIDTH,
        0 <= ys < DISPLAY_HEIGHT,
        0 <= n <= DISPLAY_HEIGHT,
        k <= n * 8,
    ensures
        s.draw_positions(s.display, xs, ys, k).0.len() == DISPLAY_SIZE,
        forall|idx: int|
            0 <= idx < DISPLAY_SIZE ==> #[trigger] s.draw_positions(s.display, xs, ys, k).0[idx]
                == (s.display[idx] != drawn_before(s, xs, ys, n, idx, k as int)),
        s.draw_positions(s.display, xs, ys, k).1 == collides_before(s, xs, ys, n, k as int),
    decreases k,
{
    if k == 0 {
        assert(!collides_before(s, xs, ys, n, 0));
    } else {
        let p = k - 1;
        lemma_draw_closed_form_upto(s, xs, ys, n, (k - 1) as nat);
        lemma_drawn_before_step(s, xs, ys, n, p);
        let gi = sprite_pixel(xs, ys, p);
        let set = sprite_position_set(s.ram, s.i, p);
        let prev = s.draw_positions(s.display, xs, ys, p as nat);
        assert(s.draw_positions(s.display, xs, ys, k) == if set {
            (prev.0.update(gi, !prev.0[gi]), prev.1 || prev.0[gi])
        } else {
            prev
        });
        assert(prev.0[gi] == s.display[gi]);
        assert forall|idx: int| 0 <= idx < DISPLAY_SIZE implies #[trigger] s.draw_positions(
            s.display,
            xs,
            ys,
            k,
        ).0[idx] == (s.display[idx] != drawn_before(s, xs, ys, n, idx, k as int)) by {
            assert(drawn_before(s, xs, ys, n, idx, p + 1) == (drawn_before(s, xs, ys, n, idx, p)
                || (set && idx == gi)));
        }
        assert(collides_before(s, xs, ys, n, k as int) == (collides_before(s, xs, ys, n, p) || (
        set && s.display[gi]))) by {
            if collides_before(s, xs, ys, n, k as int) {
                let j = choose|j: int|
                    0 <= j < DISPLAY_SIZE && #[trigger] drawn_before(s, xs, ys, n, j, k as int)
                        && s.display[j];
                if j != gi {
                    assert(drawn_before(s, xs, ys, n, j, p));
                }
            }
            if collides_before(s, xs, ys, n, p) {
                let j = choose|j: int|
                    0 <= j < DISPLAY_SIZE && #[trigger] drawn_before(s, xs, ys, n, j, p)
                        && s.display[j];
                assert(drawn_before(s, xs, ys, n, j, k as int));
            }
            if set && s.display[gi] {
                assert(drawn_before(s, xs, ys, n, gi, k as int));
            }
        }
    }
}

/// For sprites of at most 32 rows, which never land twice on one pixel,
/// `DXYN` flips exactly the pixels the sprite covers, and `VF` is 1 exactly
/// when one of them was lit.
pub proof fn lemma_draw_without_overlap(s: CpuState, x: int, y: int, n: int)
    requires
        s.well_formed(),
        0 <= x < 16,
        0 <= y < 16,
        0 <= n <= DISPLAY_HEIGHT,
    ensures
        ({
            let xs = s.v[x] as int % DISPLAY_WIDTH as int;
            let ys = s.v[y] as int % DISPLAY_HEIGHT as int;
            &&& s.op_drw(x, y, n).display == Seq::new(
                DISPLAY_SIZE as nat,
                |idx: int| s.display[idx] != s.sprite_covers(xs, ys, n, idx),
            )
            &&& s.op_drw(x, y, n).v[15] == if s.sprite_collides(xs, ys, n) {
                1u8
            } else {
                0u8
            }
        }),
{
    let xs = s.v[x] as int % DISPLAY_WIDTH as int;
    let ys = s.v[y] as int % DISPLAY_HEIGHT as int;
    let k = (n * 8) as nat;
    lemma_draw_closed_form_upto(s, xs, ys, n, k);
    assert forall|j: int| 0 <= j < DISPLAY_SIZE implies drawn_before(s, xs, ys, n, j, k as int)
        == s.sprite_covers(xs, ys, n, j) by {}
    assert(collides_before(s, xs, ys, n, k as int) == s.sprite_collides(xs, ys, n)) by {
        if collides_before(s, xs, ys, n, k as int) {
            let j = choose|j: int|
                0 <= j < DISPLAY_SIZE && #[trigger] drawn_before(s, xs, ys, n, j, k as int)
                    && s.display[j];
            assert(s.sprite_covers(xs, ys, n, j));
        }
        if s.sprite_collides(xs, ys, n) {
            let j = choose|j: int|
                0 <= j < DISPLAY_SIZE && #[trigger] s.sprite_covers(xs, ys, n, j) && s.display[j];
            assert(drawn_before(s, xs, ys, n, j, k as int));
        }
    }
    assert(s.op_drw(x, y, n).display =~= Seq::new(
        DISPLAY_SIZE as nat,
        |idx: int| s.display[idx] != s.sprite_covers(xs, ys, n, idx),
    ));
}

/// `FX33` writes three decimal digits whose value is `VX`.
pub proof fn lemma_bcd_digits(s: CpuState, x: int)
    requires
        s.well_formed(),
        0 <= x < 16,
        s.i + 2 < RAM_SIZE,
    ensures
        ({
            let t = s.op_ld_b_vx(x);
            &&& t.ram[s.i as int] < 10
            &&& t.ram[s.i + 1] < 10
            &&& t.ram[s.i + 2] < 10
            &&& t.ram[s.i as int] * 100 + t.ram[s.i + 1] * 10 + t.ram[s.i + 2] == s.v[x]
        }),
{
}

/// `FX65` after `FX55` with the same `X` and `I` loads back exactly the
/// registers that were stored: the registers stay as they were.
pub proof fn lemma_store_then_load_registers(s: CpuState, x: int)
    requires
        s.well_formed(),
        0 <= x < 16,
        s.i + x < RAM_SIZE,
    ensures
        s.op_ld_i_vx(x).op_ld_vx_i(x) == s.op_ld_i_vx(x),
{
    let t = s.op_ld_i_vx(x);
    assert(t.op_ld_vx_i(x).v =~= t.v);
}

/// `8XY4`: the carry in `VF` and the new `VX` together are the full sum.
pub proof fn lemma_add_carry(s: CpuState, x: int, y: int)
    requires
        s.well_formed(),
        0 <= x < 15,
        0 <= y < 16,
    ensures
        s.op_add_vx_vy(x, y).v[15] * 256 + s.op_add_vx_vy(x, y).v[x] == s.v[x] + s.v[y],
{
}

/// `8XY5`: `VF` is the "no borrow" flag of the subtraction: the new `VX`
/// is `VX - VY`, plus 256 exactly when `VF` is 0.
pub proof fn lemma_sub_borrow(s: CpuState, x: int, y: int)
    requires
        s.well_formed(),
        0 <= x < 15,
        0 <= y < 16,
    ensures
        s.op_sub(x, y).v[x] == s.v[x] - s.v[y] + (1 - s.op_sub(x, y).v[15]) * 256,
{
}

/// Only `CXNN` depends on the random byte: for every other opcode a cycle
/// has one outcome.
pub proof fn lemma_step_deterministic(s: CpuState, r1: u8, r2: u8)
    requires
        op_kind(s.opcode_at_pc()) != 0xC,
    ensures
        s.step(r1) == s.step(r2),
{
}

/// `FX0A` with no key pressed leaves the whole machine as it was: it waits,
/// and the next cycle runs the same instruction again.
pub proof fn lemma_wait_for_key_idles(s: CpuState, rnd: u8)
    requires
        s.well_formed(),
        s.can_fetch(),
        op_kind(s.opcode_at_pc()) == 0xF,
        op_nn(s.opcode_at_pc()) == 0x0A,
        first_pressed(s.keys) < 0,
    ensures
        s.step(rnd) == s,
{
}

/// With a key pressed, `FX0A` stores the lowest pressed key, which is a
/// valid key index that is pressed, and moves on.
pub proof fn lemma_wait_for_key_stores_key(s: CpuState, x: int)
    requires
        s.well_formed(),
        0 <= x < 16,
        first_pressed(s.keys) >= 0,
    ensures
        ({
            let k = s.op_ld_vx_k(x).v[x] as int;
            &&& k < 16
            &&& s.keys[k]
            &&& forall|j: int| 0 <= j < k ==> !s.keys[j]
            &&& s.op_ld_vx_k(x).pc == s.pc
        }),
{
    lemma_first_pressed_is_first(s.keys, 0);
}

/// The first pressed key at or after `from` is pressed, and no key between
/// `from` and it is.
pub proof fn lemma_first_pressed_is_first(keys: Seq<bool>, from: int)
    requires
        0 <= from,
        crate::state::first_pressed_from(keys, from) >= 0,
    ensures
        from <= crate::state::first_pressed_from(keys, from) < keys.len(),
        keys[crate::state::first_pressed_from(keys, from)],
        forall|j: int|
            from <= j < crate::state::first_pressed_from(keys, from) ==> !keys[j],
    decreases keys.len() - from,
{
    if from < keys.len() && !keys[from] {
        lemma_first_pressed_is_first(keys, from + 1);
    }
}

/// Every cycle that may run keeps the machine well formed and the stack
/// depth within the stack.
pub proof fn lemma_step_keeps_shape(s: CpuState, rnd: u8)
    requires
        s.well_formed(),
        s.sp <= STACK_SIZE,
        s.can_step(),
    ensures
        s.step(rnd).well_formed(),
        s.step(rnd).sp <= STACK_SIZE,
{
    let op = s.opcode_at_pc();
    if op_kind(op) == 0xD {
        lemma_draw_keeps_shape(s.after_fetch(), op_x(op), op_y(op), op_n(op));
    }
}

/// An opcode that names no instruction changes nothing: the cycle only moves
/// the program counter past it.
pub proof fn lemma_unknown_opcode_is_skipped(s: CpuState, op: u16, rnd: u8)
    requires
        !names_instruction(op),
    ensures
        s.execute(op, rnd) == s,
        s.can_execute(op),
{
}

/// `CXNN` keeps only the bits of the random byte that `NN` allows: no bit
/// outside the mask is ever set in `VX`.
pub proof fn lemma_random_is_masked(s: CpuState, x: int, nn: u8, rnd: u8)
    requires
        s.well_formed(),
        0 <= x < 16,
    ensures
        s.op_rnd(x, nn, rnd).v[x] & !nn == 0,
{
    assert((rnd & nn) & !nn == 0) by (bit_vector);
}

/// After `k` timer ticks each timer is its old value less `k`, but never
/// below zero, and nothing else has changed.
pub proof fn lemma_timers_after_ticks(s: CpuState, k: nat)
    ensures
        s.timers_ticked_times(k).delay_timer == if s.delay_timer >= k {
            s.delay_timer - k
        } else {
            0
        },
        s.timers_ticked_times(k).sound_timer == if s.sound_timer >= k {
            s.sound_timer - k
        } else {
            0
        },
        s.timers_ticked_times(k) == (CpuState {
            delay_timer: s.timers_ticked_times(k).delay_timer,
            sound_timer: s.timers_ticked_times(k).sound_timer,
            ..s
        }),
    decreases k,
{
    if k > 0 {
        lemma_timers_after_ticks(s, (k - 1) as nat);
    }
}

/// Of `3XNN` and `4XNN` exactly one skips; the same holds of `5XY0` and
/// `9XY0`, and of `EX9E` and `EXA1`. Neither changes anything but the
/// program counter.
pub proof fn lemma_skips_are_complementary(s: CpuState, x: int, y: int, nn: u8)
    requires
        s.well_formed(),
        0 <= x < 16,
        0 <= y < 16,
        s.pc + 2 <= u16::MAX,
    ensures
        s.op_se_vx_byte(x, nn).pc + s.op_sne_vx_byte(x, nn).pc == 2 * s.pc + 2,
        s.op_se_vx_byte(x, nn) == (CpuState { pc: s.op_se_vx_byte(x, nn).pc, ..s }),
        s.op_sne_vx_byte(x, nn) == (CpuState { pc: s.op_sne_vx_byte(x, nn).pc, ..s }),
        s.op_se_vx_vy(x, y).pc + s.op_sne_vx_vy(x, y).pc == 2 * s.pc + 2,
        s.op_se_vx_vy(x, y) == (CpuState { pc: s.op_se_vx_vy(x, y).pc, ..s }),
        s.op_sne_vx_vy(x, y) == (CpuState { pc: s.op_sne_vx_vy(x, y).pc, ..s }),
        s.v[x] < 16 ==> s.op_skp(x).pc + s.op_sknp(x).pc == 2 * s.pc + 2,
        s.op_skp(x) == (CpuState { pc: s.op_skp(x).pc, ..s }),
        s.op_sknp(x) == (CpuState { pc: s.op_sknp(x).pc, ..s }),
{
}

/// `FX65` after `FX55` with the same `X` and `I` brings `V0..=VX` back to
/// the values that were stored, whatever the registers were changed to in
/// between; the registers above `VX` keep their current values.
pub proof fn lemma_store_then_load_restores(s: CpuState, x: int, u: CpuState)
    requires
        s.well_formed(),
        0 <= x < 16,
        s.i + x < RAM_SIZE,
        u == (CpuState { v: u.v, ..s.op_ld_i_vx(x) }),
        u.v.len() == 16,
    ensures
        forall|r: int| 0 <= r <= x ==> #[trigger] u.op_ld_vx_i(x).v[r] == s.v[r],
        forall|r: int| x < r < 16 ==> #[trigger] u.op_ld_vx_i(x).v[r] == u.v[r],
        u.op_ld_vx_i(x) == (CpuState { v: u.op_ld_vx_i(x).v, ..s.op_ld_i_vx(x) }),
{
}

/// `8XY3` twice with `X` and `Y` different leaves the machine as it was:
/// XOR with `VY` is its own inverse.
pub proof fn lemma_xor_twice_restores(s: CpuState, x: int, y: int)
    requires
        s.well_formed(),
        0 <= x < 16,
        0 <= y < 16,
        x != y,
    ensures
        s.op_xor(x, y).op_xor(x, y) == s,
{
    let a = s.v[x];
    let b = s.v[y];
    assert((a ^ b) ^ b == a) by (bit_vector);
    assert(s.op_xor(x, y).op_xor(x, y).v =~= s.v);
}

/// Every font glyph is four pixels wide (only the high nibble of a row is
/// ever set) and has a non-empty top and bottom row.
pub proof fn lemma_font_glyph_shape()
    ensures
        font_sprites().len() == FONT_SIZE,
        forall|k: int| 0 <= k < FONT_SIZE ==> #[trigger] font_sprites()[k] % 16 == 0,
        forall|d: int|
            0 <= d < 16 ==> #[trigger] font_sprites()[d * 5] != 0 && font_sprites()[d * 5 + 4]
                != 0,
{
}

} // verus!
