//! The mathematical model of the machine and the meaning of each instruction.
//!
//! A [`CpuState`] is what a [`crate::cpu::Cpu`] holds, with its arrays seen as
//! sequences. Each instruction is a function from state to state; an exec
//! method of `Cpu` is specified as exactly that function.

use vstd::prelude::*;

use crate::cpu::{
    DISPLAY_HEIGHT, DISPLAY_SIZE, DISPLAY_WIDTH, FONT_SIZE, FONT_START, PROGRAM_START, RAM_SIZE,
    STACK_SIZE,
};

verus! {

/// The abstract machine: memory, registers, stack, timers, screen and keypad.
#[verifier::ext_equal]
pub ghost struct CpuState {
    pub ram: Seq<u8>,
    pub v: Seq<u8>,
    pub i: u16,
    pub pc: u16,
    pub stack: Seq<u16>,
    pub sp: usize,
    pub delay_timer: u8,
    pub sound_timer: u8,
    pub display: Seq<bool>,
    pub keys: Seq<bool>,
    pub draw_flag: bool,
}

/// The built-in hexadecimal font: five bytes per digit, `0` to `F`.
pub open spec fn font_sprites() -> Seq<u8> {
    seq![
        0xF0u8, 0x90, 0x90, 0x90, 0xF0,
        0x20, 0x60, 0x20, 0x20, 0x70,
        0xF0, 0x10, 0xF0, 0x80, 0xF0,
        0xF0, 0x10, 0xF0, 0x10, 0xF0,
        0x90, 0x90, 0xF0, 0x10, 0x10,
        0xF0, 0x80, 0xF0, 0x10, 0xF0,
        0xF0, 0x80, 0xF0, 0x90, 0xF0,
        0xF0, 0x10, 0x20, 0x40, 0x40,
        0xF0, 0x90, 0xF0, 0x90, 0xF0,
        0xF0, 0x90, 0xF0, 0x10, 0xF0,
        0xF0, 0x90, 0xF0, 0x90, 0x90,
        0xE0, 0x90, 0xE0, 0x90, 0xE0,
        0xF0, 0x80, 0x80, 0x80, 0xF0,
        0xE0, 0x90, 0x90, 0x90, 0xE0,
        0xF0, 0x80, 0xF0, 0x80, 0xF0,
        0xF0, 0x80, 0xF0, 0x80, 0x80,
    ]
}

// ---------------------------------------------------------------------------
// Decoding of an opcode `0xKXYN`, `0xKXNN`, `0xKNNN`.
// ---------------------------------------------------------------------------

/// The leading nibble `K`: the instruction class.
pub open spec fn op_kind(op: u16) -> int {
    op as int / 0x1000
}

/// The second nibble `X`: the first register.
pub open spec fn op_x(op: u16) -> int {
    (op as int / 0x100) % 0x10
}

/// The third nibble `Y`: the second register.
pub open spec fn op_y(op: u16) -> int {
    (op as int / 0x10) % 0x10
}

/// The last nibble `N`.
pub open spec fn op_n(op: u16) -> int {
    op as int % 0x10
}

/// The low byte `NN`.
pub open spec fn op_nn(op: u16) -> u8 {
    (op as int % 0x100) as u8
}

/// The low twelve bits `NNN`: an address.
pub open spec fn op_nnn(op: u16) -> u16 {
    (op as int % 0x1000) as u16
}

/// Whether `op` names an instruction of the machine.
pub open spec fn names_instruction(op: u16) -> bool {
    let kind = op_kind(op);
    let n = op_n(op);
    let nn = op_nn(op);
    if kind == 0x0 {
        op == 0x00E0 || op == 0x00EE
    } else if kind == 0x8 {
        n <= 0x7 || n == 0xE
    } else if kind == 0xE {
        nn == 0x9E || nn == 0xA1
    } else if kind == 0xF {
        nn == 0x07 || nn == 0x0A || nn == 0x15 || nn == 0x18 || nn == 0x1E || nn == 0x29 || nn
            == 0x33 || nn == 0x55 || nn == 0x65
    } else {
        true
    }
}

/// Bit `col` of a sprite row, counting from the most significant bit.
pub open spec fn sprite_bit(byte: u8, col: int) -> bool {
    (byte >> ((7 - col) as u8)) & 1u8 == 1u8
}

/// The screen index on which position `p` of a sprite drawn with its corner
/// at (`xs`, `ys`) lands: sprite row `p / 8`, column `p % 8`, wrapping at the
/// screen's edges.
pub open spec fn sprite_pixel(xs: int, ys: int, p: int) -> int {
    ((ys + p / 8) % DISPLAY_HEIGHT as int) * DISPLAY_WIDTH as int + (xs + p % 8) % DISPLAY_WIDTH as int
}

/// Whether the bit of sprite position `p` (row `p / 8`, column `p % 8`) of
/// the sprite stored at `i` is set.
pub open spec fn sprite_position_set(ram: Seq<u8>, i: u16, p: int) -> bool {
    sprite_bit(ram[i + p / 8], p % 8)
}

/// The index of the first pressed key at or after `from`, or `-1` if none is.
pub open spec fn first_pressed_from(keys: Seq<bool>, from: int) -> int
    decreases keys.len() - from,
{
    if from < 0 || from >= keys.len() {
        -1
    } else if keys[from] {
        from
    } else {
        first_pressed_from(keys, from + 1)
    }
}

/// The index of the first pressed key, or `-1` if none is.
pub open spec fn first_pressed(keys: Seq<bool>) -> int {
    first_pressed_from(keys, 0)
}

impl CpuState {
    /// The machine as it is switched on: the font at the start of memory,
    /// everything else zero, the program counter at the program start.
    pub open spec fn initial() -> CpuState {
        CpuState {
            ram: Seq::new(
                RAM_SIZE as nat,
                |a: int|
                    if FONT_START <= a < FONT_START + FONT_SIZE {
                        font_sprites()[a - FONT_START]
                    } else {
                        0u8
                    },
            ),
            v: Seq::new(16, |k: int| 0u8),
            i: 0,
            pc: PROGRAM_START,
            stack: Seq::new(STACK_SIZE as nat, |k: int| 0u16),
            sp: 0,
            delay_timer: 0,
            sound_timer: 0,
            display: Seq::new(DISPLAY_SIZE as nat, |k: int| false),
            keys: Seq::new(16, |k: int| false),
            draw_flag: false,
        }
    }

    /// The shape every `Cpu` has: memory, registers, stack, screen and keypad
    /// of their fixed sizes.
    pub open spec fn well_formed(self) -> bool {
        &&& self.ram.len() == RAM_SIZE
        &&& self.v.len() == 16
        &&& self.stack.len() == STACK_SIZE
        &&& self.display.len() == DISPLAY_SIZE
        &&& self.keys.len() == 16
    }

    /// The state with `data` copied to memory from the program start on.
    pub open spec fn with_rom(self, data: Seq<u8>) -> CpuState {
        CpuState {
            ram: Seq::new(
                self.ram.len(),
                |a: int|
                    if PROGRAM_START <= a < PROGRAM_START + data.len() {
                        data[a - PROGRAM_START]
                    } else {
                        self.ram[a]
                    },
            ),
            ..self
        }
    }

    /// Whether the two bytes of the next opcode lie in memory.
    pub open spec fn can_fetch(self) -> bool {
        self.pc + 1 < RAM_SIZE
    }

    /// The big-endian opcode at the program counter.
    pub open spec fn opcode_at_pc(self) -> u16 {
        (self.ram[self.pc as int] as int * 0x100 + self.ram[self.pc + 1] as int) as u16
    }

    /// The state after the opcode was read: the program counter two further.
    pub open spec fn after_fetch(self) -> CpuState {
        CpuState { pc: (self.pc + 2) as u16, ..self }
    }

    /// Both timers one lower, neither below zero.
    pub open spec fn timers_ticked(self) -> CpuState {
        CpuState {
            delay_timer: if self.delay_timer > 0 { (self.delay_timer - 1) as u8 } else { 0 },
            sound_timer: if self.sound_timer > 0 { (self.sound_timer - 1) as u8 } else { 0 },
            ..self
        }
    }

    /// The timers after `k` timer ticks.
    pub open spec fn timers_ticked_times(self, k: nat) -> CpuState
        decreases k,
    {
        if k == 0 {
            self
        } else {
            self.timers_ticked_times((k - 1) as nat).timers_ticked()
        }
    }

    // -----------------------------------------------------------------------
    // Building blocks
    // -----------------------------------------------------------------------

    /// Register `x` set to `val`.
    pub open spec fn set_v(self, x: int, val: u8) -> CpuState {
        CpuState { v: self.v.update(x, val), ..self }
    }

    /// The next instruction skipped when `cond` holds.
    pub open spec fn skip_if(self, cond: bool) -> CpuState {
        if cond {
            CpuState { pc: (self.pc + 2) as u16, ..self }
        } else {
            self
        }
    }

    /// Whether skipping on `cond` keeps the program counter in range.
    pub open spec fn can_skip_if(self, cond: bool) -> bool {
        cond ==> self.pc + 2 <= u16::MAX
    }

    // -----------------------------------------------------------------------
    // The instructions
    // -----------------------------------------------------------------------

    /// `00E0`: clear the screen.
    pub open spec fn op_cls(self) -> CpuState {
        CpuState {
            display: Seq::new(DISPLAY_SIZE as nat, |k: int| false),
            draw_flag: true,
            ..self
        }
    }

    /// `00EE`: return from a subroutine.
    pub open spec fn op_ret(self) -> CpuState {
        CpuState {
            sp: (self.sp - 1) as usize,
            pc: self.stack[self.sp - 1],
            ..self
        }
    }

    /// `1NNN`: jump.
    pub open spec fn op_jp(self, nnn: u16) -> CpuState {
        CpuState { pc: nnn, ..self }
    }

    /// `2NNN`: call a subroutine.
    pub open spec fn op_call(self, nnn: u16) -> CpuState {
        CpuState {
            stack: self.stack.update(self.sp as int, self.pc),
            sp: (self.sp + 1) as usize,
            pc: nnn,
            ..self
        }
    }

    /// `3XNN`: skip if `VX == NN`.
    pub open spec fn op_se_vx_byte(self, x: int, nn: u8) -> CpuState {
        self.skip_if(self.v[x] == nn)
    }

    /// `4XNN`: skip if `VX != NN`.
    pub open spec fn op_sne_vx_byte(self, x: int, nn: u8) -> CpuState {
        self.skip_if(self.v[x] != nn)
    }

    /// `5XY0`: skip if `VX == VY`.
    pub open spec fn op_se_vx_vy(self, x: int, y: int) -> CpuState {
        self.skip_if(self.v[x] == self.v[y])
    }

    /// `6XNN`: `VX = NN` (a register index out of range changes nothing).
    pub open spec fn op_ld_vx_byte(self, x: int, nn: u8) -> CpuState {
        if 0 <= x < 16 {
            self.set_v(x, nn)
        } else {
            self
        }
    }

    /// `7XNN`: `VX += NN`, wrapping, flag untouched.
    pub open spec fn op_add_vx_byte(self, x: int, nn: u8) -> CpuState {
        self.set_v(x, ((self.v[x] + nn) % 256) as u8)
    }

    /// `8XY0`: `VX = VY`.
    pub open spec fn op_ld_vx_vy(self, x: int, y: int) -> CpuState {
        self.set_v(x, self.v[y])
    }

    /// `8XY1`: `VX |= VY`.
    pub open spec fn op_or(self, x: int, y: int) -> CpuState {
        self.set_v(x, self.v[x] | self.v[y])
    }

    /// `8XY2`: `VX &= VY`.
    pub open spec fn op_and(self, x: int, y: int) -> CpuState {
        self.set_v(x, self.v[x] & self.v[y])
    }

    /// `8XY3`: `VX ^= VY`.
    pub open spec fn op_xor(self, x: int, y: int) -> CpuState {
        self.set_v(x, self.v[x] ^ self.v[y])
    }

    /// `8XY4`: `VX += VY`, wrapping; then `VF` is the carry.
    pub open spec fn op_add_vx_vy(self, x: int, y: int) -> CpuState {
        let sum = self.v[x] + self.v[y];
        self.set_v(x, (sum % 256) as u8).set_v(15, if sum > 255 { 1u8 } else { 0u8 })
    }

    /// `8XY5`: `VX -= VY`, wrapping; then `VF` is 1 when nothing was borrowed.
    pub open spec fn op_sub(self, x: int, y: int) -> CpuState {
        let diff = self.v[x] - self.v[y];
        self.set_v(x, (diff % 256) as u8).set_v(15, if diff >= 0 { 1u8 } else { 0u8 })
    }

    /// `8XY6`: `VF` is the low bit of `VX`; then `VX` is halved.
    pub open spec fn op_shr(self, x: int) -> CpuState {
        let s = self.set_v(15, self.v[x] % 2);
        s.set_v(x, s.v[x] / 2)
    }

    /// `8XY7`: `VX = VY - VX`, wrapping; then `VF` is 1 when nothing was borrowed.
    pub open spec fn op_subn(self, x: int, y: int) -> CpuState {
        let diff = self.v[y] - self.v[x];
        self.set_v(x, (diff % 256) as u8).set_v(15, if diff >= 0 { 1u8 } else { 0u8 })
    }

    /// `8XYE`: `VF` is the high bit of `VX`; then `VX` is doubled, wrapping.
    pub open spec fn op_shl(self, x: int) -> CpuState {
        let s = self.set_v(15, self.v[x] / 128);
        s.set_v(x, ((s.v[x] * 2) % 256) as u8)
    }

    /// `9XY0`: skip if `VX != VY`.
    pub open spec fn op_sne_vx_vy(self, x: int, y: int) -> CpuState {
        self.skip_if(self.v[x] != self.v[y])
    }

    /// `ANNN`: `I = NNN`.
    pub open spec fn op_ld_i(self, nnn: u16) -> CpuState {
        CpuState { i: nnn, ..self }
    }

    /// `BNNN`: jump to `NNN + V0`.
    pub open spec fn op_jp_v0(self, nnn: u16) -> CpuState {
        CpuState { pc: (nnn + self.v[0]) as u16, ..self }
    }

    /// `CXNN`: `VX` is the random byte `rnd` masked by `NN`.
    pub open spec fn op_rnd(self, x: int, nn: u8, rnd: u8) -> CpuState {
        self.set_v(x, rnd & nn)
    }

    /// The column, counted from the sprite's left edge with wrap-around, at
    /// which a sprite drawn at column `xs` meets screen column `px`.
    pub open spec fn sprite_col(xs: int, px: int) -> int {
        (px - xs) % (DISPLAY_WIDTH as int)
    }

    /// The row, counted from the sprite's top edge with wrap-around, at which
    /// a sprite drawn at row `ys` meets screen row `py`.
    pub open spec fn sprite_row(ys: int, py: int) -> int {
        (py - ys) % (DISPLAY_HEIGHT as int)
    }

    /// Whether the `n`-row sprite at `I`, drawn with its corner at
    /// (`xs`, `ys`), sets pixel `idx` of the screen.
    pub open spec fn sprite_covers(self, xs: int, ys: int, n: int, idx: int) -> bool {
        let row = Self::sprite_row(ys, idx / DISPLAY_WIDTH as int);
        let col = Self::sprite_col(xs, idx % DISPLAY_WIDTH as int);
        &&& row < n
        &&& col < 8
        &&& sprite_bit(self.ram[self.i + row], col)
    }

    /// Whether drawing that sprite turns off some lit pixel.
    pub open spec fn sprite_collides(self, xs: int, ys: int, n: int) -> bool {
        exists|idx: int|
            0 <= idx < DISPLAY_SIZE && #[trigger] self.sprite_covers(xs, ys, n, idx)
                && self.display[idx]
    }

    /// The screen and the collision flag after the first `k` positions of
    /// the sprite at `I`, corner at (`xs`, `ys`), were drawn one by one onto
    /// `screen`. Position `p` is row `p / 8`, column `p % 8` of the sprite;
    /// where its bit is set, the pixel it lands on is flipped, and the flag
    /// is raised when that pixel was lit just before.
    pub open spec fn draw_positions(self, screen: Seq<bool>, xs: int, ys: int, k: nat) -> (
        Seq<bool>,
        bool,
    )
        decreases k,
    {
        if k == 0 {
            (screen, false)
        } else {
            let (before, hit) = self.draw_positions(screen, xs, ys, (k - 1) as nat);
            let p = k - 1;
            if sprite_position_set(self.ram, self.i, p) {
                let idx = sprite_pixel(xs, ys, p);
                (before.update(idx, !before[idx]), hit || before[idx])
            } else {
                (before, hit)
            }
        }
    }

    /// `DXYN`: XOR the `N`-row sprite at `I` onto the screen at (`VX`, `VY`),
    /// row by row and left to right, wrapping at the edges; `VF` is 1 when
    /// some pixel was lit at the moment it was turned off.
    pub open spec fn op_drw(self, x: int, y: int, n: int) -> CpuState {
        let xs = self.v[x] as int % DISPLAY_WIDTH as int;
        let ys = self.v[y] as int % DISPLAY_HEIGHT as int;
        let drawn = self.draw_positions(self.display, xs, ys, (n * 8) as nat);
        CpuState {
            display: drawn.0,
            v: self.v.update(15, if drawn.1 { 1u8 } else { 0u8 }),
            draw_flag: true,
            ..self
        }
    }

    /// `EX9E`: skip if key `VX` is pressed.
    pub open spec fn op_skp(self, x: int) -> CpuState {
        self.skip_if(self.keys[self.v[x] as int])
    }

    /// `EXA1`: skip if key `VX` is not pressed.
    pub open spec fn op_sknp(self, x: int) -> CpuState {
        self.skip_if(!self.keys[self.v[x] as int])
    }

    /// `FX07`: `VX = DT`.
    pub open spec fn op_ld_vx_dt(self, x: int) -> CpuState {
        self.set_v(x, self.delay_timer)
    }

    /// `FX0A`: `VX` is the first pressed key; with none pressed the program
    /// counter steps back, so that the instruction runs again.
    pub open spec fn op_ld_vx_k(self, x: int) -> CpuState {
        let key = first_pressed(self.keys);
        if key >= 0 {
            self.set_v(x, key as u8)
        } else {
            CpuState { pc: (self.pc - 2) as u16, ..self }
        }
    }

    /// `FX15`: `DT = VX`.
    pub open spec fn op_ld_dt_vx(self, x: int) -> CpuState {
        CpuState { delay_timer: self.v[x], ..self }
    }

    /// `FX18`: `ST = VX`.
    pub open spec fn op_ld_st_vx(self, x: int) -> CpuState {
        CpuState { sound_timer: self.v[x], ..self }
    }

    /// `FX1E`: `I += VX`, wrapping.
    pub open spec fn op_add_i_vx(self, x: int) -> CpuState {
        CpuState { i: ((self.i + self.v[x]) % 0x10000) as u16, ..self }
    }

    /// The address of the font sprite of hexadecimal digit `d`.
    pub open spec fn font_address(d: int) -> int {
        FONT_START + d * 5
    }

    /// `FX29`: `I` is the font sprite of the low nibble of `VX`.
    pub open spec fn op_ld_f_vx(self, x: int) -> CpuState {
        CpuState { i: Self::font_address((self.v[x] % 16) as int) as u16, ..self }
    }

    /// `FX33`: the decimal digits of `VX` at `I`, `I + 1`, `I + 2`.
    pub open spec fn op_ld_b_vx(self, x: int) -> CpuState {
        let val = self.v[x];
        let i = self.i as int;
        CpuState {
            ram: self.ram.update(i, val / 100).update(i + 1, (val / 10) % 10).update(
                i + 2,
                val % 10,
            ),
            ..self
        }
    }

    /// `FX55`: `V0..=VX` stored to memory from `I` on.
    pub open spec fn op_ld_i_vx(self, x: int) -> CpuState {
        CpuState {
            ram: Seq::new(
                self.ram.len(),
                |a: int|
                    if self.i <= a <= self.i + x {
                        self.v[a - self.i]
                    } else {
                        self.ram[a]
                    },
            ),
            ..self
        }
    }

    /// `FX65`: `V0..=VX` loaded from memory from `I` on.
    pub open spec fn op_ld_vx_i(self, x: int) -> CpuState {
        CpuState {
            v: Seq::new(
                self.v.len(),
                |k: int|
                    if k <= x {
                        self.ram[self.i + k]
                    } else {
                        self.v[k]
                    },
            ),
            ..self
        }
    }

    // -----------------------------------------------------------------------
    // Whole instructions
    // -----------------------------------------------------------------------

    /// What `op` does, with `rnd` as the random byte of `CXNN`; an opcode
    /// that names no instruction changes nothing.
    pub open spec fn execute(self, op: u16, rnd: u8) -> CpuState {
        let x = op_x(op);
        let y = op_y(op);
        let n = op_n(op);
        let nn = op_nn(op);
        let nnn = op_nnn(op);
        let kind = op_kind(op);
        if kind == 0x0 {
            if op == 0x00E0 {
                self.op_cls()
            } else if op == 0x00EE {
                self.op_ret()
            } else {
                self
            }
        } else if kind == 0x1 {
            self.op_jp(nnn)
        } else if kind == 0x2 {
            self.op_call(nnn)
        } else if kind == 0x3 {
            self.op_se_vx_byte(x, nn)
        } else if kind == 0x4 {
            self.op_sne_vx_byte(x, nn)
        } else if kind == 0x5 {
            self.op_se_vx_vy(x, y)
        } else if kind == 0x6 {
            self.op_ld_vx_byte(x, nn)
        } else if kind == 0x7 {
            self.op_add_vx_byte(x, nn)
        } else if kind == 0x8 {
            if n == 0x0 {
                self.op_ld_vx_vy(x, y)
            } else if n == 0x1 {
                self.op_or(x, y)
            } else if n == 0x2 {
                self.op_and(x, y)
            } else if n == 0x3 {
                self.op_xor(x, y)
            } else if n == 0x4 {
                self.op_add_vx_vy(x, y)
            } else if n == 0x5 {
                self.op_sub(x, y)
            } else if n == 0x6 {
                self.op_shr(x)
            } else if n == 0x7 {
                self.op_subn(x, y)
            } else if n == 0xE {
                self.op_shl(x)
            } else {
                self
            }
        } else if kind == 0x9 {
            self.op_sne_vx_vy(x, y)
        } else if kind == 0xA {
            self.op_ld_i(nnn)
        } else if kind == 0xB {
            self.op_jp_v0(nnn)
        } else if kind == 0xC {
            self.op_rnd(x, nn, rnd)
        } else if kind == 0xD {
            self.op_drw(x, y, n)
        } else if kind == 0xE {
            if nn == 0x9E {
                self.op_skp(x)
            } else if nn == 0xA1 {
                self.op_sknp(x)
            } else {
                self
            }
        } else {
            if nn == 0x07 {
                self.op_ld_vx_dt(x)
            } else if nn == 0x0A {
                self.op_ld_vx_k(x)
            } else if nn == 0x15 {
                self.op_ld_dt_vx(x)
            } else if nn == 0x18 {
                self.op_ld_st_vx(x)
            } else if nn == 0x1E {
                self.op_add_i_vx(x)
            } else if nn == 0x29 {
                self.op_ld_f_vx(x)
            } else if nn == 0x33 {
                self.op_ld_b_vx(x)
            } else if nn == 0x55 {
                self.op_ld_i_vx(x)
            } else if nn == 0x65 {
                self.op_ld_vx_i(x)
            } else {
                self
            }
        }
    }

    /// Whether `op` can run on this state: every memory, stack and keypad
    /// access in range and the program counter kept within 16 bits.
    pub open spec fn can_execute(self, op: u16) -> bool {
        let x = op_x(op);
        let y = op_y(op);
        let n = op_n(op);
        let nn = op_nn(op);
        let kind = op_kind(op);
        if kind == 0x0 {
            op == 0x00EE ==> 0 < self.sp <= STACK_SIZE
        } else if kind == 0x2 {
            self.sp < STACK_SIZE
        } else if kind == 0x3 {
            self.can_skip_if(self.v[x] == nn)
        } else if kind == 0x4 {
            self.can_skip_if(self.v[x] != nn)
        } else if kind == 0x5 {
            self.can_skip_if(self.v[x] == self.v[y])
        } else if kind == 0x9 {
            self.can_skip_if(self.v[x] != self.v[y])
        } else if kind == 0xD {
            n == 0 || self.i + n <= RAM_SIZE
        } else if kind == 0xE {
            (nn == 0x9E || nn == 0xA1) ==> {
                &&& self.v[x] < 16
                &&& self.can_skip_if(
                    if nn == 0x9E {
                        self.keys[self.v[x] as int]
                    } else {
                        !self.keys[self.v[x] as int]
                    },
                )
            }
        } else if kind == 0xF {
            &&& nn == 0x0A ==> (first_pressed(self.keys) < 0 ==> self.pc >= 2)
            &&& nn == 0x33 ==> self.i + 2 < RAM_SIZE
            &&& (nn == 0x55 || nn == 0x65) ==> self.i + x < RAM_SIZE
        } else {
            true
        }
    }

    /// Whether a whole cycle (fetch, then execute) can run on this state.
    pub open spec fn can_step(self) -> bool {
        &&& self.can_fetch()
        &&& self.after_fetch().can_execute(self.opcode_at_pc())
    }

    /// One cycle: fetch the opcode at the program counter, then execute it,
    /// with `rnd` as the random byte of `CXNN`.
    pub open spec fn step(self, rnd: u8) -> CpuState {
        self.after_fetch().execute(self.opcode_at_pc(), rnd)
    }
}

} // verus!
