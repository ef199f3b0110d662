//! The CHIP-8 machine: its state and the executable instruction set.

use vstd::prelude::*;

use crate::random::random_byte;
use crate::state::{
    first_pressed, first_pressed_from, font_sprites, names_instruction, op_kind, sprite_bit, sprite_pixel, CpuState,
};

verus! {

pub const RAM_SIZE: usize = 4096;

pub const PROGRAM_START: u16 = 0x200;

pub const DISPLAY_WIDTH: usize = 64;

pub const DISPLAY_HEIGHT: usize = 32;

/// `DISPLAY_WIDTH * DISPLAY_HEIGHT`: one entry per pixel, row by row.
pub const DISPLAY_SIZE: usize = 2048;

pub const STACK_SIZE: usize = 16;

pub const FONT_START: usize = 0x000;

/// Bytes of the built-in font: five for each of the sixteen digits.
pub const FONT_SIZE: usize = 80;

/// The machine: 4 KiB of memory, sixteen byte registers `V0`..`VF`, the
/// address register `I`, the program counter, a call stack of sixteen
/// return addresses, two timers, a 64x32 monochrome screen and a
/// sixteen-key keypad.
pub struct Cpu {
    pub ram: [u8; RAM_SIZE],
    pub v: [u8; 16],
    pub i: u16,
    pub pc: u16,
    pub stack: [u16; STACK_SIZE],
    pub sp: usize,
    pub delay_timer: u8,
    pub sound_timer: u8,
    pub display: [bool; DISPLAY_SIZE],
    pub keys: [bool; 16],
    pub draw_flag: bool,
}

impl View for Cpu {
    type V = CpuState;

    open spec fn view(&self) -> CpuState {
        CpuState {
            ram: self.ram@,
            v: self.v@,
            i: self.i,
            pc: self.pc,
            stack: self.stack@,
            sp: self.sp,
            delay_timer: self.delay_timer,
            sound_timer: self.sound_timer,
            display: self.display@,
            keys: self.keys@,
            draw_flag: self.draw_flag,
        }
    }
}

/// The font as an array, byte for byte the sequence `font_sprites()`.
fn font_data() -> (font: [u8; FONT_SIZE])
    ensures
        font@ == font_sprites(),
{
    let font: [u8; FONT_SIZE] = [
        0xF0, 0x90, 0x90, 0x90, 0xF0,  // 0
        0x20, 0x60, 0x20, 0x20, 0x70,  // 1
        0xF0, 0x10, 0xF0, 0x80, 0xF0,  // 2
        0xF0, 0x10, 0xF0, 0x10, 0xF0,  // 3
        0x90, 0x90, 0xF0, 0x10, 0x10,  // 4
        0xF0, 0x80, 0xF0, 0x10, 0xF0,  // 5
        0xF0, 0x80, 0xF0, 0x90, 0xF0,  // 6
        0xF0, 0x10, 0x20, 0x40, 0x40,  // 7
        0xF0, 0x90, 0xF0, 0x90, 0xF0,  // 8
        0xF0, 0x90, 0xF0, 0x10, 0xF0,  // 9
        0xF0, 0x90, 0xF0, 0x90, 0x90,  // A
        0xE0, 0x90, 0xE0, 0x90, 0xE0,  // B
        0xF0, 0x80, 0x80, 0x80, 0xF0,  // C
        0xE0, 0x90, 0x90, 0x90, 0xE0,  // D
        0xF0, 0x80, 0xF0, 0x80, 0xF0,  // E
        0xF0, 0x80, 0xF0, 0x80, 0x80,  // F
    ];
    assert(font@ =~= font_sprites());
    font
}

impl Cpu {
    /// A freshly switched-on machine: the font at `FONT_START`, the rest of
    /// memory, the registers, stack, timers, screen and keys all zero, and
    /// the program counter at `PROGRAM_START`.
    pub fn new() -> (cpu: Self)
        ensures
            cpu@ == CpuState::initial(),
    {
        let mut cpu = Self {
            ram: [0;RAM_SIZE],
            v: [0;16],
            i: 0,
            pc: PROGRAM_START,
            stack: [0;STACK_SIZE],
            sp: 0,
            delay_timer: 0,
            sound_timer: 0,
            display: [false;DISPLAY_SIZE],
            keys: [false;16],
            draw_flag: false,
        };
        let font = font_data();
        let mut k: usize = 0;
        while k < FONT_SIZE
            invariant
                k <= FONT_SIZE,
                font@ == font_sprites(),
                cpu@ == (CpuState {
                    ram: Seq::new(
                        RAM_SIZE as nat,
                        |a: int|
                            if FONT_START <= a < FONT_START + k {
                                font_sprites()[a - FONT_START]
                            } else {
                                0u8
                            },
                    ),
                    ..CpuState::initial()
                }),
            decreases FONT_SIZE - k,
        {
            cpu.ram[FONT_START + k] = font[k];
            k += 1;
        }
        cpu
    }
}

/// The mask test of the drawing loop is bit `c` of the row, from the left.
proof fn lemma_sprite_mask(b: u8, c: u8)
    requires
        c < 8,
    ensures
        (b & (0x80u8 >> c) != 0u8) == sprite_bit(b, c as int),
{
    assert((b & (0x80u8 >> c) != 0u8) == ((b >> ((7 - c) as u8)) & 1u8 == 1u8)) by (bit_vector)
        requires
            c < 8,
    ;
}

impl Cpu {
    /// `DXYN`: XOR the `n`-row sprite at `I` onto the screen at (`VX`, `VY`),
    /// wrapping at the screen's edges; `VF` tells whether a lit pixel was
    /// turned off.
    fn op_drw(&mut self, x: usize, y: usize, n: u8)
        requires
            x < 16,
            y < 16,
            n == 0 || old(self).i + n <= RAM_SIZE,
        ensures
            final(self)@ == old(self)@.op_drw(x as int, y as int, n as int),
    {
        let ghost s0 = self@;
        let x_start = self.v[x] as usize % DISPLAY_WIDTH;
        let y_start = self.v[y] as usize % DISPLAY_HEIGHT;
        let ghost xs = x_start as int;
        let ghost ys = y_start as int;
        self.v[0xF] = 0;
        let mut row: usize = 0;
        while row < n as usize
            invariant
                row <= n,
                n == 0 || s0.i + n <= RAM_SIZE,
                x_start as int == s0.v[x as int] as int % DISPLAY_WIDTH as int,
                y_start as int == s0.v[y as int] as int % DISPLAY_HEIGHT as int,
                xs == x_start,
                ys == y_start,
                s0.well_formed(),
                self@ == (CpuState { display: self.display@, v: self.v@, ..s0 }),
                self.display@ == s0.draw_positions(s0.display, xs, ys, (row * 8) as nat).0,
                self.v@ == s0.v.update(
                    15,
                    if s0.draw_positions(s0.display, xs, ys, (row * 8) as nat).1 {
                        1u8
                    } else {
                        0u8
                    },
                ),
            decreases n - row,
        {
            let sprite_byte = self.ram[self.i as usize + row];
            let py = (y_start + row) % DISPLAY_HEIGHT;
            let mut col: usize = 0;
            while col < 8
                invariant
                    row < n,
                    col <= 8,
                    sprite_byte == s0.ram[s0.i + row],
                    py == (y_start + row) % 32,
                    xs == x_start,
                    ys == y_start,
                    0 <= xs < 64,
                    0 <= ys < 32,
                    s0.well_formed(),
                    self@ == (CpuState { display: self.display@, v: self.v@, ..s0 }),
                    self.display@ == s0.draw_positions(
                        s0.display,
                        xs,
                        ys,
                        (row * 8 + col) as nat,
                    ).0,
                    self.v@ == s0.v.update(
                        15,
                        if s0.draw_positions(s0.display, xs, ys, (row * 8 + col) as nat).1 {
                            1u8
                        } else {
                            0u8
                        },
                    ),
                decreases 8 - col,
            {
                let ghost k = row * 8 + col;
                proof {
                    lemma_sprite_mask(sprite_byte, col as u8);
                    assert(k / 8 == row && k % 8 == col);
                }
                if sprite_byte & (0x80u8 >> (col as u8)) != 0 {
                    let px = (x_start + col) % DISPLAY_WIDTH;
                    let idx = py * DISPLAY_WIDTH + px;
                    assert(idx == sprite_pixel(xs, ys, k));
                    if self.display[idx] {
                        self.v[0xF] = 1;
                    }
                    self.display[idx] = !self.display[idx];
                }
                col += 1;
            }
            row += 1;
        }
        self.draw_flag = true;
    }
}

impl Cpu {
    /// `00E0`: clear the screen.
    fn op_cls(&mut self)
        ensures
            final(self)@ == old(self)@.op_cls(),
    {
        self.display = [false;DISPLAY_SIZE];
        self.draw_flag = true;
    }

    /// `00EE`: return from a subroutine.
    fn op_ret(&mut self)
        requires
            0 < old(self).sp <= STACK_SIZE,
        ensures
            final(self)@ == old(self)@.op_ret(),
    {
        self.sp -= 1;
        self.pc = self.stack[self.sp];
    }

    /// `1NNN`: jump.
    fn op_jp(&mut self, nnn: u16)
        ensures
            final(self)@ == old(self)@.op_jp(nnn),
    {
        self.pc = nnn;
    }

    /// `2NNN`: call a subroutine.
    fn op_call(&mut self, nnn: u16)
        requires
            old(self).sp < STACK_SIZE,
        ensures
            final(self)@ == old(self)@.op_call(nnn),
    {
        self.stack[self.sp] = self.pc;
        self.sp += 1;
        self.pc = nnn;
    }

    /// `3XNN`: skip if `VX == NN`.
    fn op_se_vx_byte(&mut self, x: usize, nn: u8)
        requires
            x < 16,
            old(self)@.can_skip_if(old(self).v[x as int] == nn),
        ensures
            final(self)@ == old(self)@.op_se_vx_byte(x as int, nn),
    {
        if self.v[x] == nn {
            self.pc += 2;
        }
    }

    /// `4XNN`: skip if `VX != NN`.
    fn op_sne_vx_byte(&mut self, x: usize, nn: u8)
        requires
            x < 16,
            old(self)@.can_skip_if(old(self).v[x as int] != nn),
        ensures
            final(self)@ == old(self)@.op_sne_vx_byte(x as int, nn),
    {
        if self.v[x] != nn {
            self.pc += 2;
        }
    }

    /// `5XY0`: skip if `VX == VY`.
    fn op_se_vx_vy(&mut self, x: usize, y: usize)
        requires
            x < 16,
            y < 16,
            old(self)@.can_skip_if(old(self).v[x as int] == old(self).v[y as int]),
        ensures
            final(self)@ == old(self)@.op_se_vx_vy(x as int, y as int),
    {
        if self.v[x] == self.v[y] {
            self.pc += 2;
        }
    }

    /// `6XNN`: `VX = NN`; a register index out of range changes nothing.
    fn op_ld_vx_byte(&mut self, x: usize, nn: u8)
        ensures
            final(self)@ == old(self)@.op_ld_vx_byte(x as int, nn),
    {
        if x < 16 {
            self.v[x] = nn;
        }
    }

    /// `7XNN`: `VX += NN`, wrapping.
    fn op_add_vx_byte(&mut self, x: usize, nn: u8)
        requires
            x < 16,
        ensures
            final(self)@ == old(self)@.op_add_vx_byte(x as int, nn),
    {
        self.v[x] = self.v[x].wrapping_add(nn);
    }

    /// `8XY0`: `VX = VY`.
    fn op_ld_vx_vy(&mut self, x: usize, y: usize)
        requires
            x < 16,
            y < 16,
        ensures
            final(self)@ == old(self)@.op_ld_vx_vy(x as int, y as int),
    {
        self.v[x] = self.v[y];
    }

    /// `8XY1`: `VX |= VY`.
    fn op_or(&mut self, x: usize, y: usize)
        requires
            x < 16,
            y < 16,
        ensures
            final(self)@ == old(self)@.op_or(x as int, y as int),
    {
        self.v[x] = self.v[x] | self.v[y];
    }

    /// `8XY2`: `VX &= VY`.
    fn op_and(&mut self, x: usize, y: usize)
        requires
            x < 16,
            y < 16,
        ensures
            final(self)@ == old(self)@.op_and(x as int, y as int),
    {
        self.v[x] = self.v[x] & self.v[y];
    }

    /// `8XY3`: `VX ^= VY`.
    fn op_xor(&mut self, x: usize, y: usize)
        requires
            x < 16,
            y < 16,
        ensures
            final(self)@ == old(self)@.op_xor(x as int, y as int),
    {
        self.v[x] = self.v[x] ^ self.v[y];
    }

    /// `8XY4`: `VX += VY`, wrapping, then `VF` the carry.
    fn op_add_vx_vy(&mut self, x: usize, y: usize)
        requires
            x < 16,
            y < 16,
        ensures
            final(self)@ == old(self)@.op_add_vx_vy(x as int, y as int),
    {
        let result = self.v[x].wrapping_add(self.v[y]);
        let overflow = self.v[x] as u16 + self.v[y] as u16 > 0xFF;
        self.v[x] = result;
        self.v[0xF] = if overflow { 1 } else { 0 };
    }

    /// `8XY5`: `VX -= VY`, wrapping, then `VF` is 1 when nothing was borrowed.
    fn op_sub(&mut self, x: usize, y: usize)
        requires
            x < 16,
            y < 16,
        ensures
            final(self)@ == old(self)@.op_sub(x as int, y as int),
    {
        let result = self.v[x].wrapping_sub(self.v[y]);
        let borrow = self.v[x] < self.v[y];
        self.v[x] = result;
        self.v[0xF] = if borrow { 0 } else { 1 };
    }

    /// `8XY6`: `VF` the low bit of `VX`, then `VX >>= 1`.
    fn op_shr(&mut self, x: usize)
        requires
            x < 16,
        ensures
            final(self)@ == old(self)@.op_shr(x as int),
    {
        let b = self.v[x];
        assert(b & 0x1 == b % 2) by (bit_vector);
        self.v[0xF] = self.v[x] & 0x1;
        let c = self.v[x];
        assert(c >> 1 == c / 2) by (bit_vector);
        self.v[x] = self.v[x] >> 1;
    }

    /// `8XY7`: `VX = VY - VX`, wrapping, then `VF` is 1 when nothing was borrowed.
    fn op_subn(&mut self, x: usize, y: usize)
        requires
            x < 16,
            y < 16,
        ensures
            final(self)@ == old(self)@.op_subn(x as int, y as int),
    {
        let result = self.v[y].wrapping_sub(self.v[x]);
        let borrow = self.v[y] < self.v[x];
        self.v[x] = result;
        self.v[0xF] = if borrow { 0 } else { 1 };
    }

    /// `8XYE`: `VF` the high bit of `VX`, then `VX <<= 1`.
    fn op_shl(&mut self, x: usize)
        requires
            x < 16,
        ensures
            final(self)@ == old(self)@.op_shl(x as int),
    {
        let b = self.v[x];
        assert((b >> 7) & 0x1 == b / 128) by (bit_vector);
        self.v[0xF] = (self.v[x] >> 7) & 0x1;
        let c = self.v[x];
        assert(c << 1 == ((c * 2) % 256) as u8) by (bit_vector);
        self.v[x] = self.v[x] << 1;
    }

    /// `9XY0`: skip if `VX != VY`.
    fn op_sne_vx_vy(&mut self, x: usize, y: usize)
        requires
            x < 16,
            y < 16,
            old(self)@.can_skip_if(old(self).v[x as int] != old(self).v[y as int]),
        ensures
            final(self)@ == old(self)@.op_sne_vx_vy(x as int, y as int),
    {
        if self.v[x] != self.v[y] {
            self.pc += 2;
        }
    }

    /// `ANNN`: `I = NNN`.
    fn op_ld_i(&mut self, nnn: u16)
        ensures
            final(self)@ == old(self)@.op_ld_i(nnn),
    {
        self.i = nnn;
    }

    /// `BNNN`: jump to `NNN + V0`.
    fn op_jp_v0(&mut self, nnn: u16)
        requires
            nnn + old(self).v[0] <= u16::MAX,
        ensures
            final(self)@ == old(self)@.op_jp_v0(nnn),
    {
        self.pc = nnn + self.v[0] as u16;
    }

    /// `CXNN`: `VX` is a random byte masked by `NN`; `rnd` is that byte.
    fn op_rnd(&mut self, x: usize, nn: u8, rnd: u8)
        requires
            x < 16,
        ensures
            final(self)@ == old(self)@.op_rnd(x as int, nn, rnd),
    {
        let rand_byte = rnd & nn;
        assert(rand_byte & nn == rnd & nn) by (bit_vector)
            requires
                rand_byte == rnd & nn,
        ;
        self.v[x] = rand_byte & nn;
    }

    /// `EX9E`: skip if key `VX` is pressed.
    fn op_skp(&mut self, x: usize)
        requires
            x < 16,
            old(self).v[x as int] < 16,
            old(self)@.can_skip_if(old(self).keys[old(self).v[x as int] as int]),
        ensures
            final(self)@ == old(self)@.op_skp(x as int),
    {
        if self.keys[self.v[x] as usize] {
            self.pc += 2;
        }
    }

    /// `EXA1`: skip if key `VX` is not pressed.
    fn op_sknp(&mut self, x: usize)
        requires
            x < 16,
            old(self).v[x as int] < 16,
            old(self)@.can_skip_if(!old(self).keys[old(self).v[x as int] as int]),
        ensures
            final(self)@ == old(self)@.op_sknp(x as int),
    {
        if !self.keys[self.v[x] as usize] {
            self.pc += 2;
        }
    }

    /// `FX07`: `VX = DT`.
    fn op_ld_vx_dt(&mut self, x: usize)
        requires
            x < 16,
        ensures
            final(self)@ == old(self)@.op_ld_vx_dt(x as int),
    {
        self.v[x] = self.delay_timer;
    }

    /// The first pressed key, if any.
    fn first_pressed_key(&self) -> (key: Option<usize>)
        ensures
            match key {
                Some(k) => k < 16 && k == first_pressed(self.keys@),
                None => first_pressed(self.keys@) == -1,
            },
    {
        let mut k: usize = 0;
        while k < 16
            invariant
                k <= 16,
                first_pressed(self.keys@) == first_pressed_from(self.keys@, k as int),
            decreases 16 - k,
        {
            if self.keys[k] {
                return Some(k);
            }
            k += 1;
        }
        None
    }

    /// `FX0A`: wait for a key: `VX` is the first pressed key; with none
    /// pressed the program counter steps back onto this instruction.
    fn op_ld_vx_k(&mut self, x: usize)
        requires
            x < 16,
            first_pressed(old(self).keys@) < 0 ==> old(self).pc >= 2,
        ensures
            final(self)@ == old(self)@.op_ld_vx_k(x as int),
    {
        if let Some(key) = self.first_pressed_key() {
            self.v[x] = key as u8;
        } else {
            self.pc -= 2;
        }
    }

    /// `FX15`: `DT = VX`.
    fn op_ld_dt_vx(&mut self, x: usize)
        requires
            x < 16,
        ensures
            final(self)@ == old(self)@.op_ld_dt_vx(x as int),
    {
        self.delay_timer = self.v[x];
    }

    /// `FX18`: `ST = VX`.
    fn op_ld_st_vx(&mut self, x: usize)
        requires
            x < 16,
        ensures
            final(self)@ == old(self)@.op_ld_st_vx(x as int),
    {
        self.sound_timer = self.v[x];
    }

    /// `FX1E`: `I += VX`, wrapping.
    fn op_add_i_vx(&mut self, x: usize)
        requires
            x < 16,
        ensures
            final(self)@ == old(self)@.op_add_i_vx(x as int),
    {
        self.i = self.i.wrapping_add(self.v[x] as u16);
    }

    /// `FX29`: `I` is the address of the font sprite of the low nibble of `VX`.
    fn op_ld_f_vx(&mut self, x: usize)
        requires
            x < 16,
        ensures
            final(self)@ == old(self)@.op_ld_f_vx(x as int),
    {
        let b = self.v[x];
        assert(b as usize & 0xF == (b % 16) as usize) by (bit_vector);
        self.i = (FONT_START + (self.v[x] as usize & 0xF) * 5) as u16;
    }

    /// `FX33`: the decimal digits of `VX` at `I`, `I + 1` and `I + 2`.
    fn op_ld_b_vx(&mut self, x: usize)
        requires
            x < 16,
            old(self).i + 2 < RAM_SIZE,
        ensures
            final(self)@ == old(self)@.op_ld_b_vx(x as int),
    {
        let val = self.v[x];
        self.ram[self.i as usize] = val / 100;
        self.ram[self.i as usize + 1] = (val / 10) % 10;
        self.ram[self.i as usize + 2] = val % 10;
    }

    /// `FX55`: store `V0..=VX` to memory from `I` on.
    fn op_ld_i_vx(&mut self, x: usize)
        requires
            x < 16,
            old(self).i + x < RAM_SIZE,
        ensures
            final(self)@ == old(self)@.op_ld_i_vx(x as int),
    {
        let ghost s0 = self@;
        let mut reg: usize = 0;
        while reg <= x
            invariant
                x < 16,
                s0.i + x < RAM_SIZE,
                reg <= x + 1,
                self@ == (CpuState {
                    ram: Seq::new(
                        s0.ram.len(),
                        |a: int|
                            if s0.i <= a < s0.i + reg {
                                s0.v[a - s0.i]
                            } else {
                                s0.ram[a]
                            },
                    ),
                    ..s0
                }),
            decreases x + 1 - reg,
        {
            self.ram[self.i as usize + reg] = self.v[reg];
            reg += 1;
        }
    }

    /// `FX65`: load `V0..=VX` from memory from `I` on.
    fn op_ld_vx_i(&mut self, x: usize)
        requires
            x < 16,
            old(self).i + x < RAM_SIZE,
        ensures
            final(self)@ == old(self)@.op_ld_vx_i(x as int),
    {
        let ghost s0 = self@;
        let mut reg: usize = 0;
        while reg <= x
            invariant
                x < 16,
                s0.i + x < RAM_SIZE,
                reg <= x + 1,
                self@ == (CpuState {
                    v: Seq::new(
                        s0.v.len(),
                        |k: int|
                            if k < reg {
                                s0.ram[s0.i + k]
                            } else {
                                s0.v[k]
                            },
                    ),
                    ..s0
                }),
            decreases x + 1 - reg,
        {
            self.v[reg] = self.ram[self.i as usize + reg];
            reg += 1;
        }
    }
}

/// The masks and shifts of the decoder pick out the nibbles and fields of
/// an opcode.
proof fn lemma_decode(op: u16)
    ensures
        (op & 0xF000u16) >> 12u16 == op / 0x1000u16,
        (op & 0x0F00u16) >> 8u16 == (op / 0x100u16) % 0x10u16,
        (op & 0x00F0u16) >> 4u16 == (op / 0x10u16) % 0x10u16,
        op & 0x000Fu16 == op % 0x10u16,
        op & 0x00FFu16 == op % 0x100u16,
        op & 0x0FFFu16 == op % 0x1000u16,
        op >> 12u16 == op / 0x1000u16,
{
    assert((op & 0xF000u16) >> 12u16 == op / 0x1000u16) by (bit_vector);
    assert((op & 0x0F00u16) >> 8u16 == (op / 0x100u16) % 0x10u16) by (bit_vector);
    assert((op & 0x00F0u16) >> 4u16 == (op / 0x10u16) % 0x10u16) by (bit_vector);
    assert(op & 0x000Fu16 == op % 0x10u16) by (bit_vector);
    assert(op & 0x00FFu16 == op % 0x100u16) by (bit_vector);
    assert(op & 0x0FFFu16 == op % 0x1000u16) by (bit_vector);
    assert(op >> 12u16 == op / 0x1000u16) by (bit_vector);
}

impl Cpu {
    /// Copies a program image into memory from `PROGRAM_START` on; the rest
    /// of memory and the other state stay as they were.
    pub fn load_rom(&mut self, data: &[u8])
        requires
            PROGRAM_START + data@.len() <= RAM_SIZE,
        ensures
            final(self)@ == old(self)@.with_rom(data@),
    {
        let ghost s0 = self@;
        let start = PROGRAM_START as usize;
        let mut k: usize = 0;
        while k < data.len()
            invariant
                start == PROGRAM_START,
                start + data@.len() <= RAM_SIZE,
                k <= data@.len(),
                self@ == (CpuState {
                    ram: Seq::new(
                        s0.ram.len(),
                        |a: int|
                            if start <= a < start + k {
                                data@[a - start]
                            } else {
                                s0.ram[a]
                            },
                    ),
                    ..s0
                }),
            decreases data@.len() - k,
        {
            self.ram[start + k] = data[k];
            k += 1;
        }
        proof {
            assert(self@.ram =~= s0.with_rom(data@).ram);
        }
    }

    /// Runs one cycle: fetches the opcode at the program counter and
    /// executes it. A `CXNN` instruction draws its byte from the thread's
    /// random generator; every other instruction is deterministic.
    pub fn tick(&mut self)
        requires
            old(self)@.can_step(),
        ensures
            exists|rnd: u8| final(self)@ == #[trigger] old(self)@.step(rnd),
            op_kind(old(self)@.opcode_at_pc()) != 0xC ==> final(self)@ == old(self)@.step(0),
    {
        let opcode = self.fetch();
        proof {
            lemma_decode(opcode);
        }
        let rnd = if opcode >> 12 == 0xC {
            random_byte()
        } else {
            0
        };
        self.execute(opcode, rnd);
        assert(self@ == old(self)@.step(rnd));
    }

    /// Runs one cycle with `rnd` as the random byte of a `CXNN` instruction.
    pub fn tick_with(&mut self, rnd: u8)
        requires
            old(self)@.can_step(),
        ensures
            final(self)@ == old(self)@.step(rnd),
    {
        let opcode = self.fetch();
        self.execute(opcode, rnd);
    }

    /// Reads the big-endian opcode at the program counter and moves the
    /// program counter past it.
    pub fn fetch(&mut self) -> (op: u16)
        requires
            old(self)@.can_fetch(),
        ensures
            op == old(self)@.opcode_at_pc(),
            final(self)@ == old(self)@.after_fetch(),
    {
        let hi = self.ram[self.pc as usize] as u16;
        let lo = self.ram[self.pc as usize + 1] as u16;
        self.pc += 2;
        assert((hi << 8u16) | lo == hi * 256 + lo) by (bit_vector)
            requires
                hi < 256,
                lo < 256,
        ;
        (hi << 8) | lo
    }

    /// Whether `tick` may run now: the opcode lies in memory and executing
    /// it stays within memory, the stack, the keypad and 16-bit addresses.
    pub fn can_tick(&self) -> (ok: bool)
        ensures
            ok == self@.can_step(),
    {
        if self.pc as usize + 1 >= RAM_SIZE {
            return false;
        }
        let hi = self.ram[self.pc as usize] as u16;
        let lo = self.ram[self.pc as usize + 1] as u16;
        assert((hi << 8u16) | lo == hi * 256 + lo) by (bit_vector)
            requires
                hi < 256,
                lo < 256,
        ;
        let op = (hi << 8) | lo;
        self.can_execute_at(op, self.pc + 2)
    }

    /// Whether `op` can be executed on this machine with its program
    /// counter set to `pc`.
    fn can_execute_at(&self, op: u16, pc: u16) -> (ok: bool)
        ensures
            ok == (CpuState { pc, ..self@ }).can_execute(op),
    {
        proof {
            lemma_decode(op);
        }
        let kind = op >> 12;
        let x = ((op & 0x0F00) >> 8) as usize;
        let y = ((op & 0x00F0) >> 4) as usize;
        let n = op & 0x000F;
        let nn = (op & 0x00FF) as u8;
        if kind == 0x0 {
            op != 0x00EE || (0 < self.sp && self.sp <= STACK_SIZE)
        } else if kind == 0x2 {
            self.sp < STACK_SIZE
        } else if kind == 0x3 {
            self.v[x] != nn || pc <= 0xFFFD
        } else if kind == 0x4 {
            self.v[x] == nn || pc <= 0xFFFD
        } else if kind == 0x5 {
            self.v[x] != self.v[y] || pc <= 0xFFFD
        } else if kind == 0x9 {
            self.v[x] == self.v[y] || pc <= 0xFFFD
        } else if kind == 0xD {
            n == 0 || self.i as usize + n as usize <= RAM_SIZE
        } else if kind == 0xE {
            if nn == 0x9E || nn == 0xA1 {
                if self.v[x] < 16 {
                    let pressed = self.keys[self.v[x] as usize];
                    let cond = if nn == 0x9E {
                        pressed
                    } else {
                        !pressed
                    };
                    !cond || pc <= 0xFFFD
                } else {
                    false
                }
            } else {
                true
            }
        } else if kind == 0xF {
            let waits_ok = nn != 0x0A || self.first_pressed_key().is_some() || pc >= 2;
            let bcd_ok = nn != 0x33 || (self.i as usize) + 2 < RAM_SIZE;
            let regs_ok = !(nn == 0x55 || nn == 0x65) || (self.i as usize) + x < RAM_SIZE;
            waits_ok && bcd_ok && regs_ok
        } else {
            true
        }
    }

    /// Decodes `op` and runs the instruction it names, with `rnd` as the
    /// random byte of `CXNN`. An opcode that names no instruction is skipped.
    fn execute(&mut self, op: u16, rnd: u8)
        requires
            old(self)@.can_execute(op),
        ensures
            final(self)@ == old(self)@.execute(op, rnd),
    {
        proof {
            lemma_decode(op);
        }
        let nibble = ((op & 0xF000) >> 12) as u8;
        let x = ((op & 0x0F00) >> 8) as usize;
        let y = ((op & 0x00F0) >> 4) as usize;
        let n = (op & 0x000F) as u8;
        let nn = (op & 0x00FF) as u8;
        let nnn = op & 0x0FFF;

        match nibble {
            0x0 => match op {
                0x00E0 => self.op_cls(),
                0x00EE => self.op_ret(),
                _ => {},
            },
            0x1 => self.op_jp(nnn),
            0x2 => self.op_call(nnn),
            0x3 => self.op_se_vx_byte(x, nn),
            0x4 => self.op_sne_vx_byte(x, nn),
            0x5 => self.op_se_vx_vy(x, y),
            0x6 => self.op_ld_vx_byte(x, nn),
            0x7 => self.op_add_vx_byte(x, nn),
            0x8 => match n {
                0x0 => self.op_ld_vx_vy(x, y),
                0x1 => self.op_or(x, y),
                0x2 => self.op_and(x, y),
                0x3 => self.op_xor(x, y),
                0x4 => self.op_add_vx_vy(x, y),
                0x5 => self.op_sub(x, y),
                0x6 => self.op_shr(x),
                0x7 => self.op_subn(x, y),
                0xE => self.op_shl(x),
                _ => {},
            },
            0x9 => self.op_sne_vx_vy(x, y),
            0xA => self.op_ld_i(nnn),
            0xB => self.op_jp_v0(nnn),
            0xC => self.op_rnd(x, nn, rnd),
            0xD => self.op_drw(x, y, n),
            0xE => match nn {
                0x9E => self.op_skp(x),
                0xA1 => self.op_sknp(x),
                _ => {},
            },
            _ => match nn {
                0x07 => self.op_ld_vx_dt(x),
                0x0A => self.op_ld_vx_k(x),
                0x15 => self.op_ld_dt_vx(x),
                0x18 => self.op_ld_st_vx(x),
                0x1E => self.op_add_i_vx(x),
                0x29 => self.op_ld_f_vx(x),
                0x33 => self.op_ld_b_vx(x),
                0x55 => self.op_ld_i_vx(x),
                0x65 => self.op_ld_vx_i(x),
                _ => {},
            },
        }
    }

    /// Whether `op` names an instruction; any other opcode is skipped by
    /// `tick` without effect.
    pub fn names_instruction(op: u16) -> (known: bool)
        ensures
            known == names_instruction(op),
    {
        proof {
            lemma_decode(op);
        }
        let kind = op >> 12;
        let n = op & 0x000F;
        let nn = op & 0x00FF;
        if kind == 0x0 {
            op == 0x00E0 || op == 0x00EE
        } else if kind == 0x8 {
            n <= 0x7 || n == 0xE
        } else if kind == 0xE {
            nn == 0x9E || nn == 0xA1
        } else if kind == 0xF {
            nn == 0x07 || nn == 0x0A || nn == 0x15 || nn == 0x18 || nn == 0x1E || nn == 0x29 || nn
                == 0x33 || nn == 0x55 || nn == 0x65
        } else {
            true
        }
    }

    /// Counts both timers down by one, stopping at zero.
    pub fn tick_timers(&mut self)
        ensures
            final(self)@ == old(self)@.timers_ticked(),
    {
        if self.delay_timer > 0 {
            self.delay_timer -= 1;
        }
        if self.sound_timer > 0 {
            self.sound_timer -= 1;
        }
    }
}

} // verus!