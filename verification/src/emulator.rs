//! The CHIP-8 processor.
use vstd::prelude::*;
use crate::font::{font, font_spec, FONT_START};
use crate::keypad::{keypad_value, key_of, lemma_key_of_in_range};
use crate::machine::{
    covers, loaded_memory, no_escape, pressed_key, sprite_bit, Action, ProcView, FRAMEBUFFER_SIZE,
    MAX_PROGRAM_WORDS, MEMORY_SIZE, PROGRAM_START,
};

verus! {

/// A CHIP-8 processor with its memory, screen and keypad.
pub struct Proc {
    registers_g: [u8; 16],
    reg_i: u16,
    reg_dt: u8,
    reg_st: u16,
    pc: u16,
    sp: u16,
    memory: [u8; 4096],
    framebuffer: [u8; 2048],
    key: [u8; 16],
    /// A time stamp that the caller may keep with the processor.
    pub timers_last: u32,
}

impl View for Proc {
    type V = ProcView;

    closed spec fn view(&self) -> ProcView {
        ProcView {
            regs: self.registers_g@,
            i: self.reg_i,
            dt: self.reg_dt,
            st: self.reg_st,
            pc: self.pc,
            sp: self.sp,
            memory: self.memory@,
            framebuffer: self.framebuffer@,
            keys: self.key@,
            timers_last: self.timers_last,
        }
    }
}


/// Whether pixel `p` lies under a set bit of the sprite and has been drawn
/// once the first `r` rows and the first `c` bits of row `r` are done.
spec fn drawn_before(memory: Seq<u8>, i: u16, vx: u8, vy: u8, h: int, p: int, r: int, c: int) -> bool {
    let d = p - vx - vy * 64;
    &&& covers(memory, i, vx, vy, h, p)
    &&& (d / 64 < r || (d / 64 == r && d % 64 < c))
}

/// A pixel sits at row `yl` and column `xl` of a sprite drawn at
/// (`vx`, `vy`) exactly when it is the pixel `vx + xl + (vy + yl) * 64`.
pub(crate) proof fn lemma_sprite_position(p: int, vx: int, vy: int, yl: int, xl: int)
    requires
        0 <= xl < 8,
        0 <= yl,
    ensures
        (p - vx - vy * 64 >= 0 && (p - vx - vy * 64) / 64 == yl && (p - vx - vy * 64) % 64 == xl)
            <==> p == vx + xl + (vy + yl) * 64,
{
    let d = p - vx - vy * 64;
    if p == vx + xl + (vy + yl) * 64 {
        assert(d == yl * 64 + xl);
        vstd::arithmetic::div_mod::lemma_fundamental_div_mod_converse(d, 64, yl, xl);
    }
    if d >= 0 && d / 64 == yl && d % 64 == xl {
        vstd::arithmetic::div_mod::lemma_fundamental_div_mod(d, 64);
    }
}

/// A pixel under the sprite has a row and a column that are not negative.
pub(crate) proof fn lemma_sprite_row_col(d: int)
    requires
        0 <= d,
    ensures
        0 <= d / 64,
        0 <= d % 64 < 64,
{
    vstd::arithmetic::div_mod::lemma_fundamental_div_mod(d, 64);
    vstd::arithmetic::div_mod::lemma_mod_pos_bound(d, 64);
}


/// The memory once the first `k` words of `prog` are in place from
/// `PROGRAM_START` on, high byte first.
spec fn program_prefix(memory: Seq<u8>, prog: Seq<u16>, k: int) -> Seq<u8> {
    Seq::new(
        memory.len(),
        |a: int|
            if PROGRAM_START <= a < PROGRAM_START + 2 * k {
                let w = prog[(a - PROGRAM_START) / 2];
                if (a - PROGRAM_START) % 2 == 0 {
                    (w / 256) as u8
                } else {
                    (w % 256) as u8
                }
            } else {
                memory[a]
            },
    )
}

/// The address `PROGRAM_START + 2 * k + b` holds byte `b` of word `k`.
proof fn lemma_program_offset(k: int, b: int)
    requires
        0 <= k,
        0 <= b < 2,
    ensures
        (2 * k + b) / 2 == k,
        (2 * k + b) % 2 == b,
{
    vstd::arithmetic::div_mod::lemma_fundamental_div_mod_converse(2 * k + b, 2, k, b);
}

/// An address in the first `k` words of a program lies in one of them.
proof fn lemma_program_word(off: int, k: int)
    requires
        0 <= off < 2 * k,
    ensures
        0 <= off / 2 < k,
        off % 2 == 0 || off % 2 == 1,
{
    vstd::arithmetic::div_mod::lemma_fundamental_div_mod(off, 2);
    vstd::arithmetic::div_mod::lemma_mod_pos_bound(off, 2);
}

impl Proc {
    /// The sizes of the processor's parts are those of the machine.
    pub proof fn lemma_wf(&self)
        ensures
            self@.wf(),
    {
    }

    /// A processor just switched on: every register, byte of memory, pixel
    /// and key is zero, execution starts at `PROGRAM_START` and the stack at
    /// `STACK_START`.
    pub fn new() -> (p: Self)
        ensures
            p@ == ProcView::initial(),
    {
        let p = Proc {
            registers_g: [0; 16],
            reg_i: 0,
            reg_dt: 0,
            reg_st: 0,
            pc: 0x200,
            sp: 4000,
            memory: [0; 4096],
            framebuffer: [0; 2048],
            key: [0; 16],
            timers_last: 0,
        };
        assert(p@ =~= ProcView::initial());
        p
    }

    /// Reads the opcode at the program counter, high byte first, and moves
    /// the program counter past it.
    pub fn next_instruction(&mut self) -> (op: u16)
        requires
            old(self)@.pc + 1 < MEMORY_SIZE,
        ensures
            op == old(self)@.opcode(),
            final(self)@ == old(self)@.fetched(),
    {
        let hi = self.memory[self.pc as usize];
        let lo = self.memory[self.pc as usize + 1];
        let a: u16 = (hi as u16) * 256 + (lo as u16);
        self.pc += 2;
        a
    }

    /// The screen, one byte per pixel, row after row.
    pub fn get_framebuffer(&self) -> (fb: &[u8])
        ensures
            fb@ == self@.framebuffer,
    {
        self.framebuffer.as_slice()
    }

    /// The general purpose registers V0 to VF.
    pub fn get_registers(&self) -> (r: [u8; 16])
        ensures
            r@ == self@.regs,
    {
        self.registers_g
    }

    /// The address register I.
    pub fn get_reg_i(&self) -> (r: u16)
        ensures
            r == self@.i,
    {
        self.reg_i
    }


    /// DRW Vx, Vy, n, with `xr`, `yr` and `height` taken from the opcode.
    fn draw(&mut self, xr: u16, yr: u16, height: u16)
        requires
            xr < 16,
            yr < 16,
            height < 16,
            height == 0 || old(self)@.i + height - 1 < MEMORY_SIZE,
        ensures
            final(self)@ == old(self)@.draw(xr as int, yr as int, height as int),
    {
        let ghost s0 = self@;
        let x = self.registers_g[xr as usize] as u16;
        let y = self.registers_g[yr as usize] as u16;
        let ghost vx = s0.regs[xr as int];
        let ghost vy = s0.regs[yr as int];
        let ghost h = height as int;
        self.registers_g[15] = 0;
        let mut yline: u16 = 0;
        while yline < height
            invariant
                0 <= yline <= height,
                height < 16,
                height == 0 || s0.i + height - 1 < MEMORY_SIZE,
                x == vx,
                y == vy,
                h == height as int,
                s0.wf(),
                self@ == (ProcView { framebuffer: self@.framebuffer, regs: self@.regs, ..s0 }),
                self@.framebuffer.len() == FRAMEBUFFER_SIZE,
                forall|p: int| 0 <= p < FRAMEBUFFER_SIZE ==> #[trigger] self@.framebuffer[p] == if drawn_before(s0.memory, s0.i, vx, vy, h, p, yline as int, 0) {
                    s0.framebuffer[p] ^ 1u8 } else { s0.framebuffer[p] },
                self@.regs == s0.regs.update(15, if exists|p: int| 0 <= p < FRAMEBUFFER_SIZE
                    && #[trigger] drawn_before(s0.memory, s0.i, vx, vy, h, p, yline as int, 0) && s0.framebuffer[p] == 1 { 1u8 } else { 0u8 }),
            decreases height - yline,
        {
            let pixel = self.memory[(self.reg_i + yline) as usize];
            let mut xline: u16 = 0;
            while xline < 8
                invariant
                    0 <= xline <= 8,
                    0 <= yline < height,
                    height < 16,
                    x == vx,
                    y == vy,
                    h == height as int,
                    pixel == s0.memory[s0.i + yline],
                    s0.wf(),
                    self@ == (ProcView { framebuffer: self@.framebuffer, regs: self@.regs, ..s0 }),
                    self@.framebuffer.len() == FRAMEBUFFER_SIZE,
                    forall|p: int| 0 <= p < FRAMEBUFFER_SIZE ==> #[trigger] self@.framebuffer[p] == if drawn_before(s0.memory, s0.i, vx, vy, h, p, yline as int, xline as int) {
                        s0.framebuffer[p] ^ 1u8 } else { s0.framebuffer[p] },
                    self@.regs == s0.regs.update(15, if exists|p: int| 0 <= p < FRAMEBUFFER_SIZE
                        && #[trigger] drawn_before(s0.memory, s0.i, vx, vy, h, p, yline as int, xline as int) && s0.framebuffer[p] == 1 { 1u8 } else { 0u8 }),
                decreases 8 - xline,
            {
                let ghost before = self@;
                let pos: u16 = x + xline + (y + yline) * 64;
                proof {
                    assert forall|p: int| 0 <= p < FRAMEBUFFER_SIZE implies
                        #[trigger] drawn_before(s0.memory, s0.i, vx, vy, h, p, yline as int, xline as int + 1)
                        == (drawn_before(s0.memory, s0.i, vx, vy, h, p, yline as int, xline as int)
                            || (p == pos && covers(s0.memory, s0.i, vx, vy, h, p)))
                    by {
                        lemma_sprite_position(p, vx as int, vy as int, yline as int, xline as int);
                    }
                    lemma_sprite_position(pos as int, vx as int, vy as int, yline as int, xline as int);
                }
                let ghost c0 = xline as int;
                let ghost yl = yline as int;
                let ghost hit = pos < 2048 && covers(s0.memory, s0.i, vx, vy, h, pos as int);
                if pixel & (0x80u8 >> (xline as u8)) != 0 {
                    if pos < 2048 {
                        proof {
                            let d = pos - vx - vy * 64;
                            assert(d / 64 == yl && d % 64 == c0);
                            assert(sprite_bit(s0.memory[s0.i + d / 64], d % 64));
                        }
                        assert(0 <= pos - vx - vy * 64);
                        assert((pos - vx - vy * 64) / 64 < h);
                        assert((pos - vx - vy * 64) % 64 < 8);
                        assert(covers(s0.memory, s0.i, vx, vy, h, pos as int));
                        assert(hit);
                        let v = self.framebuffer[pos as usize] ^ 1;
                        self.framebuffer[pos as usize] = v;
                        assert(forall|b: u8| (b ^ 1u8) == 0u8 <==> b == 1u8) by (bit_vector);
                        if self.framebuffer[pos as usize] == 0 {
                            self.registers_g[15] = 1;
                        }
                    }
                } else {
                    proof {
                        let d = pos - vx - vy * 64;
                        assert(d / 64 == yl && d % 64 == c0);
                        assert(!sprite_bit(s0.memory[s0.i + d / 64], d % 64));
                    }
                    assert(!hit);
                }
                proof {
                    let ex_old = exists|p: int| 0 <= p < FRAMEBUFFER_SIZE
                        && #[trigger] drawn_before(s0.memory, s0.i, vx, vy, h, p, yl, c0) && s0.framebuffer[p] == 1;
                    let ex_new = exists|p: int| 0 <= p < FRAMEBUFFER_SIZE
                        && #[trigger] drawn_before(s0.memory, s0.i, vx, vy, h, p, yl, c0 + 1) && s0.framebuffer[p] == 1;
                    if ex_old {
                        let w = choose|p: int| 0 <= p < FRAMEBUFFER_SIZE
                            && #[trigger] drawn_before(s0.memory, s0.i, vx, vy, h, p, yl, c0) && s0.framebuffer[p] == 1;
                        assert(drawn_before(s0.memory, s0.i, vx, vy, h, w, yl, c0 + 1));
                        assert(ex_new);
                    }
                    if hit {
                        assert(!drawn_before(s0.memory, s0.i, vx, vy, h, pos as int, yl, c0));
                        assert(before.framebuffer[pos as int] == s0.framebuffer[pos as int]);
                        if s0.framebuffer[pos as int] == 1 {
                            assert(drawn_before(s0.memory, s0.i, vx, vy, h, pos as int, yl, c0 + 1));
                            assert(ex_new);
                            assert(self@.regs[15] == 1);
                        } else {
                            if ex_new {
                                let w = choose|p: int| 0 <= p < FRAMEBUFFER_SIZE
                                    && #[trigger] drawn_before(s0.memory, s0.i, vx, vy, h, p, yl, c0 + 1) && s0.framebuffer[p] == 1;
                                assert(w != pos);
                                assert(drawn_before(s0.memory, s0.i, vx, vy, h, w, yl, c0));
                            }
                            assert(ex_new == ex_old);
                        }
                    } else {
                        if ex_new {
                            let w = choose|p: int| 0 <= p < FRAMEBUFFER_SIZE
                                && #[trigger] drawn_before(s0.memory, s0.i, vx, vy, h, p, yl, c0 + 1) && s0.framebuffer[p] == 1;
                            assert(drawn_before(s0.memory, s0.i, vx, vy, h, w, yl, c0));
                        }
                        assert(ex_new == ex_old);
                    }
                }
                xline += 1;
            }
            proof {
                assert forall|p: int| 0 <= p < FRAMEBUFFER_SIZE implies
                    #[trigger] drawn_before(s0.memory, s0.i, vx, vy, h, p, yline as int + 1, 0)
                    == drawn_before(s0.memory, s0.i, vx, vy, h, p, yline as int, 8)
                by {
                }
                let yl = yline as int;
                if exists|p: int| 0 <= p < FRAMEBUFFER_SIZE
                    && #[trigger] drawn_before(s0.memory, s0.i, vx, vy, h, p, yl, 8) && s0.framebuffer[p] == 1 {
                    let w = choose|p: int| 0 <= p < FRAMEBUFFER_SIZE
                        && #[trigger] drawn_before(s0.memory, s0.i, vx, vy, h, p, yl, 8) && s0.framebuffer[p] == 1;
                    assert(drawn_before(s0.memory, s0.i, vx, vy, h, w, yl + 1, 0));
                }
                if exists|p: int| 0 <= p < FRAMEBUFFER_SIZE
                    && #[trigger] drawn_before(s0.memory, s0.i, vx, vy, h, p, yl + 1, 0) && s0.framebuffer[p] == 1 {
                    let w = choose|p: int| 0 <= p < FRAMEBUFFER_SIZE
                        && #[trigger] drawn_before(s0.memory, s0.i, vx, vy, h, p, yl + 1, 0) && s0.framebuffer[p] == 1;
                    assert(drawn_before(s0.memory, s0.i, vx, vy, h, w, yl, 8));
                }
            }
            yline += 1;
        }
        proof {
            assert forall|p: int| 0 <= p < FRAMEBUFFER_SIZE implies
                #[trigger] drawn_before(s0.memory, s0.i, vx, vy, h, p, h, 0)
                == covers(s0.memory, s0.i, vx, vy, h, p)
            by {
                if covers(s0.memory, s0.i, vx, vy, h, p) {
                    lemma_sprite_row_col(p - vx - vy * 64);
                }
            }
            if s0.collides(xr as int, yr as int, h) {
                let w = choose|p: int| 0 <= p < FRAMEBUFFER_SIZE
                    && #[trigger] covers(s0.memory, s0.i, vx, vy, h, p) && s0.framebuffer[p] == 1;
                assert(drawn_before(s0.memory, s0.i, vx, vy, h, w, h, 0));
            }
            if exists|p: int| 0 <= p < FRAMEBUFFER_SIZE
                && #[trigger] drawn_before(s0.memory, s0.i, vx, vy, h, p, h, 0) && s0.framebuffer[p] == 1 {
                let w = choose|p: int| 0 <= p < FRAMEBUFFER_SIZE
                    && #[trigger] drawn_before(s0.memory, s0.i, vx, vy, h, p, h, 0) && s0.framebuffer[p] == 1;
                assert(covers(s0.memory, s0.i, vx, vy, h, w));
            }
        }
        assert(self@ =~= s0.draw(xr as int, yr as int, h));
    }

    /// The arithmetic and logic instructions 8xyn.
    fn alu(&mut self, x: u16, y: u16, n: u16)
        requires
            x < 16,
            y < 16,
        ensures
            final(self)@ == old(self)@.alu(x as int, y as int, n),
    {
        let ghost s0 = self@;
        let xi = x as usize;
        let yi = y as usize;
        match n {
            0 => {
                self.registers_g[xi] = self.registers_g[yi];
            },
            1 => {
                self.registers_g[xi] = self.registers_g[xi] | self.registers_g[yi];
            },
            2 => {
                self.registers_g[xi] = self.registers_g[xi] & self.registers_g[yi];
            },
            3 => {
                self.registers_g[xi] = self.registers_g[xi] ^ self.registers_g[yi];
            },
            4 => {
                let result: u16 = self.registers_g[xi] as u16 + self.registers_g[yi] as u16;
                if result > 255 {
                    self.registers_g[15] = 1;
                } else {
                    self.registers_g[15] = 0;
                }
                assert(result as u8 == (result % 256) as u8) by (bit_vector);
                self.registers_g[xi] = result as u8;
            },
            5 => {
                if self.registers_g[xi] > self.registers_g[yi] {
                    self.registers_g[15] = 1;
                } else {
                    self.registers_g[15] = 0;
                }
                self.registers_g[xi] = self.registers_g[xi].wrapping_sub(self.registers_g[yi]);
            },
            6 => {
                let v = self.registers_g[xi];
                assert(v & 1u8 == (v % 2) as u8) by (bit_vector);
                self.registers_g[15] = self.registers_g[xi] & 0x1;
                let w = self.registers_g[xi];
                assert(w >> 1u8 == (w / 2) as u8) by (bit_vector);
                self.registers_g[xi] = self.registers_g[xi] >> 1;
            },
            7 => {
                if self.registers_g[yi] > self.registers_g[xi] {
                    self.registers_g[15] = 1;
                } else {
                    self.registers_g[15] = 0;
                }
                self.registers_g[xi] = self.registers_g[yi].wrapping_sub(self.registers_g[xi]);
            },
            0xE => {
                let v = self.registers_g[xi];
                assert((v >> 7u8) & 0xFu8 == (v / 128) as u8) by (bit_vector);
                self.registers_g[15] = (self.registers_g[xi] >> 7) & 0xF;
                let w = self.registers_g[xi];
                assert(w << 1u8 == ((w * 2) % 256) as u8) by (bit_vector);
                self.registers_g[xi] = self.registers_g[xi] << 1;
            },
            _ => {},
        }
        assert(self@ =~= s0.alu(x as int, y as int, n));
    }

    /// The instructions Fxkk other than LD Vx, K.
    fn misc(&mut self, x: u16, kk: u16)
        requires
            x < 16,
            kk == 0x1E ==> old(self)@.i + old(self)@.regs[x as int] <= u16::MAX,
            kk == 0x29 ==> old(self)@.regs[x as int] * 5 + FONT_START <= u8::MAX,
            kk == 0x33 ==> old(self)@.i + 2 < MEMORY_SIZE,
            kk == 0x55 || kk == 0x65 ==> x == 0 || old(self)@.i + x - 1 < MEMORY_SIZE,
        ensures
            final(self)@ == old(self)@.misc(x as int, kk),
    {
        let ghost s0 = self@;
        let xi = x as usize;
        match kk {
            0x07 => {
                self.registers_g[xi] = self.reg_dt;
            },
            0x15 => {
                self.reg_dt = self.registers_g[xi];
            },
            0x18 => {
                self.reg_st = self.registers_g[xi] as u16;
            },
            0x1E => {
                self.reg_i += self.registers_g[xi] as u16;
            },
            0x29 => {
                let v: u8 = self.registers_g[xi] * 5 + 0x50;
                self.reg_i = v as u16;
            },
            0x33 => {
                let y = self.registers_g[xi];
                self.memory[self.reg_i as usize] = y / 100;
                self.memory[self.reg_i as usize + 1] = y / 10;
                self.memory[self.reg_i as usize + 2] = y;
            },
            0x55 => {
                let mut j: u16 = 0;
                while j < x
                    invariant
                        0 <= j <= x,
                        x < 16,
                        x == 0 || s0.i + x - 1 < MEMORY_SIZE,
                        s0.wf(),
                        self@ == (ProcView { memory: self@.memory, ..s0 }),
                        self@.memory == Seq::new(
                            s0.memory.len(),
                            |a: int| if s0.i <= a < s0.i + j { s0.regs[a - s0.i] } else { s0.memory[a] },
                        ),
                    decreases x - j,
                {
                    self.memory[(self.reg_i + j) as usize] = self.registers_g[j as usize];
                    j += 1;
                }
            },
            0x65 => {
                let mut j: u16 = 0;
                while j < x
                    invariant
                        0 <= j <= x,
                        x < 16,
                        x == 0 || s0.i + x - 1 < MEMORY_SIZE,
                        s0.wf(),
                        self@ == (ProcView { regs: self@.regs, ..s0 }),
                        self@.regs == Seq::new(
                            s0.regs.len(),
                            |r: int| if r < j { s0.memory[s0.i + r] } else { s0.regs[r] },
                        ),
                    decreases x - j,
                {
                    self.registers_g[j as usize] = self.memory[(self.reg_i + j) as usize];
                    j += 1;
                }
            },
            _ => {},
        }
        assert(self@ =~= s0.misc(x as int, kk));
    }

    /// Executes the opcode `i`, which has just been fetched, and says what
    /// is left for the caller to do.
    fn execute(&mut self, i: u16) -> (act: Action)
        requires
            old(self)@.execute_ok(i),
            old(self)@.pc <= MEMORY_SIZE,
        ensures
            final(self)@ == old(self)@.execute(i).0,
            act == old(self)@.execute(i).1,
    {
        proof {
            assert((i >> 8u16) & 0xFu16 < 16) by (bit_vector);
            assert((i >> 4u16) & 0xFu16 < 16) by (bit_vector);
            assert(i & 0xFu16 < 16) by (bit_vector);
            assert(i & 0xFFu16 < 256) by (bit_vector);
            assert(i & 0xFFFu16 < 4096) by (bit_vector);
            assert(i & 0xF000u16 == 0x0000u16 || i & 0xF000u16 == 0x1000u16 || i & 0xF000u16 == 0x2000u16
                || i & 0xF000u16 == 0x3000u16 || i & 0xF000u16 == 0x4000u16 || i & 0xF000u16 == 0x5000u16
                || i & 0xF000u16 == 0x6000u16 || i & 0xF000u16 == 0x7000u16 || i & 0xF000u16 == 0x8000u16
                || i & 0xF000u16 == 0x9000u16 || i & 0xF000u16 == 0xA000u16 || i & 0xF000u16 == 0xB000u16
                || i & 0xF000u16 == 0xC000u16 || i & 0xF000u16 == 0xD000u16 || i & 0xF000u16 == 0xE000u16
                || i & 0xF000u16 == 0xF000u16) by (bit_vector);
        }
        let ghost s0 = self@;
        let x = (i >> 8) & 0xF;
        let y = (i >> 4) & 0xF;
        let kk = i & 0xFF;
        let nnn = i & 0xFFF;
        let family = i & 0xF000;
        if family == 0x0000 {
            if i == 0x00E0 {
                // CLS
                let mut p: usize = 0;
                while p < 2048
                    invariant
                        0 <= p <= 2048,
                        s0.wf(),
                        self@ == (ProcView { framebuffer: self@.framebuffer, ..s0 }),
                        self@.framebuffer.len() == FRAMEBUFFER_SIZE,
                        forall|q: int| 0 <= q < p ==> #[trigger] self@.framebuffer[q] == 0,
                    decreases 2048 - p,
                {
                    self.framebuffer[p] = 0;
                    p += 1;
                }
                assert(self@ =~= s0.clear_screen());
                Action::Continue
            } else if i == 0x00EE {
                // RET
                let hi = self.memory[self.sp as usize];
                let lo = self.memory[(self.sp - 1) as usize];
                self.pc = (hi as u16) * 256 + (lo as u16);
                self.sp -= 2;
                Action::Continue
            } else {
                Action::Halt { opcode: i }
            }
        } else if family == 0x1000 {
            // JP addr
            self.pc = nnn;
            Action::Continue
        } else if family == 0x2000 {
            // CALL addr
            self.sp += 2;
            self.memory[self.sp as usize] = (self.pc / 256) as u8;
            self.memory[self.sp as usize - 1] = (self.pc % 256) as u8;
            self.pc = nnn;
            Action::Continue
        } else if family == 0x3000 {
            // SE Vx, byte
            if self.registers_g[x as usize] as u16 == kk {
                self.pc += 2;
            }
            Action::Continue
        } else if family == 0x4000 {
            // SNE Vx, byte
            if self.registers_g[x as usize] as u16 != kk {
                self.pc += 2;
            }
            Action::Continue
        } else if family == 0x5000 {
            // SE Vx, Vy
            if self.registers_g[x as usize] == self.registers_g[y as usize] {
                self.pc += 2;
            }
            Action::Continue
        } else if family == 0x6000 {
            // LD Vx, byte
            self.registers_g[x as usize] = kk as u8;
            Action::Continue
        } else if family == 0x7000 {
            // ADD Vx, byte
            let result: u16 = self.registers_g[x as usize] as u16 + kk;
            assert(result as u8 == (result % 256) as u8) by (bit_vector);
            self.registers_g[x as usize] = result as u8;
            Action::Continue
        } else if family == 0x8000 {
            self.alu(x, y, i & 0xF);
            Action::Continue
        } else if family == 0x9000 {
            // SNE Vx, Vy
            if self.registers_g[x as usize] != self.registers_g[y as usize] {
                self.pc += 2;
            }
            Action::Continue
        } else if family == 0xA000 {
            // LD I, addr
            self.reg_i = nnn;
            Action::Continue
        } else if family == 0xB000 {
            // JP with offset I
            self.pc = self.reg_i + nnn;
            Action::Continue
        } else if family == 0xC000 {
            // RND Vx, byte: no effect
            Action::Continue
        } else if family == 0xD000 {
            // DRW Vx, Vy, nibble
            self.draw(x, y, i & 0xF);
            Action::Continue
        } else if family == 0xE000 {
            if kk == 0x9E {
                Action::SkipIfKey { x: x as u8 }
            } else if kk == 0xA1 {
                Action::SkipUnlessKey { x: x as u8 }
            } else {
                Action::Continue
            }
        } else {
            if kk == 0x0A {
                Action::WaitKey { x: x as u8 }
            } else {
                self.misc(x, kk);
                Action::Continue
            }
        }
    }

    /// Copies the program into memory from `PROGRAM_START` on, each word high
    /// byte first, and the font from `FONT_START` on; the rest of memory and
    /// every register stay as they were.
    pub fn load_program(&mut self, prog: &[u16])
        requires
            prog.len() <= MAX_PROGRAM_WORDS,
        ensures
            final(self)@ == (ProcView { memory: loaded_memory(old(self)@.memory, prog@), ..old(self)@ }),
    {
        let ghost s0 = self@;
        let mut i: usize = 0x200;
        let mut k: usize = 0;
        while k < prog.len()
            invariant
                0 <= k <= prog.len(),
                prog.len() <= MAX_PROGRAM_WORDS,
                i == 0x200 + 2 * k,
                s0.wf(),
                self@ == (ProcView { memory: self@.memory, ..s0 }),
                self@.memory == program_prefix(s0.memory, prog@, k as int),
            decreases prog.len() - k,
        {
            let w = prog[k];
            self.memory[i] = (w / 256) as u8;
            self.memory[i + 1] = (w % 256) as u8;
            proof {
                lemma_program_offset(k as int, 0);
                lemma_program_offset(k as int, 1);
                assert forall|a: int| 0 <= a < MEMORY_SIZE implies #[trigger] self@.memory[a]
                    == program_prefix(s0.memory, prog@, k + 1)[a] by {
                    if PROGRAM_START <= a < PROGRAM_START + 2 * k {
                        lemma_program_word(a - PROGRAM_START, k as int);
                    }
                }
                assert(self@.memory =~= program_prefix(s0.memory, prog@, k + 1));
            }
            i += 2;
            k += 1;
        }
        let ghost mid = self@.memory;
        let f = font();
        let mut j: usize = 0;
        i = 0x50;
        while j < 80
            invariant
                0 <= j <= 80,
                i == 0x50 + j,
                f@ == font_spec(),
                mid.len() == MEMORY_SIZE,
                self@ == (ProcView { memory: self@.memory, ..s0 }),
                self@.memory == Seq::new(
                    mid.len(),
                    |a: int| if FONT_START <= a < FONT_START + j { font_spec()[a - FONT_START] } else { mid[a] },
                ),
            decreases 80 - j,
        {
            self.memory[i] = f[j];
            proof {
                assert(self@.memory =~= Seq::new(
                    mid.len(),
                    |a: int| if FONT_START <= a < FONT_START + j + 1 { font_spec()[a - FONT_START] } else { mid[a] },
                ));
            }
            i += 1;
            j += 1;
        }
        assert(self@.memory =~= loaded_memory(s0.memory, prog@));
    }

    /// Marks as pressed each keypad key that a key in `pressed` stands for.
    pub fn update_key(&mut self, pressed: &[i32])
        requires
            no_escape(pressed@),
        ensures
            final(self)@ == old(self)@.press_keys(pressed@),
    {
        let ghost s0 = self@;
        let mut j: usize = 0;
        while j < pressed.len()
            invariant
                0 <= j <= pressed.len(),
                s0.wf(),
                self@ == (ProcView { keys: self@.keys, ..s0 }),
                self@.keys == s0.press_keys(pressed@.take(j as int)).keys,
            decreases pressed.len() - j,
        {
            let sym = pressed[j];
            proof {
                lemma_key_of_in_range(sym);
            }
            match keypad_value(sym) {
                Some(v) => {
                    self.key[v as usize] = 1;
                },
                None => {},
            }
            proof {
                let before = pressed@.take(j as int);
                let after = pressed@.take(j + 1);
                assert forall|k: int| 0 <= k < 16 implies #[trigger] pressed_key(after, k)
                    == (pressed_key(before, k) || key_of(sym) == Some(k as u8)) by {
                    if pressed_key(after, k) {
                        let w = choose|w: int| 0 <= w < after.len() && key_of(#[trigger] after[w]) == Some(k as u8);
                        if w < j {
                            assert(before[w] == after[w]);
                        }
                    }
                    if pressed_key(before, k) {
                        let w = choose|w: int| 0 <= w < before.len() && key_of(#[trigger] before[w]) == Some(k as u8);
                        assert(after[w] == before[w]);
                    }
                    if key_of(sym) == Some(k as u8) {
                        assert(after[j as int] == sym);
                    }
                }
                assert(self@.keys =~= s0.press_keys(after).keys);
            }
            j += 1;
        }
        assert(pressed@.take(pressed.len() as int) =~= pressed@);
        assert(self@ =~= s0.press_keys(pressed@));
    }

    /// Completes SKP Vx once the pending key presses are read: when key `x`
    /// is pressed, the next instruction is skipped and the press consumed.
    pub fn skip_if_key(&mut self, x: u8, pressed: &[i32])
        requires
            x < 16,
            no_escape(pressed@),
            old(self)@.pc + 2 <= u16::MAX,
        ensures
            final(self)@ == old(self)@.skip_if_key(x as int, pressed@),
    {
        self.update_key(pressed);
        if self.key[x as usize] == 1 {
            self.pc += 2;
            self.key[x as usize] = 0;
        }
    }

    /// Completes SKNP Vx once the pending key presses are read: when key `x`
    /// is not pressed, the next instruction is skipped; the press is consumed
    /// either way.
    pub fn skip_unless_key(&mut self, x: u8, pressed: &[i32])
        requires
            x < 16,
            no_escape(pressed@),
            old(self)@.pc + 2 <= u16::MAX,
        ensures
            final(self)@ == old(self)@.skip_unless_key(x as int, pressed@),
    {
        self.update_key(pressed);
        if self.key[x as usize] != 1 {
            self.pc += 2;
        }
        self.key[x as usize] = 0;
    }

    /// Completes LD Vx, K with the key press `sym` that came: Vx holds the
    /// keypad key it stands for; a key outside the keypad leaves Vx as it was.
    pub fn load_key(&mut self, x: u8, sym: i32)
        requires
            x < 16,
        ensures
            final(self)@ == old(self)@.load_key(x as int, sym),
    {
        match keypad_value(sym) {
            Some(v) => {
                self.registers_g[x as usize] = v;
            },
            None => {},
        }
    }

    /// Whether `op`, once fetched, runs without a fault.
    fn op_runs(&self, op: u16) -> (ok: bool)
        ensures
            ok == self@.execute_ok(op),
    {
        proof {
            assert((op >> 8u16) & 0xFu16 < 16) by (bit_vector);
        }
        let family = op & 0xF000;
        let x = (op >> 8) & 0xF;
        let n = op & 0xF;
        let kk = op & 0xFF;
        if family == 0x0000 {
            op != 0x00EE || (2 <= self.sp && self.sp < 4096)
        } else if family == 0x2000 {
            self.sp < 4094
        } else if family == 0xB000 {
            self.reg_i as u32 + (op & 0xFFF) as u32 <= 0xFFFF
        } else if family == 0xD000 {
            n == 0 || (self.reg_i as u32 + n as u32 - 1 < 4096)
        } else if family == 0xF000 {
            let vx = self.registers_g[x as usize];
            if kk == 0x1E {
                self.reg_i as u32 + vx as u32 <= 0xFFFF
            } else if kk == 0x29 {
                vx as u32 * 5 + 0x50 <= 0xFF
            } else if kk == 0x33 {
                (self.reg_i as u32) + 2 < 4096
            } else if kk == 0x55 || kk == 0x65 {
                x == 0 || (self.reg_i as u32 + x as u32 - 1 < 4096)
            } else {
                true
            }
        } else {
            true
        }
    }

    /// Whether `run` can fetch and execute the next instruction without a
    /// fault.
    pub fn can_step(&self) -> (ok: bool)
        ensures
            ok == self@.step_ok(),
    {
        if self.pc >= 4095 {
            return false;
        }
        let hi = self.memory[self.pc as usize];
        let lo = self.memory[self.pc as usize + 1];
        let op: u16 = (hi as u16) * 256 + (lo as u16);
        assert(self@.fetched().execute_ok(op) == self@.execute_ok(op));
        self.op_runs(op)
    }

    /// Fetches the next instruction and executes it. What only the caller
    /// can do (read the keyboard, or stop on an unknown opcode) it is told by
    /// the returned action.
    pub fn run(&mut self) -> (act: Action)
        requires
            old(self)@.step_ok(),
        ensures
            final(self)@ == old(self)@.step().0,
            act == old(self)@.step().1,
    {
        let i = self.next_instruction();
        self.execute(i)
    }

    /// The program counter.
    pub fn get_pc(&self) -> (r: u16)
        ensures
            r == self@.pc,
    {
        self.pc
    }

    /// The stack pointer.
    pub fn get_sp(&self) -> (r: u16)
        ensures
            r == self@.sp,
    {
        self.sp
    }

    /// The delay timer.
    pub fn get_delay_timer(&self) -> (r: u8)
        ensures
            r == self@.dt,
    {
        self.reg_dt
    }

    /// The sound timer.
    pub fn get_sound_timer(&self) -> (r: u16)
        ensures
            r == self@.st,
    {
        self.reg_st
    }

    /// The memory.
    pub fn get_memory(&self) -> (m: &[u8])
        ensures
            m@ == self@.memory,
    {
        self.memory.as_slice()
    }

    /// Which keys are marked as pressed (1) or not (0).
    pub fn get_keys(&self) -> (k: [u8; 16])
        ensures
            k@ == self@.keys,
    {
        self.key
    }

    /// One tick of both timers: each goes down by one until it is zero.
    pub fn dec_timers(&mut self)
        ensures
            final(self)@ == old(self)@.tick_timers(),
    {
        if self.reg_dt > 0 {
            self.reg_dt -= 1;
        }
        if self.reg_st > 0 {
            self.reg_st -= 1;
        }
    }
}

} // verus!
