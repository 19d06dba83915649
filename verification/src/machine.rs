//! The abstract CHIP-8 machine: its state as mathematical values, and what
//! each instruction does to it.
use vstd::prelude::*;
use crate::font::{font_spec, FONT_START};
use crate::keypad::key_of;

verus! {

/// Bytes of memory.
pub const MEMORY_SIZE: usize = 4096;
/// Width of the screen, in pixels.
pub const SCREEN_WIDTH: usize = 64;
/// Height of the screen, in pixels.
pub const SCREEN_HEIGHT: usize = 32;
/// Pixels of the screen, row after row.
pub const FRAMEBUFFER_SIZE: usize = 2048;
/// Where programs are loaded and where execution starts.
pub const PROGRAM_START: u16 = 0x200;
/// The initial stack pointer.
pub const STACK_START: u16 = 4000;
/// Number of words a program may hold: it must fit between its start and the
/// end of memory.
pub const MAX_PROGRAM_WORDS: usize = 1792;

/// The state of the machine.
#[verifier::ext_equal]
pub ghost struct ProcView {
    /// General purpose registers V0 to VF.
    pub regs: Seq<u8>,
    /// The address register I.
    pub i: u16,
    /// The delay timer.
    pub dt: u8,
    /// The sound timer.
    pub st: u16,
    /// The program counter.
    pub pc: u16,
    /// The stack pointer: the stack lives in memory and grows upwards.
    pub sp: u16,
    /// The memory.
    pub memory: Seq<u8>,
    /// The screen, one byte per pixel, row after row.
    pub framebuffer: Seq<u8>,
    /// Which of the sixteen keys were seen pressed and not yet consumed.
    pub keys: Seq<u8>,
    /// A time stamp that the caller may keep with the machine.
    pub timers_last: u32,
}

/// What the caller has to do after an instruction, which only it can do.
#[derive(PartialEq, Eq, Structural, Debug, Clone, Copy)]
pub enum Action {
    /// The instruction is complete.
    Continue,
    /// SKP: read the keys pressed since the last look, then complete the
    /// instruction with `Proc::skip_if_key(x, ..)`.
    SkipIfKey { x: u8 },
    /// SKNP: read the keys pressed since the last look, then complete the
    /// instruction with `Proc::skip_unless_key(x, ..)`.
    SkipUnlessKey { x: u8 },
    /// LD Vx, K: wait for the next key press, then complete the instruction
    /// with `Proc::load_key(x, ..)`.
    WaitKey { x: u8 },
    /// The opcode is not one the machine knows: it stops here.
    Halt { opcode: u16 },
}

/// The big-endian word made of the bytes `hi` and `lo`.
pub open spec fn word(hi: u8, lo: u8) -> u16 {
    (hi as int * 256 + lo as int) as u16
}

/// The register named by the second nibble of an opcode.
pub open spec fn op_x(op: u16) -> u16 {
    (op >> 8u16) & 0xFu16
}

/// The register named by the third nibble of an opcode.
pub open spec fn op_y(op: u16) -> u16 {
    (op >> 4u16) & 0xFu16
}

/// The last nibble of an opcode.
pub open spec fn op_n(op: u16) -> u16 {
    op & 0xFu16
}

/// The last byte of an opcode.
pub open spec fn op_kk(op: u16) -> u16 {
    op & 0xFFu16
}

/// The address in the last three nibbles of an opcode.
pub open spec fn op_nnn(op: u16) -> u16 {
    op & 0xFFFu16
}

/// The instruction family: the first nibble of an opcode, in place.
pub open spec fn op_family(op: u16) -> u16 {
    op & 0xF000u16
}

/// The screen position of bit `c` of row `r` of a sprite drawn at
/// (`vx`, `vy`): pixels are numbered row after row, 64 to a row.
pub open spec fn sprite_pixel(vx: int, vy: int, r: int, c: int) -> int {
    vx + c + (vy + r) * 64
}

/// Whether bit `col` of a sprite row is set, counting from the left.
pub open spec fn sprite_bit(row: u8, col: int) -> bool {
    row & (0x80u8 >> (col as u8)) != 0u8
}

/// Whether pixel `p` of the screen lies under a set bit of the sprite of
/// `h` rows read from `memory` at `i` and drawn at (`vx`, `vy`). Sprites do
/// not wrap around: a pixel right of the last column is the start of the next
/// row, and a pixel below the last row is off the screen.
pub open spec fn covers(memory: Seq<u8>, i: u16, vx: u8, vy: u8, h: int, p: int) -> bool {
    let d = p - vx - vy * 64;
    let row = d / 64;
    let col = d % 64;
    &&& 0 <= d
    &&& row < h
    &&& col < 8
    &&& sprite_bit(memory[i + row], col)
}

/// Each byte of a program goes where `load_program` puts it: the font at
/// `FONT_START`, the words of the program from `PROGRAM_START` on, high
/// byte first; the rest of memory is left as it was.
pub open spec fn loaded_memory(memory: Seq<u8>, prog: Seq<u16>) -> Seq<u8> {
    Seq::new(
        memory.len(),
        |a: int|
            if FONT_START <= a < FONT_START + 80 {
                font_spec()[a - FONT_START]
            } else if PROGRAM_START <= a < PROGRAM_START + 2 * prog.len() {
                let w = prog[(a - PROGRAM_START) / 2];
                if (a - PROGRAM_START) % 2 == 0 {
                    (w / 256) as u8
                } else {
                    (w % 256) as u8
                }
            } else {
                memory[a]
            },
    )
}

/// Whether some key press in `pressed` stands for keypad key `k`.
pub open spec fn pressed_key(pressed: Seq<i32>, k: int) -> bool {
    exists|j: int| 0 <= j < pressed.len() && key_of(#[trigger] pressed[j]) == Some(k as u8)
}

/// Whether `pressed` holds no Escape key.
pub open spec fn no_escape(pressed: Seq<i32>) -> bool {
    forall|j: int| 0 <= j < pressed.len() ==> pressed[j] != crate::keypad::KEY_ESCAPE
}

impl ProcView {
    /// The state of a machine that has just been switched on.
    pub open spec fn initial() -> ProcView {
        ProcView {
            regs: Seq::new(16, |j: int| 0u8),
            i: 0,
            dt: 0,
            st: 0,
            pc: PROGRAM_START,
            sp: STACK_START,
            memory: Seq::new(MEMORY_SIZE as nat, |j: int| 0u8),
            framebuffer: Seq::new(FRAMEBUFFER_SIZE as nat, |j: int| 0u8),
            keys: Seq::new(16, |j: int| 0u8),
            timers_last: 0,
        }
    }

    /// The sizes of the machine's parts.
    pub open spec fn wf(self) -> bool {
        &&& self.regs.len() == 16
        &&& self.memory.len() == MEMORY_SIZE
        &&& self.framebuffer.len() == FRAMEBUFFER_SIZE
        &&& self.keys.len() == 16
    }

    /// Every pixel is off (0) or on (1).
    pub open spec fn pixels_binary(self) -> bool {
        forall|p: int| 0 <= p < self.framebuffer.len() ==> #[trigger] self.framebuffer[p] <= 1
    }

    /// Every key is released (0) or pressed (1).
    pub open spec fn keys_binary(self) -> bool {
        forall|k: int| 0 <= k < self.keys.len() ==> #[trigger] self.keys[k] <= 1
    }

    /// The word in memory at address `a`, high byte first.
    pub open spec fn word_at(self, a: int) -> u16 {
        word(self.memory[a], self.memory[a + 1])
    }

    /// The opcode at the program counter.
    pub open spec fn opcode(self) -> u16 {
        self.word_at(self.pc as int)
    }

    /// The state after the opcode has been fetched: the program counter has
    /// moved past it.
    pub open spec fn fetched(self) -> ProcView {
        ProcView { pc: (self.pc + 2) as u16, ..self }
    }

    /// Register `x` set to `v`.
    pub open spec fn set_reg(self, x: int, v: u8) -> ProcView {
        ProcView { regs: self.regs.update(x, v), ..self }
    }

    /// The program counter moved past the next instruction when `cond` holds.
    pub open spec fn skip_if(self, cond: bool) -> ProcView {
        if cond {
            ProcView { pc: (self.pc + 2) as u16, ..self }
        } else {
            self
        }
    }

    /// CLS: every pixel off.
    pub open spec fn clear_screen(self) -> ProcView {
        ProcView { framebuffer: Seq::new(self.framebuffer.len(), |p: int| 0u8), ..self }
    }

    /// RET: the return address is read from the top of the stack, high byte
    /// at `sp` and low byte at `sp - 1`, and the stack shrinks by two bytes.
    pub open spec fn ret(self) -> ProcView {
        ProcView {
            pc: word(self.memory[self.sp as int], self.memory[self.sp - 1]),
            sp: (self.sp - 2) as u16,
            ..self
        }
    }

    /// CALL nnn: the stack grows by two bytes, the return address goes on
    /// top of it (high byte at the new `sp`, low byte just below), and
    /// execution goes on at `nnn`.
    pub open spec fn call(self, nnn: u16) -> ProcView {
        let sp = self.sp + 2;
        ProcView {
            sp: sp as u16,
            memory: self.memory.update(sp, (self.pc / 256) as u8).update(sp - 1, (self.pc % 256) as u8),
            pc: nnn,
            ..self
        }
    }

    /// The arithmetic and logic instructions 8xyn. VF is written before Vx,
    /// and the new value of Vx is computed from the registers as they stand
    /// after VF was written.
    pub open spec fn alu(self, x: int, y: int, n: u16) -> ProcView {
        let vx = self.regs[x] as int;
        let vy = self.regs[y] as int;
        if n == 0 {
            self.set_reg(x, vy as u8)
        } else if n == 1 {
            self.set_reg(x, self.regs[x] | self.regs[y])
        } else if n == 2 {
            self.set_reg(x, self.regs[x] & self.regs[y])
        } else if n == 3 {
            self.set_reg(x, self.regs[x] ^ self.regs[y])
        } else if n == 4 {
            let s1 = self.set_reg(15, if vx + vy > 255 { 1u8 } else { 0u8 });
            s1.set_reg(x, ((vx + vy) % 256) as u8)
        } else if n == 5 {
            let s1 = self.set_reg(15, if vx > vy { 1u8 } else { 0u8 });
            s1.set_reg(x, ((s1.regs[x] - s1.regs[y]) % 256) as u8)
        } else if n == 6 {
            let s1 = self.set_reg(15, (vx % 2) as u8);
            s1.set_reg(x, (s1.regs[x] / 2) as u8)
        } else if n == 7 {
            let s1 = self.set_reg(15, if vy > vx { 1u8 } else { 0u8 });
            s1.set_reg(x, ((s1.regs[y] - s1.regs[x]) % 256) as u8)
        } else if n == 0xE {
            let s1 = self.set_reg(15, (vx / 128) as u8);
            s1.set_reg(x, ((s1.regs[x] * 2) % 256) as u8)
        } else {
            self
        }
    }

    /// Whether drawing the sprite of `h` rows at (Vx, Vy) turns off a pixel
    /// that was on.
    pub open spec fn collides(self, x: int, y: int, h: int) -> bool {
        exists|p: int|
            0 <= p < FRAMEBUFFER_SIZE && #[trigger] covers(self.memory, self.i, self.regs[x], self.regs[y], h, p)
                && self.framebuffer[p] == 1
    }

    /// DRW Vx, Vy, n: the sprite of `n` rows at I is XOR-ed onto the screen
    /// at (Vx, Vy); VF tells whether a pixel that was on went off.
    pub open spec fn draw(self, x: int, y: int, n: int) -> ProcView {
        let vx = self.regs[x];
        let vy = self.regs[y];
        ProcView {
            framebuffer: Seq::new(
                self.framebuffer.len(),
                |p: int|
                    if covers(self.memory, self.i, vx, vy, n, p) {
                        self.framebuffer[p] ^ 1u8
                    } else {
                        self.framebuffer[p]
                    },
            ),
            regs: self.regs.update(15, if self.collides(x, y, n) { 1u8 } else { 0u8 }),
            ..self
        }
    }

    /// The instructions Fxkk.
    pub open spec fn misc(self, x: int, kk: u16) -> ProcView {
        let vx = self.regs[x];
        if kk == 0x07 {
            self.set_reg(x, self.dt)
        } else if kk == 0x15 {
            ProcView { dt: vx, ..self }
        } else if kk == 0x18 {
            ProcView { st: vx as u16, ..self }
        } else if kk == 0x1E {
            ProcView { i: (self.i + vx) as u16, ..self }
        } else if kk == 0x29 {
            ProcView { i: (vx * 5 + FONT_START) as u16, ..self }
        } else if kk == 0x33 {
            ProcView {
                memory: self.memory
                    .update(self.i as int, (vx / 100) as u8)
                    .update(self.i + 1, (vx / 10) as u8)
                    .update(self.i + 2, vx),
                ..self
            }
        } else if kk == 0x55 {
            ProcView {
                memory: Seq::new(
                    self.memory.len(),
                    |a: int| if self.i <= a < self.i + x { self.regs[a - self.i] } else { self.memory[a] },
                ),
                ..self
            }
        } else if kk == 0x65 {
            ProcView {
                regs: Seq::new(
                    self.regs.len(),
                    |j: int| if j < x { self.memory[self.i + j] } else { self.regs[j] },
                ),
                ..self
            }
        } else {
            self
        }
    }

    /// What the instruction `op` does, from a state where it has been
    /// fetched, and what is left for the caller to do.
    pub open spec fn execute(self, op: u16) -> (ProcView, Action) {
        let fam = op_family(op);
        let x = op_x(op) as int;
        let y = op_y(op) as int;
        let kk = op_kk(op);
        let nnn = op_nnn(op);
        if fam == 0x0000 {
            if op == 0x00E0 {
                (self.clear_screen(), Action::Continue)
            } else if op == 0x00EE {
                (self.ret(), Action::Continue)
            } else {
                (self, Action::Halt { opcode: op })
            }
        } else if fam == 0x1000 {
            (ProcView { pc: nnn, ..self }, Action::Continue)
        } else if fam == 0x2000 {
            (self.call(nnn), Action::Continue)
        } else if fam == 0x3000 {
            (self.skip_if(self.regs[x] as u16 == kk), Action::Continue)
        } else if fam == 0x4000 {
            (self.skip_if(self.regs[x] as u16 != kk), Action::Continue)
        } else if fam == 0x5000 {
            (self.skip_if(self.regs[x] == self.regs[y]), Action::Continue)
        } else if fam == 0x6000 {
            (self.set_reg(x, kk as u8), Action::Continue)
        } else if fam == 0x7000 {
            (self.set_reg(x, ((self.regs[x] + kk) % 256) as u8), Action::Continue)
        } else if fam == 0x8000 {
            (self.alu(x, y, op_n(op)), Action::Continue)
        } else if fam == 0x9000 {
            (self.skip_if(self.regs[x] != self.regs[y]), Action::Continue)
        } else if fam == 0xA000 {
            (ProcView { i: nnn, ..self }, Action::Continue)
        } else if fam == 0xB000 {
            (ProcView { pc: (self.i + nnn) as u16, ..self }, Action::Continue)
        } else if fam == 0xC000 {
            (self, Action::Continue)
        } else if fam == 0xD000 {
            (self.draw(x, y, op_n(op) as int), Action::Continue)
        } else if fam == 0xE000 {
            if kk == 0x9E {
                (self, Action::SkipIfKey { x: x as u8 })
            } else if kk == 0xA1 {
                (self, Action::SkipUnlessKey { x: x as u8 })
            } else {
                (self, Action::Continue)
            }
        } else {
            if kk == 0x0A {
                (self, Action::WaitKey { x: x as u8 })
            } else {
                (self.misc(x, kk), Action::Continue)
            }
        }
    }

    /// Whether `op`, once fetched, runs without a fault: every address it
    /// touches lies in memory and no 16-bit register overflows.
    pub open spec fn execute_ok(self, op: u16) -> bool {
        let fam = op_family(op);
        let x = op_x(op) as int;
        let n = op_n(op) as int;
        let kk = op_kk(op);
        if fam == 0x0000 {
            op == 0x00EE ==> 2 <= self.sp < MEMORY_SIZE
        } else if fam == 0x2000 {
            self.sp + 2 < MEMORY_SIZE
        } else if fam == 0xB000 {
            self.i + op_nnn(op) <= u16::MAX
        } else if fam == 0xD000 {
            n == 0 || self.i + n - 1 < MEMORY_SIZE
        } else if fam == 0xF000 {
            if kk == 0x1E {
                self.i + self.regs[x] <= u16::MAX
            } else if kk == 0x29 {
                self.regs[x] * 5 + FONT_START <= u8::MAX
            } else if kk == 0x33 {
                self.i + 2 < MEMORY_SIZE
            } else if kk == 0x55 || kk == 0x65 {
                x == 0 || self.i + x - 1 < MEMORY_SIZE
            } else {
                true
            }
        } else {
            true
        }
    }

    /// Whether the next instruction can be fetched and run without a fault.
    pub open spec fn step_ok(self) -> bool {
        &&& self.pc + 1 < MEMORY_SIZE
        &&& self.fetched().execute_ok(self.opcode())
    }

    /// One step of the machine: fetch the opcode at the program counter and
    /// execute it.
    pub open spec fn step(self) -> (ProcView, Action) {
        self.fetched().execute(self.opcode())
    }

    /// The keys seen in `pressed` marked as pressed; the others as they were.
    pub open spec fn press_keys(self, pressed: Seq<i32>) -> ProcView {
        ProcView {
            keys: Seq::new(
                self.keys.len(),
                |k: int| if pressed_key(pressed, k) { 1u8 } else { self.keys[k] },
            ),
            ..self
        }
    }

    /// Key `x` released.
    pub open spec fn release_key(self, x: int) -> ProcView {
        ProcView { keys: self.keys.update(x, 0u8), ..self }
    }

    /// SKP, completed with the key presses read: when key `x` is pressed,
    /// the next instruction is skipped and the press is consumed.
    pub open spec fn skip_if_key(self, x: int, pressed: Seq<i32>) -> ProcView {
        let s1 = self.press_keys(pressed);
        if s1.keys[x] == 1 {
            s1.skip_if(true).release_key(x)
        } else {
            s1
        }
    }

    /// SKNP, completed with the key presses read: when key `x` is not
    /// pressed the next instruction is skipped; either way the press is
    /// consumed.
    pub open spec fn skip_unless_key(self, x: int, pressed: Seq<i32>) -> ProcView {
        let s1 = self.press_keys(pressed);
        s1.skip_if(s1.keys[x] != 1).release_key(x)
    }

    /// LD Vx, K, completed with the key press that came: Vx holds the keypad
    /// key that `sym` stands for; a key outside the keypad leaves Vx as it was.
    pub open spec fn load_key(self, x: int, sym: i32) -> ProcView {
        match key_of(sym) {
            Some(k) => self.set_reg(x, k),
            None => self,
        }
    }

    /// Both timers one tick further: each goes down by one until it is zero.
    pub open spec fn tick_timers(self) -> ProcView {
        ProcView {
            dt: if self.dt > 0 { (self.dt - 1) as u8 } else { 0u8 },
            st: if self.st > 0 { (self.st - 1) as u16 } else { 0u16 },
            ..self
        }
    }
}

} // verus!
