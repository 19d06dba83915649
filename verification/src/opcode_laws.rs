//! What each instruction does, stated directly in terms of the opcode's bits
//! and the machine state before it, for the step that `Proc::run` takes.
use vstd::prelude::*;
use crate::emulator::{lemma_sprite_position, lemma_sprite_row_col};
use crate::machine::{sprite_pixel, Action, ProcView, FRAMEBUFFER_SIZE, MEMORY_SIZE};

verus! {

/// The fields of an opcode are in range.
proof fn lemma_fields(op: u16)
    ensures
        (op >> 8u16) & 0xFu16 < 16,
        (op >> 4u16) & 0xFu16 < 16,
        op & 0xFu16 < 16,
        op & 0xFFu16 < 256,
        op & 0xFFFu16 < 4096,
{
    assert((op >> 8u16) & 0xFu16 < 16) by (bit_vector);
    assert((op >> 4u16) & 0xFu16 < 16) by (bit_vector);
    assert(op & 0xFu16 < 16) by (bit_vector);
    assert(op & 0xFFu16 < 256) by (bit_vector);
    assert(op & 0xFFFu16 < 4096) by (bit_vector);
}

/// A step reads the opcode at the program counter, high byte first, moves
/// the program counter past it, and executes it.
pub proof fn lemma_step_fetches(s: ProcView)
    requires
        s.wf(),
        s.pc + 1 < MEMORY_SIZE,
    ensures
        s.opcode() == s.memory[s.pc as int] * 256 + s.memory[s.pc + 1],
        s.fetched() == (ProcView { pc: (s.pc + 2) as u16, ..s }),
        s.step() == (ProcView { pc: (s.pc + 2) as u16, ..s }).execute(
            (s.memory[s.pc as int] * 256 + s.memory[s.pc + 1]) as u16,
        ),
{
}

/// CLS turns every pixel off and changes nothing else.
pub proof fn lemma_clear_screen(s: ProcView)
    requires
        s.wf(),
    ensures
        s.execute(0x00E0).1 == Action::Continue,
        forall|p: int| 0 <= p < FRAMEBUFFER_SIZE ==> #[trigger] s.execute(0x00E0).0.framebuffer[p] == 0,
        s.execute(0x00E0).0.framebuffer.len() == FRAMEBUFFER_SIZE,
        s.execute(0x00E0).0 == (ProcView { framebuffer: s.execute(0x00E0).0.framebuffer, ..s }),
{
    assert(0x00E0u16 & 0xF000u16 == 0u16) by (bit_vector);
}

/// RET takes the return address from the top of the stack (high byte at
/// `sp`, low byte at `sp - 1`) and drops two bytes of stack.
pub proof fn lemma_return(s: ProcView)
    requires
        s.wf(),
    ensures
        s.execute(0x00EE).1 == Action::Continue,
        s.execute(0x00EE).0 == (ProcView {
            pc: (s.memory[s.sp as int] * 256 + s.memory[s.sp - 1]) as u16,
            sp: (s.sp - 2) as u16,
            ..s
        }),
{
    assert(0x00EEu16 & 0xF000u16 == 0u16) by (bit_vector);
}

/// CALL nnn pushes the address of the next instruction (high byte at
/// `sp + 2`, low byte at `sp + 1`), grows the stack by two and jumps to nnn.
pub proof fn lemma_call(s: ProcView, op: u16)
    requires
        s.wf(),
        op & 0xF000u16 == 0x2000u16,
        s.sp + 2 < MEMORY_SIZE,
    ensures
        s.execute(op).1 == Action::Continue,
        s.execute(op).0.pc == op & 0xFFFu16,
        s.execute(op).0.sp == s.sp + 2,
        s.execute(op).0.memory[s.sp + 2] == s.pc / 256,
        s.execute(op).0.memory[s.sp + 1] == s.pc % 256,
        forall|a: int| 0 <= a < MEMORY_SIZE && a != s.sp + 1 && a != s.sp + 2
            ==> #[trigger] s.execute(op).0.memory[a] == s.memory[a],
        s.execute(op).0.regs == s.regs,
        s.execute(op).0.framebuffer == s.framebuffer,
{
}

/// An opcode 0nnn other than CLS and RET halts the machine and changes
/// nothing.
pub proof fn lemma_unknown_halts(s: ProcView, op: u16)
    requires
        op & 0xF000u16 == 0u16,
        op != 0x00E0,
        op != 0x00EE,
    ensures
        s.execute(op) == (s, Action::Halt { opcode: op }),
{
}

/// JP nnn jumps to nnn; JP with offset jumps to I + nnn; LD I, nnn sets I.
pub proof fn lemma_jumps_and_load_i(s: ProcView, op: u16)
    requires
        s.wf(),
    ensures
        op & 0xF000u16 == 0x1000u16 ==> s.execute(op) == (ProcView { pc: op & 0xFFFu16, ..s }, Action::Continue),
        op & 0xF000u16 == 0xB000u16 ==> s.execute(op) == (ProcView { pc: (s.i + (op & 0xFFFu16)) as u16, ..s }, Action::Continue),
        op & 0xF000u16 == 0xA000u16 ==> s.execute(op) == (ProcView { i: op & 0xFFFu16, ..s }, Action::Continue),
        op & 0xF000u16 == 0xC000u16 ==> s.execute(op) == (s, Action::Continue),
{
}

/// The conditional skips: SE Vx, kk and SNE Vx, kk compare Vx with the
/// opcode's low byte; SE Vx, Vy and SNE Vx, Vy compare two registers. A skip
/// moves the program counter past one more instruction; nothing else changes.
pub proof fn lemma_skips(s: ProcView, op: u16)
    requires
        s.wf(),
        s.pc + 2 <= u16::MAX,
    ensures
        ({
            let x = ((op >> 8u16) & 0xFu16) as int;
            let y = ((op >> 4u16) & 0xFu16) as int;
            let kk = op & 0xFFu16;
            let skipped = ProcView { pc: (s.pc + 2) as u16, ..s };
            &&& op & 0xF000u16 == 0x3000u16 ==> s.execute(op)
                == (if s.regs[x] == kk { skipped } else { s }, Action::Continue)
            &&& op & 0xF000u16 == 0x4000u16 ==> s.execute(op)
                == (if s.regs[x] != kk { skipped } else { s }, Action::Continue)
            &&& op & 0xF000u16 == 0x5000u16 ==> s.execute(op)
                == (if s.regs[x] == s.regs[y] { skipped } else { s }, Action::Continue)
            &&& op & 0xF000u16 == 0x9000u16 ==> s.execute(op)
                == (if s.regs[x] != s.regs[y] { skipped } else { s }, Action::Continue)
        }),
{
    lemma_fields(op);
}

/// LD Vx, kk puts the opcode's low byte in Vx; ADD Vx, kk adds it modulo
/// 256 and leaves VF alone (unless VF is Vx).
pub proof fn lemma_load_add_byte(s: ProcView, op: u16)
    requires
        s.wf(),
    ensures
        ({
            let x = ((op >> 8u16) & 0xFu16) as int;
            let kk = op & 0xFFu16;
            &&& op & 0xF000u16 == 0x6000u16 ==> s.execute(op)
                == (ProcView { regs: s.regs.update(x, kk as u8), ..s }, Action::Continue)
            &&& op & 0xF000u16 == 0x7000u16 ==> s.execute(op)
                == (ProcView { regs: s.regs.update(x, ((s.regs[x] + kk) % 256) as u8), ..s }, Action::Continue)
        }),
{
    lemma_fields(op);
}

/// The arithmetic and logic instructions 8xyn, for Vx and Vy other than VF:
/// the value left in Vx and the flag left in VF; the other registers and the
/// rest of the machine are unchanged.
pub proof fn lemma_alu(s: ProcView, op: u16)
    requires
        s.wf(),
        op & 0xF000u16 == 0x8000u16,
        (op >> 8u16) & 0xFu16 != 15,
        (op >> 4u16) & 0xFu16 != 15,
    ensures
        ({
            let x = ((op >> 8u16) & 0xFu16) as int;
            let y = ((op >> 4u16) & 0xFu16) as int;
            let n = op & 0xFu16;
            let vx = s.regs[x] as int;
            let vy = s.regs[y] as int;
            let t = s.execute(op).0;
            &&& s.execute(op).1 == Action::Continue
            &&& t == (ProcView { regs: t.regs, ..s })
            &&& t.regs.len() == 16
            &&& forall|j: int| 0 <= j < 16 && j != x && j != 15 ==> #[trigger] t.regs[j] == s.regs[j]
            &&& n == 0 ==> t.regs[x] == vy && t.regs[15] == s.regs[15]
            &&& n == 1 ==> t.regs[x] == s.regs[x] | s.regs[y] && t.regs[15] == s.regs[15]
            &&& n == 2 ==> t.regs[x] == s.regs[x] & s.regs[y] && t.regs[15] == s.regs[15]
            &&& n == 3 ==> t.regs[x] == s.regs[x] ^ s.regs[y] && t.regs[15] == s.regs[15]
            &&& n == 4 ==> t.regs[x] == (vx + vy) % 256 && t.regs[15] == (if vx + vy > 255 { 1int } else { 0 })
            &&& n == 5 ==> t.regs[x] == (vx + 256 - vy) % 256 && t.regs[15] == (if vx > vy { 1int } else { 0 })
            &&& n == 6 ==> t.regs[x] == vx / 2 && t.regs[15] == vx % 2
            &&& n == 7 ==> t.regs[x] == (vy + 256 - vx) % 256 && t.regs[15] == (if vy > vx { 1int } else { 0 })
            &&& n == 0xE ==> t.regs[x] == (vx * 2) % 256 && t.regs[15] == vx / 128
            &&& (n == 8 || n == 9 || n == 0xA || n == 0xB || n == 0xC || n == 0xD || n == 0xF) ==> t == s
        }),
{
    lemma_fields(op);
    let vx = s.regs[((op >> 8u16) & 0xFu16) as int] as int;
    let vy = s.regs[((op >> 4u16) & 0xFu16) as int] as int;
    if vx >= vy {
        vstd::arithmetic::div_mod::lemma_fundamental_div_mod_converse(vx + 256 - vy, 256, 1, vx - vy);
        vstd::arithmetic::div_mod::lemma_fundamental_div_mod_converse(vx - vy, 256, 0, vx - vy);
    } else {
        vstd::arithmetic::div_mod::lemma_fundamental_div_mod_converse(vx + 256 - vy, 256, 0, vx + 256 - vy);
        vstd::arithmetic::div_mod::lemma_fundamental_div_mod_converse(vx - vy, 256, -1, vx + 256 - vy);
    }
    if vy >= vx {
        vstd::arithmetic::div_mod::lemma_fundamental_div_mod_converse(vy + 256 - vx, 256, 1, vy - vx);
        vstd::arithmetic::div_mod::lemma_fundamental_div_mod_converse(vy - vx, 256, 0, vy - vx);
    } else {
        vstd::arithmetic::div_mod::lemma_fundamental_div_mod_converse(vy + 256 - vx, 256, 0, vy + 256 - vx);
        vstd::arithmetic::div_mod::lemma_fundamental_div_mod_converse(vy - vx, 256, -1, vy + 256 - vx);
    }
}


/// Subtraction modulo 256 of two bytes.
proof fn lemma_sub_mod(a: int, b: int)
    requires
        0 <= a < 256,
        0 <= b < 256,
    ensures
        (a - b) % 256 == (a + 256 - b) % 256,
        0 <= (a + 256 - b) % 256 < 256,
        a >= b ==> (a + 256 - b) % 256 == a - b,
        a < b ==> (a + 256 - b) % 256 == a + 256 - b,
{
    if a >= b {
        vstd::arithmetic::div_mod::lemma_fundamental_div_mod_converse(a + 256 - b, 256, 1, a - b);
        vstd::arithmetic::div_mod::lemma_fundamental_div_mod_converse(a - b, 256, 0, a - b);
    } else {
        vstd::arithmetic::div_mod::lemma_fundamental_div_mod_converse(a + 256 - b, 256, 0, a + 256 - b);
        vstd::arithmetic::div_mod::lemma_fundamental_div_mod_converse(a - b, 256, -1, a + 256 - b);
    }
}

/// The 8xyn instructions that name VF: VF is written with the flag first,
/// and Vx is then computed from the registers as they stand, so with Vx = VF
/// the value survives and the flag is lost, and with Vy = VF the new flag is
/// the one subtracted.
pub proof fn lemma_alu_with_vf(s: ProcView, op: u16)
    requires
        s.wf(),
        op & 0xF000u16 == 0x8000u16,
    ensures
        ({
            let x = ((op >> 8u16) & 0xFu16) as int;
            let y = ((op >> 4u16) & 0xFu16) as int;
            let n = op & 0xFu16;
            let vx = s.regs[x] as int;
            let vy = s.regs[y] as int;
            let t = s.execute(op).0;
            &&& forall|j: int| 0 <= j < 16 && j != x && j != 15 ==> #[trigger] t.regs[j] == s.regs[j]
            &&& x == 15 && y != 15 && n == 4 ==> t.regs[15] == (vx + vy) % 256
            &&& x == 15 && y != 15 && n == 5 ==> t.regs[15] == ((if vx > vy { 1int } else { 0 }) + 256 - vy) % 256
            &&& x == 15 && n == 6 ==> t.regs[15] == 0
            &&& x == 15 && y != 15 && n == 7 ==> t.regs[15] == (vy + 256 - (if vy > vx { 1int } else { 0 })) % 256
            &&& x == 15 && n == 0xE ==> t.regs[15] == (vx / 128) * 2
            &&& x != 15 && y == 15 && n == 5 ==> t.regs[15] == (if vx > vy { 1int } else { 0 })
                && t.regs[x] == (vx + 256 - t.regs[15]) % 256
            &&& x != 15 && y == 15 && n == 7 ==> t.regs[15] == (if vy > vx { 1int } else { 0 })
                && t.regs[x] == (t.regs[15] + 256 - vx) % 256
        }),
{
    lemma_fields(op);
    let x = ((op >> 8u16) & 0xFu16) as int;
    let y = ((op >> 4u16) & 0xFu16) as int;
    let vx = s.regs[x] as int;
    let vy = s.regs[y] as int;
    let fxy: int = if vx > vy { 1 } else { 0 };
    let fyx: int = if vy > vx { 1 } else { 0 };
    lemma_sub_mod(fxy, vy);
    lemma_sub_mod(vy, fyx);
    lemma_sub_mod(vx, fxy);
    lemma_sub_mod(fyx, vx);
    assert(((vx / 128) * 2) % 256 == (vx / 128) * 2);
}

/// DRW Vx, Vy, n: each set bit `c` of sprite row `r` (read from memory at
/// I + r) flips the pixel it lands on, and when that pixel was lit VF is 1.
pub proof fn lemma_draw_flips_and_reports(s: ProcView, op: u16, r: int, c: int)
    requires
        s.wf(),
        op & 0xF000u16 == 0xD000u16,
        0 <= r < (op & 0xFu16),
        0 <= c < 8,
        s.memory[s.i + r] & (0x80u8 >> (c as u8)) != 0u8,
        0 <= sprite_pixel(
            s.regs[((op >> 8u16) & 0xFu16) as int] as int,
            s.regs[((op >> 4u16) & 0xFu16) as int] as int,
            r,
            c,
        ) < FRAMEBUFFER_SIZE,
    ensures
        ({
            let p = sprite_pixel(
                s.regs[((op >> 8u16) & 0xFu16) as int] as int,
                s.regs[((op >> 4u16) & 0xFu16) as int] as int,
                r,
                c,
            );
            &&& s.execute(op).0.framebuffer[p] == s.framebuffer[p] ^ 1u8
            &&& s.framebuffer[p] == 1 ==> s.execute(op).0.regs[15] == 1
        }),
{
    lemma_fields(op);
    let x = ((op >> 8u16) & 0xFu16) as int;
    let y = ((op >> 4u16) & 0xFu16) as int;
    let vx = s.regs[x] as int;
    let vy = s.regs[y] as int;
    let p = sprite_pixel(vx, vy, r, c);
    lemma_sprite_position(p, vx, vy, r, c);
    let h = (op & 0xFu16) as int;
    assert(crate::machine::covers(s.memory, s.i, s.regs[x], s.regs[y], h, p));
    if s.framebuffer[p] == 1 {
        assert(s.collides(x, y, h));
    }
}

/// DRW Vx, Vy, n: VF is 1 only when some set bit of a sprite row landed on a
/// lit pixel, and a pixel changes only when some set bit lands on it; the rest
/// of the machine is unchanged.
pub proof fn lemma_draw_only_under_sprite(s: ProcView, op: u16)
    requires
        s.wf(),
        op & 0xF000u16 == 0xD000u16,
    ensures
        ({
            let vx = s.regs[((op >> 8u16) & 0xFu16) as int] as int;
            let vy = s.regs[((op >> 4u16) & 0xFu16) as int] as int;
            let h = (op & 0xFu16) as int;
            let t = s.execute(op).0;
            &&& s.execute(op).1 == Action::Continue
            &&& t == (ProcView { framebuffer: t.framebuffer, regs: t.regs, ..s })
            &&& t.framebuffer.len() == FRAMEBUFFER_SIZE
            &&& t.regs == s.regs.update(15, t.regs[15])
            &&& (t.regs[15] == 0 || t.regs[15] == 1)
            &&& t.regs[15] == 1 ==> exists|r: int, c: int|
                #![trigger sprite_pixel(vx, vy, r, c)]
                0 <= r < h && 0 <= c < 8 && s.memory[s.i + r] & (0x80u8 >> (c as u8)) != 0u8
                    && 0 <= sprite_pixel(vx, vy, r, c) < FRAMEBUFFER_SIZE
                    && s.framebuffer[sprite_pixel(vx, vy, r, c)] == 1
            &&& forall|p: int| 0 <= p < FRAMEBUFFER_SIZE && #[trigger] t.framebuffer[p] != s.framebuffer[p]
                ==> exists|r: int, c: int|
                #![trigger sprite_pixel(vx, vy, r, c)]
                0 <= r < h && 0 <= c < 8 && s.memory[s.i + r] & (0x80u8 >> (c as u8)) != 0u8
                    && p == sprite_pixel(vx, vy, r, c)
        }),
{
    lemma_fields(op);
    let x = ((op >> 8u16) & 0xFu16) as int;
    let y = ((op >> 4u16) & 0xFu16) as int;
    let vx = s.regs[x] as int;
    let vy = s.regs[y] as int;
    let h = (op & 0xFu16) as int;
    let t = s.execute(op).0;
    assert(t == s.draw(x, y, h));
    if s.collides(x, y, h) {
        let p = choose|p: int| 0 <= p < FRAMEBUFFER_SIZE
            && #[trigger] crate::machine::covers(s.memory, s.i, s.regs[x], s.regs[y], h, p)
            && s.framebuffer[p] == 1;
        let d = p - vx - vy * 64;
        lemma_sprite_row_col(d);
        lemma_sprite_position(p, vx, vy, d / 64, d % 64);
        assert(sprite_pixel(vx, vy, d / 64, d % 64) == p);
    }
    assert forall|p: int| 0 <= p < FRAMEBUFFER_SIZE && #[trigger] t.framebuffer[p] != s.framebuffer[p]
        implies exists|r: int, c: int|
            #![trigger sprite_pixel(vx, vy, r, c)]
            0 <= r < h && 0 <= c < 8 && s.memory[s.i + r] & (0x80u8 >> (c as u8)) != 0u8
                && p == sprite_pixel(vx, vy, r, c) by {
        let d = p - vx - vy * 64;
        lemma_sprite_row_col(d);
        lemma_sprite_position(p, vx, vy, d / 64, d % 64);
        assert(sprite_pixel(vx, vy, d / 64, d % 64) == p);
    }
}

/// The key instructions: SKP and SKNP leave the machine as it is and ask the
/// caller to read the keys; LD Vx, K asks it to wait for a key; other Exkk
/// do nothing.
pub proof fn lemma_key_instructions(s: ProcView, op: u16)
    requires
        s.wf(),
    ensures
        ({
            let x = (op >> 8u16) & 0xFu16;
            let kk = op & 0xFFu16;
            &&& op & 0xF000u16 == 0xE000u16 && kk == 0x9E ==> s.execute(op) == (s, Action::SkipIfKey { x: x as u8 })
            &&& op & 0xF000u16 == 0xE000u16 && kk == 0xA1 ==> s.execute(op) == (s, Action::SkipUnlessKey { x: x as u8 })
            &&& op & 0xF000u16 == 0xE000u16 && kk != 0x9E && kk != 0xA1 ==> s.execute(op) == (s, Action::Continue)
            &&& op & 0xF000u16 == 0xF000u16 && kk == 0x0A ==> s.execute(op) == (s, Action::WaitKey { x: x as u8 })
        }),
{
    lemma_fields(op);
}

/// The timer, index and memory instructions Fxkk.
pub proof fn lemma_misc(s: ProcView, op: u16)
    requires
        s.wf(),
        op & 0xF000u16 == 0xF000u16,
        op & 0xFFu16 == 0x33 ==> s.i + 2 < MEMORY_SIZE,
    ensures
        ({
            let x = ((op >> 8u16) & 0xFu16) as int;
            let kk = op & 0xFFu16;
            let vx = s.regs[x];
            let t = s.execute(op).0;
            &&& kk != 0x0A ==> s.execute(op).1 == Action::Continue
            &&& kk == 0x07 ==> t == (ProcView { regs: s.regs.update(x, s.dt), ..s })
            &&& kk == 0x15 ==> t == (ProcView { dt: vx, ..s })
            &&& kk == 0x18 ==> t == (ProcView { st: vx as u16, ..s })
            &&& kk == 0x1E ==> t == (ProcView { i: (s.i + vx) as u16, ..s })
            &&& kk == 0x29 ==> t == (ProcView { i: (vx * 5 + 0x50) as u16, ..s })
            &&& kk == 0x33 ==> t == (ProcView { memory: t.memory, ..s }) && t.memory.len() == MEMORY_SIZE
                && t.memory[s.i as int] == vx / 100 && t.memory[s.i + 1] == vx / 10 && t.memory[s.i + 2] == vx
                && forall|a: int| 0 <= a < MEMORY_SIZE && (a < s.i || a > s.i + 2) ==> #[trigger] t.memory[a] == s.memory[a]
            &&& kk == 0x55 ==> t == (ProcView { memory: t.memory, ..s }) && t.memory.len() == MEMORY_SIZE
                && forall|a: int| 0 <= a < MEMORY_SIZE ==> #[trigger] t.memory[a]
                    == if s.i <= a < s.i + x { s.regs[a - s.i] } else { s.memory[a] }
            &&& kk == 0x65 ==> t == (ProcView { regs: t.regs, ..s }) && t.regs.len() == 16
                && forall|j: int| 0 <= j < 16 ==> #[trigger] t.regs[j]
                    == if j < x { s.memory[s.i + j] } else { s.regs[j] }
        }),
{
    lemma_fields(op);
}

} // verus!
