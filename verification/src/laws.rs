//! Properties of the machine that span several instructions or calls.
use vstd::prelude::*;
use crate::font::{font_spec, FONT_START};
use crate::keypad::key_of;
use crate::rom::rom_words;
use crate::machine::{
    loaded_memory, op_family, op_kk, op_n, op_x, op_y, ProcView, FRAMEBUFFER_SIZE,
    MAX_PROGRAM_WORDS, MEMORY_SIZE, PROGRAM_START,
};

verus! {

/// XOR-ing a pixel with 1 keeps it a 0 or a 1, and XOR-ing twice gives it
/// back.
proof fn lemma_xor_one(b: u8)
    ensures
        b <= 1 ==> (b ^ 1u8) <= 1,
        (b ^ 1u8) ^ 1u8 == b,
{
    assert(b <= 1 ==> (b ^ 1u8) <= 1) by (bit_vector);
    assert((b ^ 1u8) ^ 1u8 == b) by (bit_vector);
}

/// Every instruction leaves each pixel off (0) or on (1) when it found it
/// so: the screen is only ever cleared or XOR-ed with 1.
pub proof fn lemma_execute_keeps_pixels_binary(s: ProcView, op: u16)
    requires
        s.wf(),
        s.pixels_binary(),
    ensures
        s.execute(op).0.pixels_binary(),
        s.step().0.pixels_binary(),
{
    assert forall|b: u8| b <= 1 implies (b ^ 1u8) <= 1 by {
        lemma_xor_one(b);
    }
}

/// Reading the keyboard, and completing the key instructions, leave each key
/// released (0) or pressed (1) when they found it so.
pub proof fn lemma_keys_stay_binary(s: ProcView, x: int, pressed: Seq<i32>, op: u16)
    requires
        s.wf(),
        s.keys_binary(),
        0 <= x < 16,
    ensures
        s.press_keys(pressed).keys_binary(),
        s.skip_if_key(x, pressed).keys_binary(),
        s.skip_unless_key(x, pressed).keys_binary(),
        s.execute(op).0.keys_binary(),
{
}

/// The machine just switched on has every pixel off and every key released.
pub proof fn lemma_initial_binary()
    ensures
        ProcView::initial().wf(),
        ProcView::initial().pixels_binary(),
        ProcView::initial().keys_binary(),
{
}

/// Drawing the same sprite twice at the same place gives the screen back as
/// it was, when neither coordinate is held in VF (which the first drawing
/// overwrites).
pub proof fn lemma_draw_twice_restores(s: ProcView, op: u16)
    requires
        s.wf(),
        op_family(op) == 0xD000,
        op_x(op) != 15,
        op_y(op) != 15,
    ensures
        s.execute(op).0.execute(op).0.framebuffer == s.framebuffer,
{
    let x = op_x(op) as int;
    let y = op_y(op) as int;
    let n = op_n(op) as int;
    assert((op >> 8u16) & 0xFu16 < 16) by (bit_vector);
    assert((op >> 4u16) & 0xFu16 < 16) by (bit_vector);
    let t = s.execute(op).0;
    assert(t == s.draw(x, y, n));
    assert(t.regs[x] == s.regs[x]);
    assert(t.regs[y] == s.regs[y]);
    let u = t.execute(op).0;
    assert(u == t.draw(x, y, n));
    assert forall|p: int| 0 <= p < FRAMEBUFFER_SIZE implies #[trigger] u.framebuffer[p] == s.framebuffer[p] by {
        lemma_xor_one(s.framebuffer[p]);
    }
    assert(u.framebuffer =~= s.framebuffer);
}

/// A subroutine call followed by a return comes back to where the call was
/// made from, with the stack as it was.
pub proof fn lemma_call_then_return(s: ProcView, op: u16)
    requires
        s.wf(),
        op_family(op) == 0x2000,
        s.sp + 2 < MEMORY_SIZE,
    ensures
        s.execute(op).0.execute(0x00EE).0.pc == s.pc,
        s.execute(op).0.execute(0x00EE).0.sp == s.sp,
        s.execute(op).0.execute(0x00EE).1 == crate::machine::Action::Continue,
{
    assert(0x00EEu16 & 0xF000u16 == 0u16) by (bit_vector);
    let t = s.execute(op).0;
    assert(t == s.call(crate::machine::op_nnn(op)));
    assert(t.memory[t.sp as int] == (s.pc / 256) as u8);
    assert(t.memory[t.sp - 1] == (s.pc % 256) as u8);
    vstd::arithmetic::div_mod::lemma_fundamental_div_mod(s.pc as int, 256);
}

/// After `load_program`, fetching at the address of word `k` of the program
/// gives word `k` back.
pub proof fn lemma_fetch_after_load(s: ProcView, prog: Seq<u16>, k: int)
    requires
        s.wf(),
        prog.len() <= MAX_PROGRAM_WORDS,
        0 <= k < prog.len(),
    ensures
        (ProcView { memory: loaded_memory(s.memory, prog), ..s }).word_at(PROGRAM_START + 2 * k) == prog[k],
{
    let t = ProcView { memory: loaded_memory(s.memory, prog), ..s };
    vstd::arithmetic::div_mod::lemma_fundamental_div_mod_converse(2 * k, 2, k, 0);
    vstd::arithmetic::div_mod::lemma_fundamental_div_mod_converse(2 * k + 1, 2, k, 1);
    let w = prog[k];
    assert(t.memory[PROGRAM_START + 2 * k] == (w / 256) as u8);
    assert(t.memory[PROGRAM_START + 2 * k + 1] == (w % 256) as u8);
    vstd::arithmetic::div_mod::lemma_fundamental_div_mod(w as int, 256);
}

/// After `load_program`, LD F, Vx with a digit `d` in Vx points I at the
/// five bytes of the glyph of `d`.
pub proof fn lemma_font_digit_after_load(s: ProcView, prog: Seq<u16>, op: u16, j: int)
    requires
        s.wf(),
        prog.len() <= MAX_PROGRAM_WORDS,
        op_family(op) == 0xF000,
        op_kk(op) == 0x29,
        s.regs[op_x(op) as int] < 16,
        0 <= j < 5,
    ensures
        ({
            let t = ProcView { memory: loaded_memory(s.memory, prog), ..s };
            let u = t.execute(op).0;
            let d = s.regs[op_x(op) as int] as int;
            &&& u.i == FONT_START + 5 * d
            &&& u.memory[u.i + j] == font_spec()[5 * d + j]
        }),
{
    assert((op >> 8u16) & 0xFu16 < 16) by (bit_vector);
    assert(op & 0xFFu16 == 0x29u16 ==> op & 0xFFu16 != 0x0Au16) by (bit_vector);
}

/// ADD Vx, Vy keeps the whole sum: the carry in VF and the low byte in Vx,
/// when Vx is not VF itself.
pub proof fn lemma_add_with_carry(s: ProcView, op: u16)
    requires
        s.wf(),
        op_family(op) == 0x8000,
        op_n(op) == 4,
        op_x(op) != 15,
    ensures
        ({
            let u = s.execute(op).0;
            u.regs[15] * 256 + u.regs[op_x(op) as int] == s.regs[op_x(op) as int] + s.regs[op_y(op) as int]
        }),
{
    assert((op >> 8u16) & 0xFu16 < 16) by (bit_vector);
    assert((op >> 4u16) & 0xFu16 < 16) by (bit_vector);
}


/// `load_program` puts word `k` of the program at `PROGRAM_START + 2 * k`,
/// high byte first, the font at `FONT_START`, and leaves the rest of memory
/// as it was.
pub proof fn lemma_load_program_layout(s: ProcView, prog: Seq<u16>)
    requires
        s.wf(),
        prog.len() <= MAX_PROGRAM_WORDS,
    ensures
        ({
            let m = loaded_memory(s.memory, prog);
            &&& m.len() == MEMORY_SIZE
            &&& forall|k: int| 0 <= k < prog.len() ==>
                #[trigger] m[PROGRAM_START + 2 * k] * 256 + m[PROGRAM_START + 2 * k + 1] == prog[k]
            &&& forall|j: int| 0 <= j < 80 ==> #[trigger] m[FONT_START + j] == font_spec()[j]
            &&& forall|a: int| 0 <= a < MEMORY_SIZE && !(FONT_START <= a < FONT_START + 80)
                && !(PROGRAM_START <= a < PROGRAM_START + 2 * prog.len()) ==> #[trigger] m[a] == s.memory[a]
        }),
{
    let m = loaded_memory(s.memory, prog);
    assert forall|k: int| 0 <= k < prog.len() implies
        #[trigger] m[PROGRAM_START + 2 * k] * 256 + m[PROGRAM_START + 2 * k + 1] == prog[k] by {
        lemma_fetch_after_load(s, prog, k);
    }
}

/// Reading the keyboard marks as pressed exactly the keys that some key
/// press of the batch stands for, and leaves every other key as it was: a
/// press seen earlier stays until an instruction consumes it.
pub proof fn lemma_press_keys(s: ProcView, pressed: Seq<i32>)
    requires
        s.wf(),
    ensures
        ({
            let t = s.press_keys(pressed);
            &&& t == (ProcView { keys: t.keys, ..s })
            &&& t.keys.len() == 16
            &&& forall|k: int, j: int| 0 <= k < 16 && 0 <= j < pressed.len()
                && key_of(#[trigger] pressed[j]) == Some(k as u8) ==> #[trigger] t.keys[k] == 1
            &&& forall|k: int| 0 <= k < 16 && (forall|j: int| 0 <= j < pressed.len() ==> key_of(#[trigger] pressed[j]) != Some(k as u8))
                ==> #[trigger] t.keys[k] == s.keys[k]
        }),
{
}

/// Two readings of the keyboard keep the presses of both.
pub proof fn lemma_press_keys_twice(s: ProcView, a: Seq<i32>, b: Seq<i32>, k: int, j: int)
    requires
        s.wf(),
        0 <= k < 16,
        0 <= j < a.len(),
        key_of(a[j]) == Some(k as u8),
    ensures
        s.press_keys(a).press_keys(b).keys[k] == 1,
{
}

/// Completing SKP Vx: the key counts as pressed when it was marked before
/// or some press of the batch stands for it; then the next instruction is
/// skipped and the press consumed. Otherwise only the batch is recorded.
pub proof fn lemma_skip_if_key(s: ProcView, x: int, pressed: Seq<i32>)
    requires
        s.wf(),
        0 <= x < 16,
        s.keys_binary(),
    ensures
        ({
            let down = s.keys[x] == 1 || exists|j: int| 0 <= j < pressed.len() && key_of(#[trigger] pressed[j]) == Some(x as u8);
            let t = s.skip_if_key(x, pressed);
            &&& t.pc == if down { (s.pc + 2) as u16 } else { s.pc }
            &&& t.keys[x] == 0
            &&& forall|k: int| 0 <= k < 16 && k != x ==> #[trigger] t.keys[k] == s.press_keys(pressed).keys[k]
            &&& t == (ProcView { pc: t.pc, keys: t.keys, ..s })
        }),
{
}

/// Completing SKNP Vx: the next instruction is skipped when the key counts
/// as not pressed; either way the press is consumed.
pub proof fn lemma_skip_unless_key(s: ProcView, x: int, pressed: Seq<i32>)
    requires
        s.wf(),
        0 <= x < 16,
    ensures
        ({
            let down = s.keys[x] == 1 || exists|j: int| 0 <= j < pressed.len() && key_of(#[trigger] pressed[j]) == Some(x as u8);
            let t = s.skip_unless_key(x, pressed);
            &&& t.pc == if down { s.pc } else { (s.pc + 2) as u16 }
            &&& t.keys[x] == 0
            &&& forall|k: int| 0 <= k < 16 && k != x ==> #[trigger] t.keys[k] == s.press_keys(pressed).keys[k]
            &&& t == (ProcView { pc: t.pc, keys: t.keys, ..s })
        }),
{
}

/// Completing LD Vx, K: Vx gets the keypad key of the press, when the key
/// is on the keypad.
pub proof fn lemma_load_key(s: ProcView, x: int, sym: i32)
    requires
        s.wf(),
        0 <= x < 16,
    ensures
        key_of(sym) matches Some(k) ==> s.load_key(x, sym) == (ProcView { regs: s.regs.update(x, k), ..s }),
        key_of(sym) is None ==> s.load_key(x, sym) == s,
{
}

/// One tick: each timer goes down by one on its own, stopping at zero;
/// nothing else changes.
pub proof fn lemma_tick_timers(s: ProcView)
    ensures
        s.tick_timers().dt == if s.dt > 0 { s.dt - 1 } else { 0 },
        s.tick_timers().st == if s.st > 0 { s.st - 1 } else { 0 },
        s.tick_timers() == (ProcView { dt: s.tick_timers().dt, st: s.tick_timers().st, ..s }),
{
}

/// The machine after `n` ticks of the timers.
pub open spec fn ticked(s: ProcView, n: nat) -> ProcView
    decreases n,
{
    if n == 0 {
        s
    } else {
        ticked(s, (n - 1) as nat).tick_timers()
    }
}

/// After `n` ticks each timer has gone down by `n`, stopping at zero, each
/// on its own.
pub proof fn lemma_ticks(s: ProcView, n: nat)
    ensures
        ticked(s, n).dt == if s.dt >= n { s.dt - n } else { 0 },
        ticked(s, n).st == if s.st >= n { s.st - n } else { 0 },
    decreases n,
{
    if n > 0 {
        lemma_ticks(s, (n - 1) as nat);
    }
}

/// A ROM image of `b` bytes holds `b / 2` words, word `k` made of bytes
/// `2k` (high) and `2k + 1` (low).
pub proof fn lemma_rom_words(bytes: Seq<u8>)
    ensures
        rom_words(bytes).len() == bytes.len() / 2,
        forall|k: int| 0 <= k < bytes.len() / 2 ==> #[trigger] rom_words(bytes)[k] == bytes[2 * k] * 256 + bytes[2 * k + 1],
{
}

} // verus!
