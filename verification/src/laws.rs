//! Laws of the instruction set, proved against the model.
//!
//! Each proof function states a property that holds of every machine state
//! the contracts in [`crate::emu`] can produce, phrased over [`spec_execute`]
//! and [`spec_step`] — the same spec functions those contracts use.

use vstd::prelude::*;

verus! {

use crate::STACK_SIZE;
use crate::model::{State, Fault, spec_execute, spec_step, spec_tick_timers, fetch_ok, fetched_op,
    op_load_imm, op_add_imm, op_call, op_skip_eq_imm, op_skip_neq_imm, op_skip_eq_reg};

/// Loading an immediate always succeeds and leaves exactly that immediate
/// in the target register.
pub proof fn lemma_load_imm(s: State, x: u16, nn: u8)
    requires
        s.wf(),
        x < 16,
    ensures
        spec_execute(s, op_load_imm(x, nn)) is Ok,
        spec_execute(s, op_load_imm(x, nn))->Ok_0.v_reg[x as int] == nn,
{
    let op = op_load_imm(x, nn);
    assert(op != 0x0000 && op != 0x00E0 && op != 0x00EE && op >> 12 == 6 && (op >> 8) & 0xF == x
        && (op & 0x00FF) as u8 == nn) by (bit_vector)
        requires
            op == 0x6000u16 | (x << 8) | (nn as u16),
            x < 16,
    ;
}

/// Immediate addition wraps modulo 256: two additions in a row always
/// succeed and leave the sum of both immediates and the old register value,
/// reduced modulo 256. In particular, from a cleared register the result is
/// `(nn1 + nn2) % 256`.
pub proof fn lemma_add_imm_twice(s: State, x: u16, nn1: u8, nn2: u8)
    requires
        s.wf(),
        x < 16,
    ensures
        spec_execute(s, op_add_imm(x, nn1)) is Ok,
        spec_execute(spec_execute(s, op_add_imm(x, nn1))->Ok_0, op_add_imm(x, nn2)) is Ok,
        spec_execute(spec_execute(s, op_add_imm(x, nn1))->Ok_0, op_add_imm(x, nn2))->Ok_0
            .v_reg[x as int] == (s.v_reg[x as int] + nn1 + nn2) % 256,
        s.v_reg[x as int] == 0 ==> spec_execute(
            spec_execute(s, op_add_imm(x, nn1))->Ok_0,
            op_add_imm(x, nn2),
        )->Ok_0.v_reg[x as int] == (nn1 + nn2) % 256,
{
    let op1 = op_add_imm(x, nn1);
    let op2 = op_add_imm(x, nn2);
    assert(op1 != 0x0000 && op1 != 0x00E0 && op1 != 0x00EE && op1 >> 12 == 7
        && (op1 >> 8) & 0xF == x && (op1 & 0x00FF) as u8 == nn1) by (bit_vector)
        requires
            op1 == 0x7000u16 | (x << 8) | (nn1 as u16),
            x < 16,
    ;
    assert(op2 != 0x0000 && op2 != 0x00E0 && op2 != 0x00EE && op2 >> 12 == 7
        && (op2 >> 8) & 0xF == x && (op2 & 0x00FF) as u8 == nn2) by (bit_vector)
        requires
            op2 == 0x7000u16 | (x << 8) | (nn2 as u16),
            x < 16,
    ;
}

/// A call followed immediately by a return always succeeds while the stack
/// has room, jumps to the called address, and then restores both the
/// program counter and the stack pointer the machine had at the call. This
/// holds at every stack depth below the capacity, so calls nest up to
/// `STACK_SIZE` deep.
pub proof fn lemma_call_ret(s: State, nnn: u16)
    requires
        s.wf(),
        (s.sp as int) < STACK_SIZE as int,
        nnn < 0x1000,
    ensures
        spec_execute(s, op_call(nnn)) is Ok,
        spec_execute(s, op_call(nnn))->Ok_0.pc == nnn,
        spec_execute(spec_execute(s, op_call(nnn))->Ok_0, 0x00EE) is Ok,
        spec_execute(spec_execute(s, op_call(nnn))->Ok_0, 0x00EE)->Ok_0.pc == s.pc,
        spec_execute(spec_execute(s, op_call(nnn))->Ok_0, 0x00EE)->Ok_0.sp == s.sp,
{
    let op = op_call(nnn);
    assert(op != 0x0000 && op != 0x00E0 && op != 0x00EE && op >> 12 == 2 && op & 0x0FFF == nnn)
        by (bit_vector)
        requires
            op == 0x2000u16 | nnn,
            nnn < 0x1000,
    ;
}

/// Returning with an empty stack and calling with a full stack both raise
/// the bounds fault; by the contract of `Emu::execute`, a fault leaves the
/// machine unchanged.
pub proof fn lemma_stack_bounds(s: State, nnn: u16)
    requires
        s.wf(),
        nnn < 0x1000,
    ensures
        s.sp == 0 ==> spec_execute(s, 0x00EE) == Err::<State, Fault>(Fault::Bounds),
        s.sp as int == STACK_SIZE as int ==> spec_execute(s, op_call(nnn)) == Err::<State, Fault>(
            Fault::Bounds,
        ),
{
    let op = op_call(nnn);
    assert(op != 0x0000 && op != 0x00E0 && op != 0x00EE && op >> 12 == 2) by (bit_vector)
        requires
            op == 0x2000u16 | nnn,
            nnn < 0x1000,
    ;
}

/// Clearing the screen always succeeds and turns every pixel off, whatever
/// the screen held before; nothing else changes.
pub proof fn lemma_cls(s: State)
    requires
        s.wf(),
    ensures
        spec_execute(s, 0x00E0) is Ok,
        spec_execute(s, 0x00E0)->Ok_0.screen.len() == s.screen.len(),
        forall|i: int|
            0 <= i < s.screen.len() ==> !spec_execute(s, 0x00E0)->Ok_0.screen[i],
        spec_execute(s, 0x00E0)->Ok_0 == (State {
            screen: spec_execute(s, 0x00E0)->Ok_0.screen,
            ..s
        }),
{
}

/// A skip-if-equal-immediate step advances the program counter by 4 in all
/// (2 from the fetch, 2 from the satisfied skip) when the register holds the
/// immediate, and by 2 otherwise.
pub proof fn lemma_skip_eq_imm(s: State, x: u16, nn: u8)
    requires
        s.wf(),
        x < 16,
        fetch_ok(s),
        fetched_op(s) == op_skip_eq_imm(x, nn),
    ensures
        spec_step(s) is Ok,
        s.v_reg[x as int] == nn ==> spec_step(s)->Ok_0.pc == s.pc + 4,
        s.v_reg[x as int] != nn ==> spec_step(s)->Ok_0.pc == s.pc + 2,
{
    let op = op_skip_eq_imm(x, nn);
    assert(op != 0x0000 && op != 0x00E0 && op != 0x00EE && op >> 12 == 3 && (op >> 8) & 0xF == x
        && (op & 0x00FF) as u8 == nn) by (bit_vector)
        requires
            op == 0x3000u16 | (x << 8) | (nn as u16),
            x < 16,
    ;
}

/// A skip-if-not-equal-immediate step advances the program counter by 4
/// when the register differs from the immediate, and by 2 otherwise.
pub proof fn lemma_skip_neq_imm(s: State, x: u16, nn: u8)
    requires
        s.wf(),
        x < 16,
        fetch_ok(s),
        fetched_op(s) == op_skip_neq_imm(x, nn),
    ensures
        spec_step(s) is Ok,
        s.v_reg[x as int] != nn ==> spec_step(s)->Ok_0.pc == s.pc + 4,
        s.v_reg[x as int] == nn ==> spec_step(s)->Ok_0.pc == s.pc + 2,
{
    let op = op_skip_neq_imm(x, nn);
    assert(op != 0x0000 && op != 0x00E0 && op != 0x00EE && op >> 12 == 4 && (op >> 8) & 0xF == x
        && (op & 0x00FF) as u8 == nn) by (bit_vector)
        requires
            op == 0x4000u16 | (x << 8) | (nn as u16),
            x < 16,
    ;
}

/// A skip-if-registers-equal step advances the program counter by 4 when
/// the two registers agree, and by 2 otherwise.
pub proof fn lemma_skip_eq_reg(s: State, x: u16, y: u16)
    requires
        s.wf(),
        x < 16,
        y < 16,
        fetch_ok(s),
        fetched_op(s) == op_skip_eq_reg(x, y),
    ensures
        spec_step(s) is Ok,
        s.v_reg[x as int] == s.v_reg[y as int] ==> spec_step(s)->Ok_0.pc == s.pc + 4,
        s.v_reg[x as int] != s.v_reg[y as int] ==> spec_step(s)->Ok_0.pc == s.pc + 2,
{
    let op = op_skip_eq_reg(x, y);
    assert(op != 0x0000 && op != 0x00E0 && op != 0x00EE && op >> 12 == 5 && op & 0xF == 0
        && (op >> 8) & 0xF == x && (op >> 4) & 0xF == y) by (bit_vector)
        requires
            op == 0x5000u16 | (x << 8) | (y << 4),
            x < 16,
            y < 16,
    ;
}

/// A successful step preserves well-formedness and writes neither memory,
/// the keypad flags, the timers, nor the index register: no implemented
/// instruction touches them. In particular the font table in low memory,
/// placed there by construction and reset, survives every step.
pub proof fn lemma_step_frame(s: State)
    requires
        s.wf(),
        spec_step(s) is Ok,
    ensures
        spec_step(s)->Ok_0.wf(),
        spec_step(s)->Ok_0.ram == s.ram,
        spec_step(s)->Ok_0.keys == s.keys,
        spec_step(s)->Ok_0.dt == s.dt,
        spec_step(s)->Ok_0.st == s.st,
        spec_step(s)->Ok_0.i_reg == s.i_reg,
{
    let op = fetched_op(s);
    assert((op >> 8) & 0xF < 16 && (op >> 4) & 0xF < 16) by (bit_vector);
}

/// A timer tick moves each timer one closer to zero and never past it: a
/// timer at zero stays at zero, and one above zero loses exactly one.
pub proof fn lemma_timer_tick_floor(s: State)
    ensures
        spec_tick_timers(s).dt <= s.dt,
        spec_tick_timers(s).st <= s.st,
        s.dt == 0 ==> spec_tick_timers(s).dt == 0,
        s.st == 0 ==> spec_tick_timers(s).st == 0,
        s.dt > 0 ==> spec_tick_timers(s).dt == s.dt - 1,
        s.st > 0 ==> spec_tick_timers(s).st == s.st - 1,
{
}

} // verus!
