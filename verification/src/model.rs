//! Mathematical model of the machine.
//!
//! [`State`] mirrors the executable machine state field for field, with
//! sequences in place of the backing vectors. The meaning of one fetch and
//! of every opcode is given by [`spec_step`] and [`spec_execute`]; the
//! executable code in [`crate::emu`] is proved to follow them exactly.

use vstd::prelude::*;

verus! {

use crate::{RAM_SIZE, NUM_REGS, STACK_SIZE, NUM_KEYS, SCREEN_WIDTH, SCREEN_HEIGHT, START_ADDR,
    FONTSET_SIZE, FONTSET};

/// A fatal machine fault. Execution must not continue past either variant.
#[derive(Clone, Copy, Debug, PartialEq, Eq, Structural)]
pub enum Fault {
    /// The fetched opcode matches no implemented instruction pattern; the
    /// offending opcode is carried for diagnostics.
    Unhandled(u16),
    /// A fetch reached outside memory, a return popped an empty stack, or a
    /// call pushed onto a full stack.
    Bounds,
}

/// Abstract machine state: one field per hardware component.
#[verifier::ext_equal]
pub ghost struct State {
    pub pc: u16,
    pub ram: Seq<u8>,
    pub screen: Seq<bool>,
    pub v_reg: Seq<u8>,
    pub i_reg: u16,
    pub sp: u16,
    pub stack: Seq<u16>,
    pub keys: Seq<bool>,
    pub dt: u8,
    pub st: u8,
}

/// The built-in glyph table as a sequence.
pub open spec fn font_seq() -> Seq<u8> {
    FONTSET@
}

/// Most significant nibble of an opcode.
pub open spec fn nib1(op: u16) -> u16 {
    op >> 12
}

/// Second nibble of an opcode: the X register index.
pub open spec fn nib2(op: u16) -> u16 {
    (op >> 8) & 0xF
}

/// Third nibble of an opcode: the Y register index.
pub open spec fn nib3(op: u16) -> u16 {
    (op >> 4) & 0xF
}

/// Least significant nibble of an opcode.
pub open spec fn nib4(op: u16) -> u16 {
    op & 0xF
}

/// The NNN address field: the low 12 bits of an opcode.
pub open spec fn addr_field(op: u16) -> u16 {
    op & 0x0FFF
}

/// The NN immediate field: the low byte of an opcode.
pub open spec fn imm_field(op: u16) -> u8 {
    (op & 0x00FF) as u8
}

/// The opcode that loads immediate `nn` into register `x`.
pub open spec fn op_load_imm(x: u16, nn: u8) -> u16 {
    0x6000u16 | (x << 8) | (nn as u16)
}

/// The opcode that adds immediate `nn` to register `x`, wrapping.
pub open spec fn op_add_imm(x: u16, nn: u8) -> u16 {
    0x7000u16 | (x << 8) | (nn as u16)
}

/// The opcode that calls the subroutine at address `nnn`.
pub open spec fn op_call(nnn: u16) -> u16 {
    0x2000u16 | nnn
}

/// The opcode that skips the next instruction when register `x` holds `nn`.
pub open spec fn op_skip_eq_imm(x: u16, nn: u8) -> u16 {
    0x3000u16 | (x << 8) | (nn as u16)
}

/// The opcode that skips the next instruction when register `x` does not
/// hold `nn`.
pub open spec fn op_skip_neq_imm(x: u16, nn: u8) -> u16 {
    0x4000u16 | (x << 8) | (nn as u16)
}

/// The opcode that skips the next instruction when registers `x` and `y`
/// hold the same value.
pub open spec fn op_skip_eq_reg(x: u16, y: u16) -> u16 {
    0x5000u16 | (x << 8) | (y << 4)
}

/// Addition of two register bytes, wrapping modulo 256.
pub open spec fn wrap_add(a: u8, b: u8) -> u8 {
    if a + b > 0xFF {
        (a + b - 0x100) as u8
    } else {
        (a + b) as u8
    }
}

impl State {
    /// Every backing sequence has its hardware size, and the stack pointer
    /// stays within the stack.
    pub open spec fn wf(self) -> bool {
        &&& self.ram.len() == RAM_SIZE
        &&& self.screen.len() == SCREEN_WIDTH * SCREEN_HEIGHT
        &&& self.v_reg.len() == NUM_REGS
        &&& self.stack.len() == STACK_SIZE
        &&& self.keys.len() == NUM_KEYS
        &&& self.sp <= STACK_SIZE
    }

    /// The state produced by construction and by reset: program counter at
    /// the start address, the font in low memory, everything else cleared.
    pub open spec fn initial() -> State {
        State {
            pc: START_ADDR,
            ram: Seq::new(RAM_SIZE as nat, |i: int| if i < FONTSET_SIZE { font_seq()[i] } else { 0u8 }),
            screen: Seq::new((SCREEN_WIDTH * SCREEN_HEIGHT) as nat, |i: int| false),
            v_reg: Seq::new(NUM_REGS as nat, |i: int| 0u8),
            i_reg: 0,
            sp: 0,
            stack: Seq::new(STACK_SIZE as nat, |i: int| 0u16),
            keys: Seq::new(NUM_KEYS as nat, |i: int| false),
            dt: 0,
            st: 0,
        }
    }
}

/// Whether the two opcode bytes at the program counter are inside memory.
pub open spec fn fetch_ok(s: State) -> bool {
    s.pc as int + 1 < RAM_SIZE as int
}

/// The big-endian opcode at the program counter.
pub open spec fn fetched_op(s: State) -> u16 {
    ((s.ram[s.pc as int] as u16) << 8) | (s.ram[s.pc as int + 1] as u16)
}

/// The state after a successful fetch: the program counter has moved past
/// the two opcode bytes.
pub open spec fn after_fetch(s: State) -> State {
    State { pc: (s.pc + 2) as u16, ..s }
}

/// The effect of executing one already-fetched opcode on state `s`.
/// `Err` means the machine faulted and `s` is left unchanged.
pub open spec fn spec_execute(s: State, op: u16) -> Result<State, Fault> {
    if op == 0x0000 {
        // NOP
        Ok(s)
    } else if op == 0x00E0 {
        // CLS
        Ok(State { screen: Seq::new(s.screen.len(), |i: int| false), ..s })
    } else if op == 0x00EE {
        // RET
        if s.sp > 0 {
            Ok(State { pc: s.stack[s.sp as int - 1], sp: (s.sp - 1) as u16, ..s })
        } else {
            Err(Fault::Bounds)
        }
    } else if nib1(op) == 1 {
        // JMP NNN
        Ok(State { pc: addr_field(op), ..s })
    } else if nib1(op) == 2 {
        // CALL NNN
        if (s.sp as int) < STACK_SIZE as int {
            Ok(State {
                stack: s.stack.update(s.sp as int, s.pc),
                sp: (s.sp + 1) as u16,
                pc: addr_field(op),
                ..s
            })
        } else {
            Err(Fault::Bounds)
        }
    } else if nib1(op) == 3 {
        // SKIP if VX == NN
        if s.v_reg[nib2(op) as int] == imm_field(op) {
            Ok(State { pc: (s.pc + 2) as u16, ..s })
        } else {
            Ok(s)
        }
    } else if nib1(op) == 4 {
        // SKIP if VX != NN
        if s.v_reg[nib2(op) as int] != imm_field(op) {
            Ok(State { pc: (s.pc + 2) as u16, ..s })
        } else {
            Ok(s)
        }
    } else if nib1(op) == 5 && nib4(op) == 0 {
        // SKIP if VX == VY
        if s.v_reg[nib2(op) as int] == s.v_reg[nib3(op) as int] {
            Ok(State { pc: (s.pc + 2) as u16, ..s })
        } else {
            Ok(s)
        }
    } else if nib1(op) == 6 {
        // VX := NN
        Ok(State { v_reg: s.v_reg.update(nib2(op) as int, imm_field(op)), ..s })
    } else if nib1(op) == 7 {
        // VX := VX + NN, wrapping
        Ok(State {
            v_reg: s.v_reg.update(nib2(op) as int, wrap_add(s.v_reg[nib2(op) as int], imm_field(op))),
            ..s
        })
    } else if nib1(op) == 8 && nib4(op) == 0 {
        // VX := VY
        Ok(State { v_reg: s.v_reg.update(nib2(op) as int, s.v_reg[nib3(op) as int]), ..s })
    } else if nib1(op) == 8 && nib4(op) == 1 {
        // VX := VX | VY
        Ok(State {
            v_reg: s.v_reg.update(nib2(op) as int, s.v_reg[nib2(op) as int] | s.v_reg[nib3(op) as int]),
            ..s
        })
    } else if nib1(op) == 8 && nib4(op) == 2 {
        // VX := VX & VY
        Ok(State {
            v_reg: s.v_reg.update(nib2(op) as int, s.v_reg[nib2(op) as int] & s.v_reg[nib3(op) as int]),
            ..s
        })
    } else if nib1(op) == 8 && nib4(op) == 3 {
        // VX := VX ^ VY
        Ok(State {
            v_reg: s.v_reg.update(nib2(op) as int, s.v_reg[nib2(op) as int] ^ s.v_reg[nib3(op) as int]),
            ..s
        })
    } else {
        Err(Fault::Unhandled(op))
    }
}

/// The effect of one whole step: fetch, then execute.
/// A fetch out of bounds faults with the state unchanged; a fault during
/// execution leaves the post-fetch state.
pub open spec fn spec_step(s: State) -> Result<State, Fault> {
    if fetch_ok(s) {
        spec_execute(after_fetch(s), fetched_op(s))
    } else {
        Err(Fault::Bounds)
    }
}

/// The effect of one timer tick: each timer moves one closer to zero and
/// stops there; nothing else changes.
pub open spec fn spec_tick_timers(s: State) -> State {
    State {
        dt: if s.dt > 0 { (s.dt - 1) as u8 } else { 0u8 },
        st: if s.st > 0 { (s.st - 1) as u8 } else { 0u8 },
        ..s
    }
}

} // verus!
