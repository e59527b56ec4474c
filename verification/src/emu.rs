//! The executable machine.
//!
//! [`Emu`] owns all emulated hardware state. The host drives it through
//! [`Emu::tick`] (one instruction) and [`Emu::tick_timers`] (one timer
//! frame), loads programs into `ram` from address [`START_ADDR`], sets the
//! `keys` flags, and reads the `screen` buffer. Every method is specified
//! against the model in [`crate::model`].

use vstd::prelude::*;

verus! {

use crate::{RAM_SIZE, NUM_REGS, STACK_SIZE, NUM_KEYS, SCREEN_WIDTH, SCREEN_HEIGHT, START_ADDR,
    FONTSET_SIZE, FONTSET};
use crate::model::{State, Fault, font_seq, fetch_ok, fetched_op, after_fetch, spec_execute,
    spec_step, spec_tick_timers};

/// The machine state: memory, registers, stack, timers, and the buffers the
/// host reads and writes. Fields are public because loading a program,
/// pressing a key, and rendering the screen are all direct host accesses to
/// this state; the stepping methods require the well-formedness captured by
/// [`State::wf`] on the view.
pub struct Emu {
    /// Address of the next instruction to fetch.
    pub pc: u16,
    /// Addressable memory; always `RAM_SIZE` bytes.
    pub ram: Vec<u8>,
    /// Monochrome pixel buffer, row-major; always `SCREEN_WIDTH * SCREEN_HEIGHT` entries.
    pub screen: Vec<bool>,
    /// General-purpose registers V0 through VF; always `NUM_REGS` entries.
    pub v_reg: Vec<u8>,
    /// Memory-index register.
    pub i_reg: u16,
    /// Index of the next free slot of the return-address stack.
    pub sp: u16,
    /// Return-address stack; always `STACK_SIZE` entries.
    pub stack: Vec<u16>,
    /// Pressed state of the sixteen keys; always `NUM_KEYS` entries.
    pub keys: Vec<bool>,
    /// Delay timer, counted down by `tick_timers`.
    pub dt: u8,
    /// Sound timer, counted down by `tick_timers`; the host beeps while it
    /// is nonzero.
    pub st: u8,
}

impl View for Emu {
    type V = State;

    open spec fn view(&self) -> State {
        State {
            pc: self.pc,
            ram: self.ram@,
            screen: self.screen@,
            v_reg: self.v_reg@,
            i_reg: self.i_reg,
            sp: self.sp,
            stack: self.stack@,
            keys: self.keys@,
            dt: self.dt,
            st: self.st,
        }
    }
}

/// A vector of `n` copies of `val`.
fn filled<T: Copy>(n: usize, val: T) -> (v: Vec<T>)
    ensures
        v@.len() == n,
        forall|i: int| 0 <= i < n ==> v@[i] == val,
{
    let mut v: Vec<T> = Vec::new();
    let mut k: usize = 0;
    while k < n
        invariant
            k <= n,
            v@.len() == k,
            forall|i: int| 0 <= i < k ==> v@[i] == val,
        decreases n - k,
    {
        v.push(val);
        k = k + 1;
    }
    v
}

/// Freshly initialized memory: the font table in the low bytes, zero
/// everywhere else.
fn font_ram() -> (ram: Vec<u8>)
    ensures
        ram@ =~= State::initial().ram,
{
    let mut ram: Vec<u8> = filled(RAM_SIZE, 0u8);
    let mut k: usize = 0;
    while k < FONTSET_SIZE
        invariant
            k <= FONTSET_SIZE,
            ram@.len() == RAM_SIZE,
            forall|i: int| 0 <= i < k ==> ram@[i] == font_seq()[i],
            forall|i: int| k <= i < RAM_SIZE ==> ram@[i] == 0u8,
        decreases FONTSET_SIZE - k,
    {
        let b = FONTSET[k];
        ram.set(k, b);
        k = k + 1;
    }
    ram
}

impl Emu {
    /// A new machine in the initial state: program counter at `START_ADDR`,
    /// font loaded, everything else cleared.
    pub fn new() -> (e: Emu)
        ensures
            e@ == State::initial(),
            e@.wf(),
    {
        let e = Emu {
            pc: START_ADDR,
            ram: font_ram(),
            screen: filled(SCREEN_WIDTH * SCREEN_HEIGHT, false),
            v_reg: filled(NUM_REGS, 0u8),
            i_reg: 0,
            sp: 0,
            stack: filled(STACK_SIZE, 0u16),
            keys: filled(NUM_KEYS, false),
            dt: 0,
            st: 0,
        };
        proof {
            assert(e@ =~= State::initial());
        }
        e
    }

    /// Return the machine to the initial state, superseding all prior state;
    /// the result is identical to a newly constructed machine.
    pub fn reset(&mut self)
        ensures
            final(self)@ == State::initial(),
            final(self)@.wf(),
    {
        self.pc = START_ADDR;
        self.ram = font_ram();
        self.screen = filled(SCREEN_WIDTH * SCREEN_HEIGHT, false);
        self.v_reg = filled(NUM_REGS, 0u8);
        self.i_reg = 0;
        self.sp = 0;
        self.stack = filled(STACK_SIZE, 0u16);
        self.keys = filled(NUM_KEYS, false);
        self.dt = 0;
        self.st = 0;
        proof {
            assert(self@ =~= State::initial());
        }
    }

    /// Push a return address; the stack must have room.
    fn push(&mut self, val: u16)
        requires
            old(self)@.wf(),
            (old(self)@.sp as int) < STACK_SIZE as int,
        ensures
            final(self)@.wf(),
            final(self)@ == (State {
                stack: old(self)@.stack.update(old(self)@.sp as int, val),
                sp: (old(self)@.sp + 1) as u16,
                ..old(self)@
            }),
    {
        let idx = self.sp as usize;
        self.stack.set(idx, val);
        self.sp = self.sp + 1;
    }

    /// Pop the most recently pushed return address; the stack must be
    /// nonempty.
    fn pop(&mut self) -> (r: u16)
        requires
            old(self)@.wf(),
            old(self)@.sp > 0,
        ensures
            final(self)@.wf(),
            r == old(self)@.stack[old(self)@.sp as int - 1],
            final(self)@ == (State { sp: (old(self)@.sp - 1) as u16, ..old(self)@ }),
    {
        self.sp = self.sp - 1;
        self.stack[self.sp as usize]
    }

    /// Read the big-endian opcode at the program counter and advance the
    /// program counter past it; a read outside memory is a bounds fault
    /// that leaves the machine unchanged.
    fn fetch(&mut self) -> (r: Result<u16, Fault>)
        requires
            old(self)@.wf(),
        ensures
            final(self)@.wf(),
            fetch_ok(old(self)@) ==> r == Ok::<u16, Fault>(fetched_op(old(self)@))
                && final(self)@ == after_fetch(old(self)@),
            !fetch_ok(old(self)@) ==> r == Err::<u16, Fault>(Fault::Bounds)
                && final(self)@ == old(self)@,
    {
        if (self.pc as usize) + 1 < RAM_SIZE {
            let higher_byte = self.ram[self.pc as usize] as u16;
            let lower_byte = self.ram[(self.pc + 1) as usize] as u16;
            let op = (higher_byte << 8) | lower_byte;
            self.pc = self.pc + 2;
            Ok(op)
        } else {
            Err(Fault::Bounds)
        }
    }

    /// Decode one opcode and apply its effect, exactly as [`spec_execute`]
    /// states it; a fault leaves the machine unchanged. The program counter
    /// must be a post-fetch address, so a satisfied skip cannot take it past
    /// the representable range.
    fn execute(&mut self, op: u16) -> (r: Result<(), Fault>)
        requires
            old(self)@.wf(),
            old(self)@.pc as int <= RAM_SIZE as int,
        ensures
            final(self)@.wf(),
            match spec_execute(old(self)@, op) {
                Ok(s) => r is Ok && final(self)@ == s,
                Err(f) => r == Err::<(), Fault>(f) && final(self)@ == old(self)@,
            },
    {
        let x = ((op >> 8) & 0xF) as usize;
        let y = ((op >> 4) & 0xF) as usize;
        let nn = (op & 0x00FF) as u8;
        let nnn = op & 0x0FFF;
        proof {
            assert(((op >> 8) & 0xF) < 16 && ((op >> 4) & 0xF) < 16) by (bit_vector);
        }
        if op == 0x0000 {
            // NOP
            Ok(())
        } else if op == 0x00E0 {
            // CLS: clear the screen
            self.screen = filled(SCREEN_WIDTH * SCREEN_HEIGHT, false);
            Ok(())
        } else if op == 0x00EE {
            // RET: return from subroutine
            if self.sp > 0 {
                let ret_addr = self.pop();
                self.pc = ret_addr;
                Ok(())
            } else {
                Err(Fault::Bounds)
            }
        } else if op >> 12 == 1 {
            // JMP NNN
            self.pc = nnn;
            Ok(())
        } else if op >> 12 == 2 {
            // CALL NNN: push the return address, then jump
            if self.sp < STACK_SIZE as u16 {
                let here = self.pc;
                self.push(here);
                self.pc = nnn;
                Ok(())
            } else {
                Err(Fault::Bounds)
            }
        } else if op >> 12 == 3 {
            // SKIP the next instruction if VX == NN
            if self.v_reg[x] == nn {
                self.pc = self.pc + 2;
            }
            Ok(())
        } else if op >> 12 == 4 {
            // SKIP the next instruction if VX != NN
            if self.v_reg[x] != nn {
                self.pc = self.pc + 2;
            }
            Ok(())
        } else if op >> 12 == 5 && op & 0xF == 0 {
            // SKIP the next instruction if VX == VY
            if self.v_reg[x] == self.v_reg[y] {
                self.pc = self.pc + 2;
            }
            Ok(())
        } else if op >> 12 == 6 {
            // VX := NN
            self.v_reg.set(x, nn);
            Ok(())
        } else if op >> 12 == 7 {
            // VX := VX + NN, wrapping modulo 256
            let sum = self.v_reg[x].wrapping_add(nn);
            self.v_reg.set(x, sum);
            Ok(())
        } else if op >> 12 == 8 && op & 0xF == 0 {
            // VX := VY
            let vy = self.v_reg[y];
            self.v_reg.set(x, vy);
            Ok(())
        } else if op >> 12 == 8 && op & 0xF == 1 {
            // VX := VX | VY
            let b = self.v_reg[x] | self.v_reg[y];
            self.v_reg.set(x, b);
            Ok(())
        } else if op >> 12 == 8 && op & 0xF == 2 {
            // VX := VX & VY
            let b = self.v_reg[x] & self.v_reg[y];
            self.v_reg.set(x, b);
            Ok(())
        } else if op >> 12 == 8 && op & 0xF == 3 {
            // VX := VX ^ VY
            let b = self.v_reg[x] ^ self.v_reg[y];
            self.v_reg.set(x, b);
            Ok(())
        } else {
            Err(Fault::Unhandled(op))
        }
    }

    /// Advance the machine by exactly one instruction: fetch the opcode at
    /// the program counter and execute it. A fault during fetch leaves the
    /// machine unchanged; a fault during execution leaves the post-fetch
    /// state.
    pub fn tick(&mut self) -> (r: Result<(), Fault>)
        requires
            old(self)@.wf(),
        ensures
            final(self)@.wf(),
            match spec_step(old(self)@) {
                Ok(s) => r is Ok && final(self)@ == s,
                Err(f) => r == Err::<(), Fault>(f) && final(self)@ == (if fetch_ok(old(self)@) {
                    after_fetch(old(self)@)
                } else {
                    old(self)@
                }),
            },
    {
        let op = match self.fetch() {
            Ok(op) => op,
            Err(f) => {
                return Err(f);
            },
        };
        self.execute(op)
    }

    /// Advance the timers by one frame: each timer that is above zero moves
    /// one closer to zero, and neither moves below it. The host observes the
    /// sound timer and beeps while it is nonzero.
    pub fn tick_timers(&mut self)
        ensures
            final(self)@ == spec_tick_timers(old(self)@),
    {
        if self.dt > 0 {
            self.dt = self.dt - 1;
        }
        if self.st > 0 {
            self.st = self.st - 1;
        }
    }
}

} // verus!
