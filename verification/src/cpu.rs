//! The processor: registers, call stack and the fetch-decode-execute cycle.
use vstd::prelude::*;
use vstd::slice::slice_subrange;
use crate::address::{fontaddr, idx};
use crate::error::{Error, Fault};
use crate::instruction::{alu, bit, decode, Instruction};
use crate::keypad::Keypad;
use crate::model::{bcd, execute, fill, key_pressed, step, CpuView, EngineState, Machine, FLAG};
use crate::ram::{in_bounds, store, Ram};
use crate::ret::Ret;
use crate::screen::{blit, collides, Screen};
use crate::timers::Timers;

verus! {

/// The address at which execution starts.
pub const ENTRY: u16 = 512;

/// Return slots on the call stack.
pub const STACK_SIZE: u8 = 16;

/// The processor as it stands before its first tick: every register and
/// every return slot zero, no call outstanding, running, with the program
/// counter at the load address.
pub open spec fn initial() -> CpuView {
    CpuView {
        v: Seq::new(16, |x: int| 0u8),
        i: 0,
        pc: 512,
        sp: 0,
        slots: Seq::new(16, |k: int| 0u16),
        state: EngineState::Running,
    }
}

/// The machine made of a processor and what it is ticked with.
pub open spec fn machine(
    cpu: Cpu,
    ram: Ram,
    screen: Screen,
    keypad: Keypad,
    timers: Timers,
) -> Machine {
    Machine { cpu: cpu@, ram: ram@, screen: screen@, keys: keypad@, timers }
}

/// The processor: sixteen 8-bit registers, of which `VF` doubles as the
/// flag; a 16-bit index register; the program counter; and a call stack of
/// sixteen return slots.
#[derive(Debug)]
pub struct Cpu {
    // general purpose registers
    v: [u8; 16],
    // index register
    i: u16,
    // program counter
    pc: u16,
    // stack pointer
    sp: u8,
    // stack
    stack: [u16; 16],
    // running, or waiting for a key
    state: EngineState,
}

impl View for Cpu {
    type V = CpuView;

    /// Every field as it is: nothing of the processor is left out.
    closed spec fn view(&self) -> CpuView {
        CpuView {
            v: self.v@,
            i: self.i,
            pc: self.pc,
            sp: self.sp,
            slots: self.stack@,
            state: self.state,
        }
    }
}

impl Cpu {
    /// The processor's invariant: its view is valid.
    pub open spec fn wf(&self) -> bool {
        self@.valid()
    }

    /// A processor ready to run the program at the load address.
    pub fn new() -> (cpu: Cpu)
        ensures
            cpu.wf(),
            cpu@ == initial(),
    {
        Cpu { v: [0; 16], i: 0, pc: ENTRY, sp: 0, stack: [0; 16], state: EngineState::Running }
    }

    /// The value of register `x`.
    pub fn register(&self, x: u8) -> (value: u8)
        requires
            x < 16,
        ensures
            value == self@.v[x as int],
    {
        self.v[idx(x)]
    }

    /// The index register.
    pub fn i(&self) -> (value: u16)
        ensures
            value == self@.i,
    {
        self.i
    }

    /// The program counter.
    pub fn pc(&self) -> (value: u16)
        ensures
            value == self@.pc,
    {
        self.pc
    }

    /// The stack pointer: the number of return slots in use.
    pub fn sp(&self) -> (value: u8)
        ensures
            value == self@.sp,
    {
        self.sp
    }

    /// What return slot `k` holds, in use or not.
    pub fn slot(&self, k: u8) -> (value: u16)
        requires
            k < 16,
        ensures
            value == self@.slots[k as int],
    {
        self.stack[idx(k)]
    }

    /// Whether the engine runs or waits for a key.
    pub fn state(&self) -> (state: EngineState)
        ensures
            state == self@.state,
    {
        self.state
    }

    /// Delivers a key press. While a key is awaited, the key goes to the
    /// awaiting register, the program counter moves past the awaiting
    /// instruction and the engine runs again; `true` is returned. Otherwise
    /// nothing changes and `false` is returned.
    pub fn key_press(&mut self, key: u8) -> (taken: bool)
        requires
            old(self).wf(),
            key < 16,
        ensures
            final(self).wf(),
            final(self)@ == key_pressed(old(self)@, key),
            taken == (old(self)@.state != EngineState::Running),
    {
        match self.state {
            EngineState::AwaitingKey { x } => {
                self.v[idx(x)] = key;
                self.pc = self.pc + 2;
                self.state = EngineState::Running;
                true
            },
            EngineState::Running => false,
        }
    }

    /// Sets register `x` to `value`.
    fn set(&mut self, x: u8, value: u8)
        requires
            old(self).wf(),
            x < 16,
        ensures
            final(self).wf(),
            final(self)@ == old(self)@.set(x, value),
    {
        self.v[idx(x)] = value;
    }

    /// Sets the flag register to `flag` and then register `x` to `value`.
    fn set_flagged(&mut self, x: u8, flag: u8, value: u8)
        requires
            old(self).wf(),
            x < 16,
        ensures
            final(self).wf(),
            final(self)@ == old(self)@.set_flagged(x, flag, value),
    {
        self.v[0xf] = flag;
        self.v[idx(x)] = value;
    }

    /// Frees the newest return slot in use and returns what it holds, or
    /// faults where no slot is in use.
    fn pop(&mut self) -> (r: Result<u16, Fault>)
        requires
            old(self).wf(),
        ensures
            final(self).wf(),
            old(self)@.sp == 0 ==> r == Err::<u16, Fault>(Fault::StackUnderflow) && final(self)@
                == old(self)@,
            old(self)@.sp > 0 ==> r == Ok::<u16, Fault>(old(self)@.top()) && final(self)@ == old(self)@.pop(),
    {
        if self.sp == 0 {
            return Err(Fault::StackUnderflow);
        }
        let slot: u16 = self.stack[self.sp as usize - 1];
        self.sp -= 1;
        Ok(slot)
    }

    /// Puts the program counter into a fresh return slot, or faults where
    /// all sixteen are in use.
    fn push_pc(&mut self) -> (r: Result<(), Fault>)
        requires
            old(self).wf(),
            old(self)@.pc <= 4094,
        ensures
            final(self).wf(),
            old(self)@.sp >= 16 ==> r == Err::<(), Fault>(Fault::StackOverflow) && final(self)@
                == old(self)@,
            old(self)@.sp < 16 ==> r is Ok && final(self)@ == old(self)@.push(old(self)@.pc),
    {
        if self.sp >= STACK_SIZE {
            return Err(Fault::StackOverflow);
        }
        self.stack[self.sp as usize] = self.pc;
        self.sp += 1;
        Ok(())
    }

    /// Fills registers `V0` up to `Vx` from `bytes`.
    fn fill(&mut self, bytes: &[u8])
        requires
            old(self).wf(),
            bytes@.len() <= 16,
        ensures
            final(self).wf(),
            final(self)@ == (CpuView { v: fill(old(self)@.v, bytes@), ..old(self)@ }),
    {
        let mut n: usize = 0;
        while n < bytes.len()
            invariant
                n <= bytes@.len() <= 16,
                self.i == old(self).i,
                self.pc == old(self).pc,
                self.sp == old(self).sp,
                self.stack == old(self).stack,
                self.state == old(self).state,
                forall|j: int| 0 <= j < n ==> self.v@[j] == bytes@[j],
                forall|j: int| n <= j < 16 ==> self.v@[j] == old(self).v@[j],
            decreases bytes@.len() - n,
        {
            self.v[n] = bytes[n];
            n += 1;
        }
    }

    /// Draws the `rows`-byte sprite at the index register at `(Vx, Vy)` and
    /// sets the flag register to whether a pixel went off.
    fn draw(&mut self, x: u8, y: u8, rows: u8, ram: &Ram, screen: &mut Screen) -> (r: Result<
        Ret,
        Fault,
    >)
        requires
            old(self).wf(),
            x < 16,
            y < 16,
        ensures
            final(self).wf(),
            !in_bounds(old(self)@.i as int, rows as int) ==> r == Err::<Ret, Fault>(
                Fault::OutOfBounds,
            ) && final(self)@ == old(self)@ && final(screen)@ == old(screen)@,
            in_bounds(old(self)@.i as int, rows as int) ==> {
                let sprite = ram@.subrange(old(self)@.i as int, old(self)@.i + rows);
                let left = old(self)@.v[x as int] as int;
                let top = old(self)@.v[y as int] as int;
                &&& r == Ok::<Ret, Fault>(Ret::Next)
                &&& final(screen)@ == blit(old(screen)@, left, top, sprite)
                &&& final(self)@ == old(self)@.set(
                    FLAG,
                    bit(collides(old(screen)@, left, top, sprite)),
                )
            },
    {
        let sprite: Vec<u8> = match ram.read_range(self.i, idx(rows)) {
            Ok(bytes) => bytes,
            Err(fault) => {
                return Err(fault);
            },
        };
        let hit: bool = screen.xor_blit(self.v[idx(x)], self.v[idx(y)], sprite.as_slice());
        self.set(
            FLAG,
            if hit {
                1
            } else {
                0
            },
        );
        Ok(Ret::Next)
    }

    /// Stores the hundreds, tens and ones of `Vx` at the index register.
    fn store_bcd(&self, x: u8, ram: &mut Ram) -> (r: Result<Ret, Fault>)
        requires
            self.wf(),
            x < 16,
        ensures
            !in_bounds(self@.i as int, 3) ==> r == Err::<Ret, Fault>(Fault::OutOfBounds) && final(ram)@ == old(ram)@,
            in_bounds(self@.i as int, 3) ==> r == Ok::<Ret, Fault>(Ret::Next) && final(ram)@
                == store(old(ram)@, self@.i as int, bcd(self@.v[x as int])),
    {
        let vx: u8 = self.v[idx(x)];
        let digits: [u8; 3] = [vx / 100, (vx / 10) % 10, vx % 10];
        assert(digits@ == bcd(vx));
        match ram.write_range(self.i, digits.as_slice()) {
            Ok(()) => Ok(Ret::Next),
            Err(fault) => Err(fault),
        }
    }

    /// Stores registers `V0` up to `Vx` at the index register.
    fn dump(&self, x: u8, ram: &mut Ram) -> (r: Result<Ret, Fault>)
        requires
            self.wf(),
            x < 16,
        ensures
            !in_bounds(self@.i as int, x + 1) ==> r == Err::<Ret, Fault>(Fault::OutOfBounds)
                && final(ram)@ == old(ram)@,
            in_bounds(self@.i as int, x + 1) ==> r == Ok::<Ret, Fault>(Ret::Next) && final(ram)@
                == store(old(ram)@, self@.i as int, self@.v.take(x + 1)),
    {
        let head: &[u8] = slice_subrange(self.v.as_slice(), 0, idx(x) + 1);
        assert(head@ == self@.v.take(x + 1));
        match ram.write_range(self.i, head) {
            Ok(()) => Ok(Ret::Next),
            Err(fault) => Err(fault),
        }
    }

    /// Fills registers `V0` up to `Vx` from the index register.
    fn load(&mut self, x: u8, ram: &Ram) -> (r: Result<Ret, Fault>)
        requires
            old(self).wf(),
            x < 16,
        ensures
            final(self).wf(),
            !in_bounds(old(self)@.i as int, x + 1) ==> r == Err::<Ret, Fault>(Fault::OutOfBounds)
                && final(self)@ == old(self)@,
            in_bounds(old(self)@.i as int, x + 1) ==> r == Ok::<Ret, Fault>(Ret::Next) && final(self)@ == (CpuView {
                v: fill(old(self)@.v, ram@.subrange(old(self)@.i as int, old(self)@.i + x + 1)),
                ..old(self)@
            }),
    {
        broadcast use Ram::lemma_len;

        match ram.read_range(self.i, idx(x) + 1) {
            Ok(bytes) => {
                self.fill(bytes.as_slice());
                Ok(Ret::Next)
            },
            Err(fault) => Err(fault),
        }
    }

    /// Executes one decoded instruction, fetched at the program counter, and
    /// returns the effect owed to the program counter, which is itself left
    /// alone. A fault changes nothing.
    fn execute(
        &mut self,
        ins: Instruction,
        ram: &mut Ram,
        screen: &mut Screen,
        keypad: &Keypad,
        timers: &mut Timers,
        random: u8,
    ) -> (r: Result<Ret, Fault>)
        requires
            old(self).wf(),
            old(self)@.state == EngineState::Running,
            old(self)@.pc <= 4094,
            ins.wf(),
        ensures
            final(self).wf(),
            final(self)@.pc == old(self)@.pc,
            match execute(
                machine(*old(self), *old(ram), *old(screen), *keypad, *old(timers)),
                ins,
                random,
            ) {
                Ok((after, ret)) => r == Ok::<Ret, Fault>(ret) && machine(
                    *final(self),
                    *final(ram),
                    *final(screen),
                    *keypad,
                    *final(timers),
                ) == after,
                Err(fault) => r == Err::<Ret, Fault>(fault) && machine(
                    *final(self),
                    *final(ram),
                    *final(screen),
                    *keypad,
                    *final(timers),
                ) == machine(*old(self), *old(ram), *old(screen), *keypad, *old(timers)),
            },
    {
        broadcast use {Ram::lemma_len, Screen::lemma_len, Keypad::lemma_len};

        match ins {
            Instruction::ClearScreen => {
                screen.clear();
                Ok(Ret::Next)
            },
            Instruction::Return => {
                match self.pop() {
                    Ok(pc) => Ok(Ret::Jump(pc + 2)),
                    Err(fault) => Err(fault),
                }
            },
            Instruction::Jump { address } => Ok(Ret::Jump(address)),
            Instruction::Call { address } => {
                match self.push_pc() {
                    Ok(()) => Ok(Ret::Jump(address)),
                    Err(fault) => Err(fault),
                }
            },
            Instruction::SkipEqualImmediate { x, value } => {
                let vx: u8 = self.v[idx(x)];
                if vx == value {
                    Ok(Ret::Skip)
                } else {
                    Ok(Ret::Next)
                }
            },
            Instruction::SkipUnequalImmediate { x, value } => {
                let vx: u8 = self.v[idx(x)];
                if vx != value {
                    Ok(Ret::Skip)
                } else {
                    Ok(Ret::Next)
                }
            },
            Instruction::SkipEqual { x, y } => {
                let vx: u8 = self.v[idx(x)];
                let vy: u8 = self.v[idx(y)];
                if vx == vy {
                    Ok(Ret::Skip)
                } else {
                    Ok(Ret::Next)
                }
            },
            Instruction::SkipUnequal { x, y } => {
                let vx: u8 = self.v[idx(x)];
                let vy: u8 = self.v[idx(y)];
                if vx != vy {
                    Ok(Ret::Skip)
                } else {
                    Ok(Ret::Next)
                }
            },
            Instruction::LoadImmediate { x, value } => {
                self.set(x, value);
                Ok(Ret::Next)
            },
            Instruction::AddImmediate { x, value } => {
                let vx: u8 = self.v[idx(x)];
                self.set(x, vx.wrapping_add(value));
                Ok(Ret::Next)
            },
            Instruction::Arithmetic { op, x, y } => {
                match alu(op, self.v[idx(x)], self.v[idx(y)]) {
                    (Some(flag), value) => self.set_flagged(x, flag, value),
                    (None, value) => self.set(x, value),
                }
                Ok(Ret::Next)
            },
            Instruction::SetIndex { address } => {
                self.i = address;
                Ok(Ret::Next)
            },
            Instruction::JumpOffset { address } => Ok(Ret::Jump(address + self.v[0] as u16)),
            Instruction::Random { x, mask } => {
                self.set(x, random & mask);
                Ok(Ret::Next)
            },
            Instruction::Draw { x, y, rows } => self.draw(x, y, rows, ram, screen),
            Instruction::SkipKeyDown { x } => {
                let key: u8 = self.v[idx(x)] % 16;
                if keypad.is_down(key) {
                    Ok(Ret::Skip)
                } else {
                    Ok(Ret::Next)
                }
            },
            Instruction::SkipKeyUp { x } => {
                let key: u8 = self.v[idx(x)] % 16;
                if !keypad.is_down(key) {
                    Ok(Ret::Skip)
                } else {
                    Ok(Ret::Next)
                }
            },
            Instruction::ReadDelay { x } => {
                self.set(x, timers.delay());
                Ok(Ret::Next)
            },
            Instruction::AwaitKey { x } => {
                self.state = EngineState::AwaitingKey { x };
                Ok(Ret::Jump(self.pc))
            },
            Instruction::WriteDelay { x } => {
                timers.set_delay(self.v[idx(x)]);
                Ok(Ret::Next)
            },
            Instruction::WriteSound { x } => {
                timers.set_sound(self.v[idx(x)]);
                Ok(Ret::Next)
            },
            Instruction::AddIndex { x } => {
                self.i = self.i.wrapping_add(self.v[idx(x)] as u16);
                Ok(Ret::Next)
            },
            Instruction::Glyph { x } => {
                self.i = fontaddr(self.v[idx(x)]);
                Ok(Ret::Next)
            },
            Instruction::StoreBcd { x } => self.store_bcd(x, ram),
            Instruction::Dump { x } => self.dump(x, ram),
            Instruction::Load { x } => self.load(x, ram),
        }
    }

    /// Runs the engine for one tick.
    ///
    /// While a key is awaited, nothing happens. Otherwise the instruction
    /// word at the program counter is fetched, decoded and executed, and the
    /// program counter moves as the instruction asks. `random` is the byte
    /// that a random-and-mask instruction would take.
    ///
    /// A fault leaves everything as it was, so that ticking again meets the
    /// same fault: the run has halted.
    pub fn tick(
        &mut self,
        ram: &mut Ram,
        screen: &mut Screen,
        keypad: &Keypad,
        timers: &mut Timers,
        random: u8,
    ) -> (r: Result<(), Error>)
        requires
            old(self).wf(),
        ensures
            final(self).wf(),
            match step(
                machine(*old(self), *old(ram), *old(screen), *keypad, *old(timers)),
                random,
            ) {
                Ok(after) => r is Ok && machine(
                    *final(self),
                    *final(ram),
                    *final(screen),
                    *keypad,
                    *final(timers),
                ) == after,
                Err(error) => r == Err::<(), Error>(error) && machine(
                    *final(self),
                    *final(ram),
                    *final(screen),
                    *keypad,
                    *final(timers),
                ) == machine(*old(self), *old(ram), *old(screen), *keypad, *old(timers)),
            },
    {
        broadcast use Ram::lemma_len;

        match self.state {
            EngineState::AwaitingKey { x } => {
                return Ok(());
            },
            EngineState::Running => {},
        }
        let pc: u16 = self.pc;
        let hi: u8 = match ram.read_byte(pc) {
            Ok(byte) => byte,
            Err(fault) => {
                return Err(Error { fault, pc, opcode: 0 });
            },
        };
        let lo: u8 = match ram.read_byte(pc + 1) {
            Ok(byte) => byte,
            Err(fault) => {
                return Err(Error { fault, pc, opcode: 0 });
            },
        };
        let o1: u8 = hi >> 4;
        let o2: u8 = hi & 0xF;
        let o3: u8 = lo >> 4;
        let o4: u8 = lo & 0xF;
        let opcode: u16 = ((hi as u16) << 8) | lo as u16;
        proof {
            assert(hi >> 4 == hi / 16 && hi & 0xF == hi % 16) by (bit_vector);
            assert(lo >> 4 == lo / 16 && lo & 0xF == lo % 16) by (bit_vector);
            assert(((hi as u16) << 8) | lo as u16 == hi as u16 * 256 + lo as u16) by (bit_vector);
        }
        let ins: Instruction = match decode(o1, o2, o3, o4) {
            Some(ins) => ins,
            None => {
                return Err(Error { fault: Fault::UnmatchedOpcode, pc, opcode });
            },
        };
        match self.execute(ins, ram, screen, keypad, timers, random) {
            Ok(ret) => {
                self.pc = ret.apply(pc);
                Ok(())
            },
            Err(fault) => Err(Error { fault, pc, opcode }),
        }
    }
}

} // verus!
