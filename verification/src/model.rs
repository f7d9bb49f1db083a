//! The machine as a mathematical value, and what one step does to it.
//!
//! The contracts of the executable types speak of the functions here:
//! `execute` says what each instruction does, `step` what one tick of the
//! engine does, and `key_pressed` what a key event does.
use vstd::prelude::*;
use crate::address::glyph_address;
use crate::error::{Error, Fault};
use crate::instruction::{bit, spec_alu, spec_decode, Instruction};
use crate::ram::{in_bounds, store};
use crate::ret::Ret;
use crate::screen::{blit, collides, dark};
use crate::timers::Timers;

verus! {

/// What the engine is doing between two ticks.
#[derive(Clone, Copy, Debug, PartialEq, Eq, Structural)]
pub enum EngineState {
    /// Each tick executes one instruction.
    Running,
    /// Ticks do nothing until a key press arrives, which goes to register `x`.
    AwaitingKey { x: u8 },
}

/// The number of the flag register, `VF`.
pub const FLAG: u8 = 15;

/// The highest address at which a whole instruction word can lie.
pub const LAST_WORD: u16 = 4094;

/// The processor as a value.
#[verifier::ext_equal]
pub struct CpuView {
    /// The sixteen general registers, `V0` first.
    pub v: Seq<u8>,
    /// The index register.
    pub i: u16,
    /// The program counter.
    pub pc: u16,
    /// The stack pointer: the number of return slots in use.
    pub sp: u8,
    /// All sixteen return slots. Those in use come first, the oldest first;
    /// the others keep whatever was last written to them.
    pub slots: Seq<u16>,
    /// Whether the engine runs or waits for a key.
    pub state: EngineState,
}

impl CpuView {
    /// What holds of every processor: sixteen registers and sixteen return
    /// slots; a stack pointer of at most sixteen; in each slot in use the
    /// place of a call instruction; and, while a key is awaited, a program
    /// counter that still stands on the awaiting instruction.
    pub open spec fn valid(self) -> bool {
        &&& self.v.len() == 16
        &&& self.slots.len() == 16
        &&& self.sp <= 16
        &&& forall|k: int| 0 <= k < self.sp ==> self.slots[k] <= LAST_WORD
        &&& self.state matches EngineState::AwaitingKey { x } ==> x < 16 && self.pc <= LAST_WORD
    }

    /// The return slots in use, the oldest first.
    pub open spec fn stack(self) -> Seq<u16> {
        self.slots.take(self.sp as int)
    }

    /// What the newest return slot in use holds.
    pub open spec fn top(self) -> u16 {
        self.slots[self.sp - 1]
    }

    /// The processor after `value` is written to the first free return slot
    /// and the stack pointer moved up.
    pub open spec fn push(self, value: u16) -> CpuView {
        CpuView { sp: (self.sp + 1) as u8, slots: self.slots.update(self.sp as int, value), ..self }
    }

    /// The processor after the stack pointer is moved down. The slot that
    /// falls free keeps what it held.
    pub open spec fn pop(self) -> CpuView {
        CpuView { sp: (self.sp - 1) as u8, ..self }
    }

    /// The processor with register `x` set to `value`.
    pub open spec fn set(self, x: u8, value: u8) -> CpuView {
        CpuView { v: self.v.update(x as int, value), ..self }
    }

    /// The processor after the flag register is set to `flag` and then
    /// register `x` to `value`: where `x` is the flag register itself, the
    /// value is what stays.
    pub open spec fn set_flagged(self, x: u8, flag: u8, value: u8) -> CpuView {
        self.set(FLAG, flag).set(x, value)
    }
}

/// The whole machine as a value: the processor and all it can touch.
#[verifier::ext_equal]
pub struct Machine {
    /// The processor.
    pub cpu: CpuView,
    /// The 4096 bytes of memory.
    pub ram: Seq<u8>,
    /// The 2048 pixels, row by row.
    pub screen: Seq<bool>,
    /// The sixteen keys, `true` while held down.
    pub keys: Seq<bool>,
    /// The delay and sound timers.
    pub timers: Timers,
}

/// `Skip` where the condition holds, else `Next`.
pub open spec fn skip_if(condition: bool) -> Ret {
    if condition {
        Ret::Skip
    } else {
        Ret::Next
    }
}

/// The hundreds, tens and ones of `value`.
pub open spec fn bcd(value: u8) -> Seq<u8> {
    seq![value / 100, (value / 10) % 10, value % 10]
}

/// `v` with its first `bytes.len()` registers replaced by `bytes`.
pub open spec fn fill(v: Seq<u8>, bytes: Seq<u8>) -> Seq<u8> {
    Seq::new(
        v.len(),
        |j: int|
            if j < bytes.len() {
                bytes[j]
            } else {
                v[j]
            },
    )
}

impl Machine {
    /// What holds of every machine: a valid processor, 4096 bytes, 2048
    /// pixels and sixteen keys.
    pub open spec fn valid(self) -> bool {
        &&& self.cpu.valid()
        &&& self.ram.len() == 4096
        &&& self.screen.len() == 2048
        &&& self.keys.len() == 16
    }

    /// The value of register `x`.
    pub open spec fn reg(self, x: u8) -> u8 {
        self.cpu.v[x as int]
    }

    /// The machine with register `x` set to `value`.
    pub open spec fn set(self, x: u8, value: u8) -> Machine {
        Machine { cpu: self.cpu.set(x, value), ..self }
    }

    /// The machine with the flag register set to `flag` and then register
    /// `x` to `value`.
    pub open spec fn set_flagged(self, x: u8, flag: u8, value: u8) -> Machine {
        Machine { cpu: self.cpu.set_flagged(x, flag, value), ..self }
    }

    /// The machine with the index register set to `i`.
    pub open spec fn set_index(self, i: u16) -> Machine {
        Machine { cpu: CpuView { i, ..self.cpu }, ..self }
    }

    /// The machine with `cpu` as its processor.
    pub open spec fn set_cpu(self, cpu: CpuView) -> Machine {
        Machine { cpu, ..self }
    }

    /// The machine with its program counter set to `pc`.
    pub open spec fn set_pc(self, pc: u16) -> Machine {
        Machine { cpu: CpuView { pc, ..self.cpu }, ..self }
    }
}

/// What executing `ins` does: the machine after it, program counter
/// untouched, and the effect that the program counter is owed; or the fault
/// that stops it, in which case nothing changes.
///
/// Instructions that set the flag register write the flag first and the
/// result second, both computed from the registers as they were. An
/// instruction that awaits a key asks for a jump to itself: the program
/// counter stays on it until the key press moves it on.
pub open spec fn execute(m: Machine, ins: Instruction, random: u8) -> Result<(Machine, Ret), Fault> {
    let i = m.cpu.i as int;
    match ins {
        Instruction::ClearScreen => Ok((Machine { screen: dark(), ..m }, Ret::Next)),
        Instruction::Return => if m.cpu.sp == 0 {
            Err(Fault::StackUnderflow)
        } else {
            Ok((m.set_cpu(m.cpu.pop()), Ret::Jump((m.cpu.top() + 2) as u16)))
        },
        Instruction::Jump { address } => Ok((m, Ret::Jump(address))),
        Instruction::Call { address } => if m.cpu.sp >= 16 {
            Err(Fault::StackOverflow)
        } else {
            Ok((m.set_cpu(m.cpu.push(m.cpu.pc)), Ret::Jump(address)))
        },
        Instruction::SkipEqualImmediate { x, value } => Ok((m, skip_if(m.reg(x) == value))),
        Instruction::SkipUnequalImmediate { x, value } => Ok((m, skip_if(m.reg(x) != value))),
        Instruction::SkipEqual { x, y } => Ok((m, skip_if(m.reg(x) == m.reg(y)))),
        Instruction::SkipUnequal { x, y } => Ok((m, skip_if(m.reg(x) != m.reg(y)))),
        Instruction::LoadImmediate { x, value } => Ok((m.set(x, value), Ret::Next)),
        Instruction::AddImmediate { x, value } => Ok(
            (m.set(x, ((m.reg(x) + value) % 256) as u8), Ret::Next),
        ),
        Instruction::Arithmetic { op, x, y } => match spec_alu(op, m.reg(x), m.reg(y)) {
            (Some(flag), value) => Ok((m.set_flagged(x, flag, value), Ret::Next)),
            (None, value) => Ok((m.set(x, value), Ret::Next)),
        },
        Instruction::SetIndex { address } => Ok((m.set_index(address), Ret::Next)),
        Instruction::JumpOffset { address } => Ok((m, Ret::Jump((address + m.reg(0)) as u16))),
        Instruction::Random { x, mask } => Ok((m.set(x, random & mask), Ret::Next)),
        Instruction::Draw { x, y, rows } => if !in_bounds(i, rows as int) {
            Err(Fault::OutOfBounds)
        } else {
            let sprite = m.ram.subrange(i, i + rows);
            let (left, top) = (m.reg(x) as int, m.reg(y) as int);
            Ok(
                (
                    Machine {
                        screen: blit(m.screen, left, top, sprite),
                        ..m.set(FLAG, bit(collides(m.screen, left, top, sprite)))
                    },
                    Ret::Next,
                ),
            )
        },
        Instruction::SkipKeyDown { x } => Ok((m, skip_if(m.keys[(m.reg(x) % 16) as int]))),
        Instruction::SkipKeyUp { x } => Ok((m, skip_if(!m.keys[(m.reg(x) % 16) as int]))),
        Instruction::ReadDelay { x } => Ok((m.set(x, m.timers.delay), Ret::Next)),
        Instruction::AwaitKey { x } => Ok(
            (
                Machine { cpu: CpuView { state: EngineState::AwaitingKey { x }, ..m.cpu }, ..m },
                Ret::Jump(m.cpu.pc),
            ),
        ),
        Instruction::WriteDelay { x } => Ok(
            (Machine { timers: Timers { delay: m.reg(x), ..m.timers }, ..m }, Ret::Next),
        ),
        Instruction::WriteSound { x } => Ok(
            (Machine { timers: Timers { sound: m.reg(x), ..m.timers }, ..m }, Ret::Next),
        ),
        Instruction::AddIndex { x } => Ok(
            (m.set_index(((i + m.reg(x)) % 0x1_0000) as u16), Ret::Next),
        ),
        Instruction::Glyph { x } => Ok((m.set_index(glyph_address(m.reg(x)) as u16), Ret::Next)),
        Instruction::StoreBcd { x } => if !in_bounds(i, 3) {
            Err(Fault::OutOfBounds)
        } else {
            Ok((Machine { ram: store(m.ram, i, bcd(m.reg(x))), ..m }, Ret::Next))
        },
        Instruction::Dump { x } => if !in_bounds(i, x + 1) {
            Err(Fault::OutOfBounds)
        } else {
            Ok((Machine { ram: store(m.ram, i, m.cpu.v.take(x + 1)), ..m }, Ret::Next))
        },
        Instruction::Load { x } => if !in_bounds(i, x + 1) {
            Err(Fault::OutOfBounds)
        } else {
            Ok(
                (
                    Machine {
                        cpu: CpuView { v: fill(m.cpu.v, m.ram.subrange(i, i + x + 1)), ..m.cpu },
                        ..m
                    },
                    Ret::Next,
                ),
            )
        },
    }
}

/// The instruction word at the program counter, high byte first, or `None`
/// where the word does not lie inside memory.
pub open spec fn fetch(m: Machine) -> Option<(u8, u8)> {
    let pc = m.cpu.pc as int;
    if in_bounds(pc, 2) {
        Some((m.ram[pc], m.ram[pc + 1]))
    } else {
        None
    }
}

/// The two bytes of an instruction word as one number.
pub open spec fn word(hi: u8, lo: u8) -> u16 {
    (hi * 256 + lo) as u16
}

/// The instruction that the word `hi lo` spells.
pub open spec fn decode_word(hi: u8, lo: u8) -> Option<Instruction> {
    spec_decode(hi / 16, hi % 16, lo / 16, lo % 16)
}

/// One tick of the engine. While a key is awaited nothing happens.
/// Otherwise the word at the program counter is fetched, decoded and
/// executed, and its effect applied to the program counter. A fault leaves
/// the machine as it was and is reported with the program counter and the
/// word, the word being zero where none could be fetched.
pub open spec fn step(m: Machine, random: u8) -> Result<Machine, Error> {
    let pc = m.cpu.pc;
    if m.cpu.state != EngineState::Running {
        Ok(m)
    } else {
        match fetch(m) {
            None => Err(Error { fault: Fault::OutOfBounds, pc, opcode: 0 }),
            Some((hi, lo)) => match decode_word(hi, lo) {
                None => Err(Error { fault: Fault::UnmatchedOpcode, pc, opcode: word(hi, lo) }),
                Some(ins) => match execute(m, ins, random) {
                    Err(fault) => Err(Error { fault, pc, opcode: word(hi, lo) }),
                    Ok((after, ret)) => Ok(after.set_pc(ret.target(pc) as u16)),
                },
            },
        }
    }
}

/// What a key press does to the processor: while a key is awaited, the key
/// goes to the awaiting register, the program counter moves past the
/// awaiting instruction, and the engine runs again; otherwise nothing.
pub open spec fn key_pressed(cpu: CpuView, key: u8) -> CpuView {
    match cpu.state {
        EngineState::AwaitingKey { x } => CpuView {
            pc: (cpu.pc + 2) as u16,
            state: EngineState::Running,
            ..cpu.set(x, key)
        },
        EngineState::Running => cpu,
    }
}

} // verus!
