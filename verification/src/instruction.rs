//! The instruction set: what each 16-bit word asks for.
use vstd::prelude::*;
use crate::address::{absolute_address, addr, immediate, is_nibble, var};

verus! {

/// What an arithmetic instruction computes from `Vx` and `Vy`.
#[derive(Clone, Copy, Debug, PartialEq, Eq, Structural)]
pub enum Operation {
    /// `8xy0`: `Vy`.
    Assign,
    /// `8xy1`: `Vx | Vy`.
    Or,
    /// `8xy2`: `Vx & Vy`.
    And,
    /// `8xy3`: `Vx ^ Vy`.
    Xor,
    /// `8xy4`: `Vx + Vy`, wrapping; the flag tells of a carry.
    Add,
    /// `8xy5`: `Vx - Vy`, wrapping; the flag tells of no borrow.
    Subtract,
    /// `8xy6`: `Vx` halved; the flag takes the bit shifted out.
    ShiftRight,
    /// `8xy7`: `Vy - Vx`, wrapping; the flag tells of no borrow.
    SubtractFrom,
    /// `8xyE`: `Vx` doubled, wrapping; the flag takes the bit shifted out.
    ShiftLeft,
}

/// One for `true`, zero for `false`.
pub open spec fn bit(b: bool) -> u8 {
    if b {
        1
    } else {
        0
    }
}

/// The flag, where the operation sets one, and the value that `op` yields
/// on `a`, the value of `Vx`, and `b`, the value of `Vy`.
pub open spec fn spec_alu(op: Operation, a: u8, b: u8) -> (Option<u8>, u8) {
    match op {
        Operation::Assign => (None, b),
        Operation::Or => (None, a | b),
        Operation::And => (None, a & b),
        Operation::Xor => (None, a ^ b),
        Operation::Add => (Some(bit(a + b > 255)), ((a + b) % 256) as u8),
        Operation::Subtract => (Some(bit(a >= b)), ((a - b) % 256) as u8),
        Operation::ShiftRight => (Some(a % 2), a / 2),
        Operation::SubtractFrom => (Some(bit(b >= a)), ((b - a) % 256) as u8),
        Operation::ShiftLeft => (Some(a / 128), ((a * 2) % 256) as u8),
    }
}

/// Computes the flag, where the operation sets one, and the value of an
/// arithmetic instruction from the values of `Vx` and `Vy`.
#[verifier::when_used_as_spec(spec_alu)]
pub fn alu(op: Operation, a: u8, b: u8) -> (r: (Option<u8>, u8))
    ensures
        r == spec_alu(op, a, b),
{
    match op {
        Operation::Assign => (None, b),
        Operation::Or => (None, a | b),
        Operation::And => (None, a & b),
        Operation::Xor => (None, a ^ b),
        Operation::Add => {
            let sum: u16 = a as u16 + b as u16;
            assert(sum & 0xff == sum % 256) by (bit_vector);
            let carry: u8 = if sum > 0xff {
                1
            } else {
                0
            };
            (Some(carry), (sum & 0xff) as u8)
        },
        Operation::Subtract => {
            let no_borrow: u8 = if a >= b {
                1
            } else {
                0
            };
            (Some(no_borrow), a.wrapping_sub(b))
        },
        Operation::ShiftRight => {
            assert(a & 0x1 == a % 2 && a >> 1 == a / 2) by (bit_vector);
            (Some(a & 0x1), a >> 1)
        },
        Operation::SubtractFrom => {
            let no_borrow: u8 = if b >= a {
                1
            } else {
                0
            };
            (Some(no_borrow), b.wrapping_sub(a))
        },
        Operation::ShiftLeft => {
            assert(a >> 7 == a / 128) by (bit_vector);
            (Some(a >> 7), a.wrapping_mul(2))
        },
    }
}

/// One decoded instruction. `x` and `y` number registers, `V0` to `VF`.
#[derive(Clone, Copy, Debug, PartialEq, Eq, Structural)]
pub enum Instruction {
    /// `00E0`: turn every pixel off.
    ClearScreen,
    /// `00EE`: resume after the most recent call.
    Return,
    /// `0nnn` and `1nnn`: go on at `address`.
    Jump { address: u16 },
    /// `2nnn`: remember this instruction's place and go on at `address`.
    Call { address: u16 },
    /// `3xkk`: skip if `Vx` equals `value`.
    SkipEqualImmediate { x: u8, value: u8 },
    /// `4xkk`: skip if `Vx` differs from `value`.
    SkipUnequalImmediate { x: u8, value: u8 },
    /// `5xy0`: skip if `Vx` equals `Vy`.
    SkipEqual { x: u8, y: u8 },
    /// `6xkk`: `Vx` becomes `value`.
    LoadImmediate { x: u8, value: u8 },
    /// `7xkk`: `Vx` grows by `value`, wrapping, with no flag.
    AddImmediate { x: u8, value: u8 },
    /// `8xyN`: `Vx` becomes the outcome of `op` on `Vx` and `Vy`; some
    /// operations set the flag register as well.
    Arithmetic { op: Operation, x: u8, y: u8 },
    /// `9xy0`: skip if `Vx` differs from `Vy`.
    SkipUnequal { x: u8, y: u8 },
    /// `Annn`: the index register becomes `address`.
    SetIndex { address: u16 },
    /// `Bnnn`: go on at `address + V0`.
    JumpOffset { address: u16 },
    /// `Cxkk`: `Vx` becomes a random byte masked by `mask`.
    Random { x: u8, mask: u8 },
    /// `Dxyn`: draw the `rows`-byte sprite at the index register at `(Vx, Vy)`.
    Draw { x: u8, y: u8, rows: u8 },
    /// `Ex9E`: skip if the key named by `Vx` is down.
    SkipKeyDown { x: u8 },
    /// `ExA1`: skip if the key named by `Vx` is up.
    SkipKeyUp { x: u8 },
    /// `Fx07`: `Vx` becomes the delay timer's value.
    ReadDelay { x: u8 },
    /// `Fx0A`: wait for a key press and store the key in `Vx`.
    AwaitKey { x: u8 },
    /// `Fx15`: the delay timer becomes `Vx`.
    WriteDelay { x: u8 },
    /// `Fx18`: the sound timer becomes `Vx`.
    WriteSound { x: u8 },
    /// `Fx1E`: the index register grows by `Vx`.
    AddIndex { x: u8 },
    /// `Fx29`: the index register becomes the address of the glyph for `Vx`.
    Glyph { x: u8 },
    /// `Fx33`: store the decimal digits of `Vx` at the index register.
    StoreBcd { x: u8 },
    /// `Fx55`: store `V0` to `Vx` at the index register.
    Dump { x: u8 },
    /// `Fx65`: fill `V0` to `Vx` from the index register.
    Load { x: u8 },
}

impl Instruction {
    /// Whether every operand is in range: register numbers and row counts
    /// below 16, addresses below 4096.
    pub open spec fn wf(self) -> bool {
        match self {
            Instruction::ClearScreen | Instruction::Return => true,
            Instruction::Jump { address }
            | Instruction::Call { address }
            | Instruction::SetIndex { address }
            | Instruction::JumpOffset { address } => address < 4096,
            Instruction::SkipEqualImmediate { x, value }
            | Instruction::SkipUnequalImmediate { x, value }
            | Instruction::LoadImmediate { x, value }
            | Instruction::AddImmediate { x, value } => x < 16,
            Instruction::Random { x, mask } => x < 16,
            Instruction::SkipEqual { x, y } | Instruction::SkipUnequal { x, y } => x < 16 && y
                < 16,
            Instruction::Arithmetic { op, x, y } => x < 16 && y < 16,
            Instruction::Draw { x, y, rows } => x < 16 && y < 16 && rows < 16,
            Instruction::SkipKeyDown { x }
            | Instruction::SkipKeyUp { x }
            | Instruction::ReadDelay { x }
            | Instruction::AwaitKey { x }
            | Instruction::WriteDelay { x }
            | Instruction::WriteSound { x }
            | Instruction::AddIndex { x }
            | Instruction::Glyph { x }
            | Instruction::StoreBcd { x }
            | Instruction::Dump { x }
            | Instruction::Load { x } => x < 16,
        }
    }
}

impl Operation {
    /// The low nibble that selects this operation in an `8xyN` word.
    pub open spec fn selector(self) -> u8 {
        match self {
            Operation::Assign => 0x0,
            Operation::Or => 0x1,
            Operation::And => 0x2,
            Operation::Xor => 0x3,
            Operation::Add => 0x4,
            Operation::Subtract => 0x5,
            Operation::ShiftRight => 0x6,
            Operation::SubtractFrom => 0x7,
            Operation::ShiftLeft => 0xE,
        }
    }
}

impl Instruction {
    /// The four nibbles of a word that spells this instruction, most
    /// significant first. A jump is spelled `1nnn`.
    pub open spec fn nibbles(self) -> (u8, u8, u8, u8) {
        match self {
            Instruction::ClearScreen => (0x0, 0x0, 0xE, 0x0),
            Instruction::Return => (0x0, 0x0, 0xE, 0xE),
            Instruction::Jump { address } => with_address(0x1, address),
            Instruction::Call { address } => with_address(0x2, address),
            Instruction::SkipEqualImmediate { x, value } => (0x3, x, value / 16, value % 16),
            Instruction::SkipUnequalImmediate { x, value } => (0x4, x, value / 16, value % 16),
            Instruction::SkipEqual { x, y } => (0x5, x, y, 0x0),
            Instruction::LoadImmediate { x, value } => (0x6, x, value / 16, value % 16),
            Instruction::AddImmediate { x, value } => (0x7, x, value / 16, value % 16),
            Instruction::Arithmetic { op, x, y } => (0x8, x, y, op.selector()),
            Instruction::SkipUnequal { x, y } => (0x9, x, y, 0x0),
            Instruction::SetIndex { address } => with_address(0xA, address),
            Instruction::JumpOffset { address } => with_address(0xB, address),
            Instruction::Random { x, mask } => (0xC, x, mask / 16, mask % 16),
            Instruction::Draw { x, y, rows } => (0xD, x, y, rows),
            Instruction::SkipKeyDown { x } => (0xE, x, 0x9, 0xE),
            Instruction::SkipKeyUp { x } => (0xE, x, 0xA, 0x1),
            Instruction::ReadDelay { x } => (0xF, x, 0x0, 0x7),
            Instruction::AwaitKey { x } => (0xF, x, 0x0, 0xA),
            Instruction::WriteDelay { x } => (0xF, x, 0x1, 0x5),
            Instruction::WriteSound { x } => (0xF, x, 0x1, 0x8),
            Instruction::AddIndex { x } => (0xF, x, 0x1, 0xE),
            Instruction::Glyph { x } => (0xF, x, 0x2, 0x9),
            Instruction::StoreBcd { x } => (0xF, x, 0x3, 0x3),
            Instruction::Dump { x } => (0xF, x, 0x5, 0x5),
            Instruction::Load { x } => (0xF, x, 0x6, 0x5),
        }
    }
}

/// The nibbles of a word made of a leading nibble and a 12-bit address.
pub open spec fn with_address(o1: u8, address: u16) -> (u8, u8, u8, u8) {
    (o1, (address / 256) as u8, ((address / 16) % 16) as u8, (address % 16) as u8)
}

/// The instruction that the four nibbles of a word spell, most significant
/// nibble first, or `None` where they match no pattern.
pub open spec fn spec_decode(o1: u8, o2: u8, o3: u8, o4: u8) -> Option<Instruction> {
    let nnn = absolute_address(o2, o3, o4) as u16;
    let kk = immediate(o3, o4) as u8;
    match (o1, o2, o3, o4) {
        (0x0, 0x0, 0xE, 0x0) => Some(Instruction::ClearScreen),
        (0x0, 0x0, 0xE, 0xE) => Some(Instruction::Return),
        (0x0, _, _, _) => Some(Instruction::Jump { address: nnn }),
        (0x1, _, _, _) => Some(Instruction::Jump { address: nnn }),
        (0x2, _, _, _) => Some(Instruction::Call { address: nnn }),
        (0x3, x, _, _) => Some(Instruction::SkipEqualImmediate { x, value: kk }),
        (0x4, x, _, _) => Some(Instruction::SkipUnequalImmediate { x, value: kk }),
        (0x5, x, y, 0x0) => Some(Instruction::SkipEqual { x, y }),
        (0x6, x, _, _) => Some(Instruction::LoadImmediate { x, value: kk }),
        (0x7, x, _, _) => Some(Instruction::AddImmediate { x, value: kk }),
        (0x8, x, y, 0x0) => Some(Instruction::Arithmetic { op: Operation::Assign, x, y }),
        (0x8, x, y, 0x1) => Some(Instruction::Arithmetic { op: Operation::Or, x, y }),
        (0x8, x, y, 0x2) => Some(Instruction::Arithmetic { op: Operation::And, x, y }),
        (0x8, x, y, 0x3) => Some(Instruction::Arithmetic { op: Operation::Xor, x, y }),
        (0x8, x, y, 0x4) => Some(Instruction::Arithmetic { op: Operation::Add, x, y }),
        (0x8, x, y, 0x5) => Some(Instruction::Arithmetic { op: Operation::Subtract, x, y }),
        (0x8, x, y, 0x6) => Some(Instruction::Arithmetic { op: Operation::ShiftRight, x, y }),
        (0x8, x, y, 0x7) => Some(Instruction::Arithmetic { op: Operation::SubtractFrom, x, y }),
        (0x8, x, y, 0xE) => Some(Instruction::Arithmetic { op: Operation::ShiftLeft, x, y }),
        (0x9, x, y, 0x0) => Some(Instruction::SkipUnequal { x, y }),
        (0xA, _, _, _) => Some(Instruction::SetIndex { address: nnn }),
        (0xB, _, _, _) => Some(Instruction::JumpOffset { address: nnn }),
        (0xC, x, _, _) => Some(Instruction::Random { x, mask: kk }),
        (0xD, x, y, n) => Some(Instruction::Draw { x, y, rows: n }),
        (0xE, x, 0x9, 0xE) => Some(Instruction::SkipKeyDown { x }),
        (0xE, x, 0xA, 0x1) => Some(Instruction::SkipKeyUp { x }),
        (0xF, x, 0x0, 0x7) => Some(Instruction::ReadDelay { x }),
        (0xF, x, 0x0, 0xA) => Some(Instruction::AwaitKey { x }),
        (0xF, x, 0x1, 0x5) => Some(Instruction::WriteDelay { x }),
        (0xF, x, 0x1, 0x8) => Some(Instruction::WriteSound { x }),
        (0xF, x, 0x1, 0xE) => Some(Instruction::AddIndex { x }),
        (0xF, x, 0x2, 0x9) => Some(Instruction::Glyph { x }),
        (0xF, x, 0x3, 0x3) => Some(Instruction::StoreBcd { x }),
        (0xF, x, 0x5, 0x5) => Some(Instruction::Dump { x }),
        (0xF, x, 0x6, 0x5) => Some(Instruction::Load { x }),
        _ => None,
    }
}

/// Decodes the four nibbles of an instruction word.
#[verifier::when_used_as_spec(spec_decode)]
pub fn decode(o1: u8, o2: u8, o3: u8, o4: u8) -> (r: Option<Instruction>)
    requires
        is_nibble(o1),
        is_nibble(o2),
        is_nibble(o3),
        is_nibble(o4),
    ensures
        r == spec_decode(o1, o2, o3, o4),
        r matches Some(ins) ==> ins.wf(),
{
    match (o1, o2, o3, o4) {
        (0x0, 0x0, 0xE, 0x0) => Some(Instruction::ClearScreen),
        (0x0, 0x0, 0xE, 0xE) => Some(Instruction::Return),
        (0x0, n1, n2, n3) => Some(Instruction::Jump { address: addr(n1, n2, n3) }),
        (0x1, n1, n2, n3) => Some(Instruction::Jump { address: addr(n1, n2, n3) }),
        (0x2, n1, n2, n3) => Some(Instruction::Call { address: addr(n1, n2, n3) }),
        (0x3, x, k1, k2) => Some(Instruction::SkipEqualImmediate { x, value: var(k1, k2) }),
        (0x4, x, k1, k2) => Some(Instruction::SkipUnequalImmediate { x, value: var(k1, k2) }),
        (0x5, x, y, 0x0) => Some(Instruction::SkipEqual { x, y }),
        (0x6, x, k1, k2) => Some(Instruction::LoadImmediate { x, value: var(k1, k2) }),
        (0x7, x, k1, k2) => Some(Instruction::AddImmediate { x, value: var(k1, k2) }),
        (0x8, x, y, 0x0) => Some(Instruction::Arithmetic { op: Operation::Assign, x, y }),
        (0x8, x, y, 0x1) => Some(Instruction::Arithmetic { op: Operation::Or, x, y }),
        (0x8, x, y, 0x2) => Some(Instruction::Arithmetic { op: Operation::And, x, y }),
        (0x8, x, y, 0x3) => Some(Instruction::Arithmetic { op: Operation::Xor, x, y }),
        (0x8, x, y, 0x4) => Some(Instruction::Arithmetic { op: Operation::Add, x, y }),
        (0x8, x, y, 0x5) => Some(Instruction::Arithmetic { op: Operation::Subtract, x, y }),
        (0x8, x, y, 0x6) => Some(Instruction::Arithmetic { op: Operation::ShiftRight, x, y }),
        (0x8, x, y, 0x7) => Some(Instruction::Arithmetic { op: Operation::SubtractFrom, x, y }),
        (0x8, x, y, 0xE) => Some(Instruction::Arithmetic { op: Operation::ShiftLeft, x, y }),
        (0x9, x, y, 0x0) => Some(Instruction::SkipUnequal { x, y }),
        (0xA, n1, n2, n3) => Some(Instruction::SetIndex { address: addr(n1, n2, n3) }),
        (0xB, n1, n2, n3) => Some(Instruction::JumpOffset { address: addr(n1, n2, n3) }),
        (0xC, x, k1, k2) => Some(Instruction::Random { x, mask: var(k1, k2) }),
        (0xD, x, y, n) => Some(Instruction::Draw { x, y, rows: n }),
        (0xE, x, 0x9, 0xE) => Some(Instruction::SkipKeyDown { x }),
        (0xE, x, 0xA, 0x1) => Some(Instruction::SkipKeyUp { x }),
        (0xF, x, 0x0, 0x7) => Some(Instruction::ReadDelay { x }),
        (0xF, x, 0x0, 0xA) => Some(Instruction::AwaitKey { x }),
        (0xF, x, 0x1, 0x5) => Some(Instruction::WriteDelay { x }),
        (0xF, x, 0x1, 0x8) => Some(Instruction::WriteSound { x }),
        (0xF, x, 0x1, 0xE) => Some(Instruction::AddIndex { x }),
        (0xF, x, 0x2, 0x9) => Some(Instruction::Glyph { x }),
        (0xF, x, 0x3, 0x3) => Some(Instruction::StoreBcd { x }),
        (0xF, x, 0x5, 0x5) => Some(Instruction::Dump { x }),
        (0xF, x, 0x6, 0x5) => Some(Instruction::Load { x }),
        _ => None,
    }
}

} // verus!
