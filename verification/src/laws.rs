//! Laws of the instruction set, proved of the model in [`crate::model`].
//!
//! Each law speaks of a machine that is running and has a given instruction
//! word at its program counter, and says what one step, or two, makes of it.
use vstd::prelude::*;
use crate::address::{absolute_address, immediate, is_nibble};
use crate::error::{Error, Fault};
use crate::instruction::{bit, spec_decode, Instruction};
use crate::model::{
    bcd,
    decode_word,
    execute,
    fetch,
    key_pressed,
    step,
    word,
    CpuView,
    EngineState,
    Machine,
    LAST_WORD,
};
use crate::ram::in_bounds;
use crate::ret::Ret;
use crate::screen::{blit, lemma_blit_len, lemma_blit_pixels, sprite_covers};

verus! {

/// The byte spelled by two nibbles, high nibble first.
pub open spec fn byte(high: u8, low: u8) -> u8 {
    immediate(high, low) as u8
}

/// Whether `m` is running with the instruction word `hi lo` at its program
/// counter.
pub open spec fn at_word(m: Machine, hi: u8, lo: u8) -> bool {
    m.cpu.state == EngineState::Running && fetch(m) == Some((hi, lo))
}

/// Whether `after` has every register of `before` but register `x`.
pub open spec fn same_registers_but(before: Machine, after: Machine, x: u8) -> bool {
    forall|j: int| 0 <= j < 16 && j != x ==> after.cpu.v[j] == before.cpu.v[j]
}

/// Load-immediate, `6xkk`, sets register `x` to exactly `k`, leaves every
/// other register alone and moves on to the next instruction.
pub proof fn law_load_immediate(m: Machine, x: u8, k: u8, random: u8)
    requires
        m.valid(),
        x < 16,
        at_word(m, byte(6, x), k),
    ensures
        step(m, random) == Ok::<Machine, Error>(m.set(x, k).set_pc((m.cpu.pc + 2) as u16)),
        step(m, random)->Ok_0.reg(x) == k,
        same_registers_but(m, step(m, random)->Ok_0, x),
{
}

/// Add-immediate, `7xkk`, sets register `x` to its value plus `k` modulo
/// 256 and leaves every other register alone, the flag register too.
pub proof fn law_add_immediate(m: Machine, x: u8, k: u8, random: u8)
    requires
        m.valid(),
        x < 16,
        at_word(m, byte(7, x), k),
    ensures
        step(m, random) is Ok,
        step(m, random)->Ok_0.reg(x) == (m.reg(x) + k) % 256,
        same_registers_but(m, step(m, random)->Ok_0, x),
        step(m, random)->Ok_0.cpu.pc == m.cpu.pc + 2,
{
}

/// Add-registers, `8xy4`, with a target other than the flag register: the
/// flag register becomes 1 if the sum of the two registers is above 255 and
/// 0 if not, and register `x` becomes the sum modulo 256.
pub proof fn law_add_registers(m: Machine, x: u8, y: u8, random: u8)
    requires
        m.valid(),
        x < 15,
        y < 16,
        at_word(m, byte(8, x), byte(y, 4)),
    ensures
        step(m, random) is Ok,
        step(m, random)->Ok_0.reg(15) == bit(m.reg(x) + m.reg(y) > 255),
        step(m, random)->Ok_0.reg(x) == (m.reg(x) + m.reg(y)) % 256,
        step(m, random)->Ok_0.cpu.pc == m.cpu.pc + 2,
{
}

/// Subtract, `8xy5`, with a target other than the flag register: the flag
/// register becomes 1 if register `x` is at least register `y`, so that
/// nothing is borrowed, and 0 if not; register `x` becomes the difference
/// modulo 256.
pub proof fn law_subtract(m: Machine, x: u8, y: u8, random: u8)
    requires
        m.valid(),
        x < 15,
        y < 16,
        at_word(m, byte(8, x), byte(y, 5)),
    ensures
        step(m, random) is Ok,
        step(m, random)->Ok_0.reg(15) == bit(m.reg(x) >= m.reg(y)),
        step(m, random)->Ok_0.reg(x) == (m.reg(x) - m.reg(y)) % 256,
        step(m, random)->Ok_0.cpu.pc == m.cpu.pc + 2,
{
}

/// Subtract in the other order, `8xy7`, with a target other than the flag
/// register: the flag register becomes 1 if register `y` is at least
/// register `x` and 0 if not; register `x` becomes register `y` less
/// register `x`, modulo 256.
pub proof fn law_subtract_from(m: Machine, x: u8, y: u8, random: u8)
    requires
        m.valid(),
        x < 15,
        y < 16,
        at_word(m, byte(8, x), byte(y, 7)),
    ensures
        step(m, random) is Ok,
        step(m, random)->Ok_0.reg(15) == bit(m.reg(y) >= m.reg(x)),
        step(m, random)->Ok_0.reg(x) == (m.reg(y) - m.reg(x)) % 256,
        step(m, random)->Ok_0.cpu.pc == m.cpu.pc + 2,
{
}

/// Shift-right, `8xy6`, with a target other than the flag register: the
/// flag register becomes the lowest bit that register `x` had, and register
/// `x` becomes its old value shifted right by one.
pub proof fn law_shift_right(m: Machine, x: u8, y: u8, random: u8)
    requires
        m.valid(),
        x < 15,
        y < 16,
        at_word(m, byte(8, x), byte(y, 6)),
    ensures
        step(m, random) is Ok,
        step(m, random)->Ok_0.reg(15) == m.reg(x) & 1,
        step(m, random)->Ok_0.reg(x) == m.reg(x) >> 1,
        step(m, random)->Ok_0.cpu.pc == m.cpu.pc + 2,
{
    let a = m.reg(x);
    assert(a & 1 == a % 2 && a >> 1 == a / 2) by (bit_vector);
}

/// Shift-left, `8xyE`, with a target other than the flag register: the flag
/// register becomes the highest bit that register `x` had, and register `x`
/// becomes its old value shifted left by one, the highest bit dropped.
pub proof fn law_shift_left(m: Machine, x: u8, y: u8, random: u8)
    requires
        m.valid(),
        x < 15,
        y < 16,
        at_word(m, byte(8, x), byte(y, 14)),
    ensures
        step(m, random) is Ok,
        step(m, random)->Ok_0.reg(15) == m.reg(x) >> 7,
        step(m, random)->Ok_0.reg(x) == (m.reg(x) * 2) % 256,
        step(m, random)->Ok_0.cpu.pc == m.cpu.pc + 2,
{
    let a = m.reg(x);
    assert(a >> 7 == a / 128) by (bit_vector);
}

/// A call, `2nnn`, to a return, `00EE`, comes back two bytes past the call:
/// after the two steps the program counter stands on the instruction after
/// the call, the same return slots are in use as before and hold what they
/// held, and the slot that the call took, free again, holds the place of
/// the call. Nothing else has changed.
pub proof fn law_call_then_return(m: Machine, n1: u8, kk: u8, random: u8)
    requires
        m.valid(),
        n1 < 16,
        at_word(m, byte(2, n1), kk),
        m.cpu.sp < 16,
        in_bounds(n1 * 256 + kk, 2),
        m.ram[n1 * 256 + kk] == 0x00,
        m.ram[n1 * 256 + kk + 1] == 0xEE,
    ensures
        step(m, random) is Ok,
        step(m, random)->Ok_0.cpu.pc == n1 * 256 + kk,
        step(step(m, random)->Ok_0, random) == Ok::<Machine, Error>(
            m.set_cpu(
                CpuView {
                    pc: (m.cpu.pc + 2) as u16,
                    slots: m.cpu.slots.update(m.cpu.sp as int, m.cpu.pc),
                    ..m.cpu
                },
            ),
        ),
        step(step(m, random)->Ok_0, random)->Ok_0.cpu.stack() == m.cpu.stack(),
{
    let called = step(m, random)->Ok_0;
    assert(called == m.set_cpu(m.cpu.push(m.cpu.pc)).set_pc((n1 * 256 + kk) as u16));
    assert(at_word(called, 0x00, 0xEE));
    assert(decode_word(0x00, 0xEE) == Some(Instruction::Return));
    let back = step(called, random)->Ok_0;
    assert(back.cpu.stack() =~= m.cpu.stack());
}

/// A return resumes two bytes past the call that filled the newest return
/// slot in use, whatever ran in between, and leaves in use the slots that
/// were in use before the call.
pub proof fn law_return_resumes_after_call(
    m: Machine,
    address: u16,
    between: Machine,
    random: u8,
)
    requires
        m.valid(),
        between.valid(),
        m.cpu.sp < 16,
        between.cpu.stack() == execute(m, Instruction::Call { address }, random)->Ok_0.0.cpu.stack(),
    ensures
        execute(m, Instruction::Call { address }, random) is Ok,
        execute(m, Instruction::Call { address }, random)->Ok_0.1 == Ret::Jump(address),
        execute(between, Instruction::Return, random) is Ok,
        execute(between, Instruction::Return, random)->Ok_0.1 == Ret::Jump(
            (m.cpu.pc + 2) as u16,
        ),
        execute(between, Instruction::Return, random)->Ok_0.0.cpu.stack() == m.cpu.stack(),
{
    let called = execute(m, Instruction::Call { address }, random)->Ok_0.0;
    assert(called.cpu.stack().len() == m.cpu.sp + 1);
    assert(between.cpu.stack().len() == between.cpu.sp);
    assert(between.cpu.stack()[m.cpu.sp as int] == called.cpu.stack()[m.cpu.sp as int]);
    let back = execute(between, Instruction::Return, random)->Ok_0.0;
    assert forall|k: int| 0 <= k < m.cpu.sp implies back.cpu.stack()[k] == m.cpu.stack()[k] by {
        assert(between.cpu.stack()[k] == called.cpu.stack()[k]);
    }
    assert(back.cpu.stack() =~= m.cpu.stack());
}

/// Register-load, `Fx65`, undoes register-dump, `Fx55`: after a dump of
/// registers `V0` to `Vx`, a load from a machine that has the memory and the
/// index register as the dump left them, whatever its registers hold by
/// then, gives registers `V0` to `Vx` the values they had at the dump.
pub proof fn law_dump_then_load(m: Machine, x: u8, later: Machine, random: u8)
    requires
        m.valid(),
        later.valid(),
        x < 16,
        in_bounds(m.cpu.i as int, x + 1),
        later.cpu.i == m.cpu.i,
        later.ram == execute(m, Instruction::Dump { x }, random)->Ok_0.0.ram,
    ensures
        execute(m, Instruction::Dump { x }, random) is Ok,
        execute(later, Instruction::Load { x }, random) is Ok,
        forall|j: int|
            0 <= j <= x ==> execute(later, Instruction::Load { x }, random)->Ok_0.0.cpu.v[j]
                == m.cpu.v[j],
        forall|j: int|
            x < j < 16 ==> execute(later, Instruction::Load { x }, random)->Ok_0.0.cpu.v[j]
                == later.cpu.v[j],
{
}

/// Register-dump and register-load as two steps in a row, `Fx55` then
/// `Fx65`: where the dump has not written over the load that follows it,
/// every register is after the two steps what it was before them.
pub proof fn law_dump_then_load_steps(m: Machine, x: u8, random: u8)
    requires
        m.valid(),
        x < 16,
        at_word(m, byte(15, x), 0x55),
        in_bounds(m.cpu.i as int, x + 1),
        at_word(step(m, random)->Ok_0, byte(15, x), 0x65),
    ensures
        step(m, random) is Ok,
        step(step(m, random)->Ok_0, random) is Ok,
        step(step(m, random)->Ok_0, random)->Ok_0.cpu.v == m.cpu.v,
        step(step(m, random)->Ok_0, random)->Ok_0.cpu.pc == m.cpu.pc + 4,
{
    let dumped = step(m, random)->Ok_0;
    assert(decode_word(byte(15, x), 0x55) == Some(Instruction::Dump { x }));
    assert(decode_word(byte(15, x), 0x65) == Some(Instruction::Load { x }));
    law_dump_then_load(m, x, dumped, random);
    let loaded = step(dumped, random)->Ok_0;
    assert(loaded.cpu.v =~= m.cpu.v);
}

/// Draw, `Dxyn`, with the sprite inside memory: each pixel under a set bit
/// of the sprite is flipped and no other; the flag register becomes 1 if
/// one of those pixels was on, and 0 if not.
pub proof fn law_draw(m: Machine, x: u8, y: u8, n: u8, random: u8)
    requires
        m.valid(),
        x < 16,
        y < 16,
        n < 16,
        at_word(m, byte(13, x), byte(y, n)),
        in_bounds(m.cpu.i as int, n as int),
    ensures
        step(m, random) is Ok,
        forall|p: int|
            0 <= p < 2048 ==> step(m, random)->Ok_0.screen[p] == (m.screen[p] != sprite_covers(
                m.reg(x) as int,
                m.reg(y) as int,
                m.ram.subrange(m.cpu.i as int, m.cpu.i + n),
                p,
            )),
        step(m, random)->Ok_0.reg(15) == bit(
            exists|p: int|
                0 <= p < 2048 && m.screen[p] && #[trigger] sprite_covers(
                    m.reg(x) as int,
                    m.reg(y) as int,
                    m.ram.subrange(m.cpu.i as int, m.cpu.i + n),
                    p,
                ),
        ),
        same_registers_but(m, step(m, random)->Ok_0, 15),
        step(m, random)->Ok_0.cpu.pc == m.cpu.pc + 2,
{
    let sprite = m.ram.subrange(m.cpu.i as int, m.cpu.i + n);
    assert(decode_word(byte(13, x), byte(y, n)) == Some(Instruction::Draw { x, y, rows: n }));
    lemma_blit_pixels(m.screen, m.reg(x) as int, m.reg(y) as int, sprite);
}

/// Drawing the same sprite of at most 32 rows twice at the same place gives
/// the screen back as it was.
pub proof fn law_blit_twice(g: Seq<bool>, x: int, y: int, rows: Seq<u8>)
    requires
        g.len() == 2048,
        rows.len() <= 32,
    ensures
        blit(blit(g, x, y, rows), x, y, rows) == g,
{
    lemma_blit_pixels(g, x, y, rows);
    lemma_blit_pixels(blit(g, x, y, rows), x, y, rows);
    assert(blit(blit(g, x, y, rows), x, y, rows) =~= g);
}

/// Store-bcd writes three decimal digits that spell the register's value.
pub proof fn law_bcd_digits(value: u8)
    ensures
        bcd(value).len() == 3,
        bcd(value)[0] <= 2 && bcd(value)[1] <= 9 && bcd(value)[2] <= 9,
        bcd(value)[0] * 100 + bcd(value)[1] * 10 + bcd(value)[2] == value,
{
}

/// A word that matches no pattern yields a fault: the step reports the
/// word and its place, and is never taken as an instruction to pass over.
pub proof fn law_unmatched_faults(m: Machine, hi: u8, lo: u8, random: u8)
    requires
        at_word(m, hi, lo),
        decode_word(hi, lo) is None,
    ensures
        step(m, random) == Err::<Machine, Error>(
            Error { fault: Fault::UnmatchedOpcode, pc: m.cpu.pc, opcode: word(hi, lo) },
        ),
{
}

/// The words that match no pattern, by their four nibbles: `5xyN` and
/// `9xyN` with `N` other than 0; `8xyN` with `N` from 8 to D, or F; `ExNN`
/// other than `Ex9E` and `ExA1`; and `FxNN` other than the nine `Fx`
/// instructions.
pub proof fn law_unmatched_words(hi: u8, lo: u8)
    ensures
        decode_word(hi, lo) is None <==> {
            let o1 = hi / 16;
            let o4 = lo % 16;
            ||| (o1 == 5 || o1 == 9) && o4 != 0
            ||| o1 == 8 && (8 <= o4 <= 13 || o4 == 15)
            ||| o1 == 14 && lo != 0x9E && lo != 0xA1
            ||| o1 == 15 && lo != 0x07 && lo != 0x0A && lo != 0x15 && lo != 0x18 && lo != 0x1E
                && lo != 0x29 && lo != 0x33 && lo != 0x55 && lo != 0x65
        },
{
}

/// Every instruction has a word: decoding the nibbles that spell an
/// instruction with operands in range gives that instruction back, so that
/// no two instructions share a pattern.
#[verifier::spinoff_prover]
pub proof fn law_decode_inverts_nibbles(ins: Instruction)
    requires
        ins.wf(),
    ensures
        ({
            let (o1, o2, o3, o4) = ins.nibbles();
            is_nibble(o1) && is_nibble(o2) && is_nibble(o3) && is_nibble(o4) && spec_decode(
                o1,
                o2,
                o3,
                o4,
            ) == Some(ins)
        }),
{
    let (o1, o2, o3, o4) = ins.nibbles();
    match ins {
        Instruction::Jump { address }
        | Instruction::Call { address }
        | Instruction::SetIndex { address }
        | Instruction::JumpOffset { address } => {
            assert(absolute_address(o2, o3, o4) == address);
        },
        Instruction::SkipEqualImmediate { x, value }
        | Instruction::SkipUnequalImmediate { x, value }
        | Instruction::LoadImmediate { x, value }
        | Instruction::AddImmediate { x, value } => {
            assert(immediate(o3, o4) == value);
        },
        Instruction::Random { x, mask } => {
            assert(immediate(o3, o4) == mask);
        },
        Instruction::Arithmetic { op, x, y } => {
            assert(o4 == op.selector());
        },
        _ => {},
    }
}

/// Every instruction that decodes has its operands in range.
pub proof fn law_decoded_operands(hi: u8, lo: u8)
    requires
        decode_word(hi, lo) is Some,
    ensures
        decode_word(hi, lo)->Some_0.wf(),
{
}

/// Executing an instruction that was fetched keeps a valid machine valid.
pub proof fn law_execute_keeps_valid(m: Machine, ins: Instruction, random: u8)
    requires
        m.valid(),
        ins.wf(),
        m.cpu.pc <= LAST_WORD,
        execute(m, ins, random) is Ok,
    ensures
        execute(m, ins, random)->Ok_0.0.valid(),
        execute(m, ins, random)->Ok_0.0.cpu.pc == m.cpu.pc,
        execute(m, ins, random)->Ok_0.0.cpu.state != m.cpu.state ==> execute(
            m,
            ins,
            random,
        )->Ok_0.1 == Ret::Jump(m.cpu.pc),
{
    let after = execute(m, ins, random)->Ok_0.0;
    match ins {
        Instruction::Draw { x, y, rows } => {
            let i = m.cpu.i as int;
            lemma_blit_len(m.screen, m.reg(x) as int, m.reg(y) as int, m.ram.subrange(i, i + rows));
        },
        _ => {},
    }
}

/// A step keeps a valid machine valid: in particular no more than sixteen
/// return slots are ever in use.
pub proof fn law_step_keeps_valid(m: Machine, random: u8)
    requires
        m.valid(),
        step(m, random) is Ok,
    ensures
        step(m, random)->Ok_0.valid(),
{
    if m.cpu.state == EngineState::Running {
        let (hi, lo) = fetch(m)->Some_0;
        law_decoded_operands(hi, lo);
        let ins = decode_word(hi, lo)->Some_0;
        law_execute_keeps_valid(m, ins, random);
        let (after, ret) = execute(m, ins, random)->Ok_0;
        let stepped = after.set_pc(ret.target(m.cpu.pc) as u16);
        assert(stepped.cpu.slots == after.cpu.slots && stepped.cpu.sp == after.cpu.sp);
    }
}

/// A fault halts the run: the faulting step changed nothing, and whether a
/// step faults, and how, does not hang on the random byte, so every later
/// step meets the same fault.
pub proof fn law_fault_halts(m: Machine, random: u8, later: u8)
    requires
        step(m, random) is Err,
    ensures
        step(m, later) == step(m, random),
{
}

/// While a key is awaited a step changes nothing, and the awaited key
/// press stores the key, moves past the awaiting instruction and sets the
/// engine running.
pub proof fn law_await_key(m: Machine, x: u8, key: u8, random: u8)
    requires
        m.valid(),
        x < 16,
        at_word(m, byte(15, x), 0x0A),
    ensures
        step(m, random) is Ok,
        step(m, random)->Ok_0 == (Machine {
            cpu: CpuView { state: EngineState::AwaitingKey { x }, ..m.cpu },
            ..m
        }),
        step(step(m, random)->Ok_0, random) == step(m, random),
        key_pressed(step(m, random)->Ok_0.cpu, key) == (CpuView {
            pc: (m.cpu.pc + 2) as u16,
            ..m.cpu.set(x, key)
        }),
{
}

} // verus!
