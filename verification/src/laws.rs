//! Laws of the instruction set, proved of the semantics that the
//! processor implements.

use vstd::prelude::*;
use crate::fault::Fault;
use crate::font::{FONTSET, FONT_SIZE};
use crate::instruction::{decode_spec, AluOp, Instruction};
use crate::machine::{Machine, FLAG, KEY_LENGTH, RAM_SIZE, REG_LENGTH, STACK_SIZE};
use crate::semantics::{
    any_pressed, can_fetch, draws_random, fetched, is_lowest_pressed, lowest_pressed,
    run, step, word_at,
};

verus! {

/// The instruction that the next cycle of `m` carries out, if the word at
/// the program counter can be read and is one.
pub open spec fn next_instruction(m: Machine) -> Option<Instruction> {
    if can_fetch(m) {
        decode_spec(word_at(m.memory, m.program_counter as int))
    } else {
        None
    }
}

/// The initial machine is well formed, with the font at the start of
/// memory and every other byte zero.
pub proof fn law_initial_machine(a: int)
    requires
        0 <= a < RAM_SIZE,
    ensures
        Machine::initial().wf(),
        a < FONT_SIZE ==> Machine::initial().memory[a] == FONTSET@[a],
        a >= FONT_SIZE ==> Machine::initial().memory[a] == 0,
{
}

/// A cycle of a well-formed machine leaves it well formed: every buffer
/// keeps its size and the stack never holds more than sixteen addresses.
pub proof fn law_step_keeps_well_formed(m: Machine, random: u8)
    requires
        m.wf(),
        step(m, random) is Ok,
    ensures
        step(m, random)->Ok_0.wf(),
{
}

/// Only a `Random` instruction looks at the random byte.
pub proof fn law_random_byte_only_for_random(m: Machine, first: u8, second: u8)
    requires
        !draws_random(m),
    ensures
        step(m, first) == step(m, second),
{
}

/// A cycle on `7XNN` adds modulo 256 and leaves every other register,
/// the flag included, as it was.
pub proof fn law_add_immediate_wraps(m: Machine, x: usize, nn: u8, random: u8)
    requires
        m.wf(),
        next_instruction(m) == Some(Instruction::AddImm { x, nn }),
    ensures
        step(m, random) is Ok,
        ({
            let next = step(m, random)->Ok_0;
            &&& next.v[x as int] == (m.v[x as int] + nn) % 256
            &&& forall|i: int| 0 <= i < REG_LENGTH && i != x ==> next.v[i] == m.v[i]
            &&& next == Machine { v: next.v, ..fetched(m) }
        }),
{
}

/// A cycle on `8XY4`, `8XY5` or `8XY7` leaves in `V[x]` the sum
/// `V[x] + V[y]`, the difference `V[x] - V[y]` or the difference
/// `V[y] - V[x]`, modulo 256. The flag register becomes 1 if the sum does
/// not fit in a byte, respectively if the difference is not negative, and
/// 0 otherwise; where `x` is the flag register, the flag is what stays.
pub proof fn law_arithmetic_wraps_and_flags(m: Machine, op: AluOp, x: usize, y: usize, random: u8)
    requires
        m.wf(),
        next_instruction(m) == Some(Instruction::Alu { op, x, y }),
        op == AluOp::Add || op == AluOp::Sub || op == AluOp::SubFrom,
    ensures
        step(m, random) is Ok,
        ({
            let next = step(m, random)->Ok_0;
            let exact = if op == AluOp::Add {
                m.v[x as int] + m.v[y as int]
            } else if op == AluOp::Sub {
                m.v[x as int] - m.v[y as int]
            } else {
                m.v[y as int] - m.v[x as int]
            };
            let flag = if op == AluOp::Add {
                exact > 255
            } else {
                exact >= 0
            };
            &&& x != FLAG ==> next.v[x as int] == exact % 256
            &&& next.v[FLAG as int] == if flag { 1int } else { 0int }
            &&& forall|i: int| 0 <= i < REG_LENGTH && i != x && i != FLAG ==> next.v[i] == m.v[i]
            &&& next == Machine { v: next.v, ..fetched(m) }
        }),
{
}

/// A cycle on `8XY6` or `8XYE` sets the flag register to the bit that the
/// shift drops, the lowest respectively the highest bit of `V[x]` as it
/// was, whatever becomes of `V[x]`; where `x` is not the flag register,
/// `V[x]` is halved, respectively doubled modulo 256.
pub proof fn law_shift_flags_dropped_bit(m: Machine, op: AluOp, x: usize, y: usize, random: u8)
    requires
        m.wf(),
        next_instruction(m) == Some(Instruction::Alu { op, x, y }),
        op == AluOp::ShiftRight || op == AluOp::ShiftLeft,
    ensures
        step(m, random) is Ok,
        ({
            let next = step(m, random)->Ok_0;
            let value = m.v[x as int];
            &&& op == AluOp::ShiftRight ==> next.v[FLAG as int] == value % 2
            &&& op == AluOp::ShiftLeft ==> next.v[FLAG as int] == value / 128
            &&& op == AluOp::ShiftRight && x != FLAG ==> next.v[x as int] == value / 2
            &&& op == AluOp::ShiftLeft && x != FLAG ==> next.v[x as int] == (value * 2) % 256
            &&& forall|i: int| 0 <= i < REG_LENGTH && i != x && i != FLAG ==> next.v[i] == m.v[i]
            &&& next == Machine { v: next.v, ..fetched(m) }
        }),
{
}

/// Whether `ins` is one of the six skip instructions.
pub open spec fn is_skip(ins: Instruction) -> bool {
    match ins {
        Instruction::SkipEqImm { .. }
        | Instruction::SkipNeImm { .. }
        | Instruction::SkipEqReg { .. }
        | Instruction::SkipNeReg { .. }
        | Instruction::SkipKeyDown { .. }
        | Instruction::SkipKeyUp { .. } => true,
        _ => false,
    }
}

/// The condition on which the skip instruction `ins` skips.
pub open spec fn skip_condition(m: Machine, ins: Instruction) -> bool {
    match ins {
        Instruction::SkipEqImm { x, nn } => m.v[x as int] == nn,
        Instruction::SkipNeImm { x, nn } => m.v[x as int] != nn,
        Instruction::SkipEqReg { x, y } => m.v[x as int] == m.v[y as int],
        Instruction::SkipNeReg { x, y } => m.v[x as int] != m.v[y as int],
        Instruction::SkipKeyDown { x } => m.keys[m.v[x as int] as int],
        Instruction::SkipKeyUp { x } => !m.keys[m.v[x as int] as int],
        _ => false,
    }
}

/// A cycle on a skip instruction moves the program counter by exactly 4
/// if the instruction's condition holds and by exactly 2 if not, and
/// changes nothing else.
pub proof fn law_skip_advances_by_four_or_two(m: Machine, ins: Instruction, random: u8)
    requires
        m.wf(),
        next_instruction(m) == Some(ins),
        is_skip(ins),
        step(m, random) is Ok,
    ensures
        step(m, random)->Ok_0 == (Machine {
            program_counter: (m.program_counter + if skip_condition(m, ins) {
                4int
            } else {
                2int
            }) as u16,
            ..m
        }),
        step(m, random)->Ok_0.program_counter == m.program_counter + if skip_condition(m, ins) {
            4int
        } else {
            2int
        },
{
}

/// A key skip faults exactly when the register holds no key number; the
/// other skips never fault.
pub proof fn law_skip_faults_only_on_bad_key(m: Machine, ins: Instruction, random: u8)
    requires
        m.wf(),
        next_instruction(m) == Some(ins),
        is_skip(ins),
    ensures
        step(m, random) is Err <==> match ins {
            Instruction::SkipKeyDown { x } | Instruction::SkipKeyUp { x } => m.v[x as int]
                >= KEY_LENGTH,
            _ => false,
        },
{
}

/// Drawing a sprite a second time at the same place undoes the first
/// draw: after two cycles on the same `DXYN` the screen is as it was
/// before the first. The second draw sets the flag register to 1 exactly
/// if the sprite has a pixel on a cell that is lit after the first draw,
/// which is a cell that the first draw lit.
///
/// The place is the same if the first draw leaves `V[x]` and `V[y]` as
/// they were, as it does unless one of them is the flag register.
pub proof fn law_draw_twice_restores(m: Machine, x: usize, y: usize, rows: usize, random: u8)
    requires
        m.wf(),
        next_instruction(m) == Some(Instruction::Draw { x, y, rows }),
        step(m, random) matches Ok(first) && {
            &&& next_instruction(first) == Some(Instruction::Draw { x, y, rows })
            &&& first.v[x as int] == m.v[x as int]
            &&& first.v[y as int] == m.v[y as int]
        },
    ensures
        ({
            let sprite = m.sprite(x as int, y as int, rows as int);
            let first = step(m, random)->Ok_0;
            &&& step(first, random) matches Ok(second) && {
                &&& second.display == m.display
                &&& second.v[FLAG as int] == 0 || second.v[FLAG as int] == 1
                &&& second.v[FLAG as int] == 1 <==> exists|p: int|
                    0 <= p < first.display.len() && first.display[p]
                        && #[trigger] sprite.covers_cell(p)
                &&& second.v[FLAG as int] == 1 <==> exists|p: int|
                    0 <= p < m.display.len() && !m.display[p] && #[trigger] sprite.covers_cell(p)
            }
        }),
{
    let sprite = m.sprite(x as int, y as int, rows as int);
    let first = step(m, random)->Ok_0;
    assert(fetched(first).sprite(x as int, y as int, rows as int) == sprite);
    let second = step(first, random)->Ok_0;
    assert(second.display =~= m.display);
    if sprite.collides_with(first.display) {
        let p = choose|p: int|
            0 <= p < first.display.len() && first.display[p] && #[trigger] sprite.covers_cell(p);
        assert(!m.display[p] && sprite.covers_cell(p));
    }
    if exists|p: int| 0 <= p < m.display.len() && !m.display[p] && #[trigger] sprite.covers_cell(p) {
        let p = choose|p: int|
            0 <= p < m.display.len() && !m.display[p] && #[trigger] sprite.covers_cell(p);
        assert(first.display[p] && sprite.covers_cell(p));
    }
}

/// While no key is held down, cycles on a waiting `FX0A` change nothing:
/// after any number of them the machine, its program counter and `V[x]`
/// included, is as it was.
pub proof fn law_wait_key_blocks(m: Machine, x: usize, randoms: Seq<u8>)
    requires
        m.wf(),
        next_instruction(m) == Some(Instruction::WaitKey { x }),
        !any_pressed(m.keys),
    ensures
        run(m, randoms) == Ok::<Machine, Fault>(m),
    decreases randoms.len(),
{
    if randoms.len() > 0 {
        assert(step(m, randoms[0]) == Ok::<Machine, Fault>(m));
        law_wait_key_blocks(m, x, randoms.drop_first());
    }
}

/// With a key held down, one cycle on `FX0A` puts the lowest-numbered
/// key held down into `V[x]` and goes on to the next instruction,
/// whichever other keys are held down as well.
pub proof fn law_wait_key_takes_lowest(m: Machine, x: usize, k: int, random: u8)
    requires
        m.wf(),
        next_instruction(m) == Some(Instruction::WaitKey { x }),
        is_lowest_pressed(m.keys, k),
    ensures
        step(m, random) == Ok::<Machine, Fault>(fetched(m).with_register(x as int, k as u8)),
        step(m, random)->Ok_0.program_counter == m.program_counter + 2,
{
    assert(is_lowest_pressed(m.keys, lowest_pressed(m.keys)));
    assert(lowest_pressed(m.keys) == k);
}

/// Registers stored by a cycle on `FX55` and loaded back by a cycle on
/// `FX65`, into whatever register file, come back as they were: if memory
/// and index register are as the store left them, the load gives
/// registers `0..=x` the values that were stored and leaves the higher
/// registers alone.
pub proof fn law_store_load_round_trip(m: Machine, later: Machine, x: usize, random: u8)
    requires
        m.wf(),
        later.wf(),
        next_instruction(m) == Some(Instruction::Store { x }),
        next_instruction(later) == Some(Instruction::Load { x }),
        step(m, random) matches Ok(stored) && {
            &&& later.memory == stored.memory
            &&& later.index == stored.index
        },
    ensures
        step(later, random) matches Ok(loaded) && {
            &&& forall|i: int| 0 <= i <= x ==> loaded.v[i] == m.v[i]
            &&& forall|i: int| x < i < REG_LENGTH ==> loaded.v[i] == later.v[i]
            &&& loaded == Machine { v: loaded.v, ..fetched(later) }
        },
{
}

/// Memory changes only at the bidding of the program: a cycle on any
/// instruction but `FX33` and `FX55` leaves every byte, the font included,
/// as it was.
pub proof fn law_memory_written_only_by_stores(m: Machine, random: u8)
    requires
        m.wf(),
        step(m, random) is Ok,
        !(next_instruction(m) matches Some(Instruction::Bcd { .. })),
        !(next_instruction(m) matches Some(Instruction::Store { .. })),
    ensures
        step(m, random)->Ok_0.memory == m.memory,
{
}

/// An instruction cycle leaves the timers alone, but for `FX15`, which
/// sets the delay timer, and `FX18`, which sets the sound timer.
pub proof fn law_cycle_leaves_timers(m: Machine, random: u8)
    requires
        m.wf(),
        step(m, random) is Ok,
    ensures
        !(next_instruction(m) matches Some(Instruction::SetDelay { .. })) ==> step(
            m,
            random,
        )->Ok_0.delay_timer == m.delay_timer,
        !(next_instruction(m) matches Some(Instruction::SetSound { .. })) ==> step(
            m,
            random,
        )->Ok_0.sound_timer == m.sound_timer,
{
}

/// A call remembers the address after the call instruction, and the
/// return that ends the subroutine continues there, with the stack as it
/// was before the call.
pub proof fn law_call_then_return(m: Machine, addr: u16, called: Machine, random: u8)
    requires
        m.wf(),
        next_instruction(m) == Some(Instruction::Call { addr }),
        m.stack.len() < STACK_SIZE,
        called.wf(),
        called.stack == step(m, random)->Ok_0.stack,
        next_instruction(called) == Some(Instruction::Return),
    ensures
        step(m, random) is Ok,
        step(m, random)->Ok_0.program_counter == addr,
        step(m, random)->Ok_0.stack == m.stack.push((m.program_counter + 2) as u16),
        step(called, random) is Ok,
        step(called, random)->Ok_0.program_counter == m.program_counter + 2,
        step(called, random)->Ok_0.stack == m.stack,
{
    assert(m.stack.push((m.program_counter + 2) as u16).drop_last() =~= m.stack);
}

} // verus!
