//! What one instruction cycle does to the machine.
//!
//! A cycle reads the instruction word at the program counter, moves the
//! program counter past it, and then carries the instruction out on the
//! machine with the counter already moved. A cycle that faults changes
//! nothing.

use vstd::prelude::*;
use crate::display::Sprite;
use crate::fault::{Fault, FaultKind};
use crate::instruction::{decode_spec, AluOp, Instruction};
use crate::font::GLYPH_SIZE;
use crate::machine::{Machine, KEY_LENGTH, RAM_SIZE, SCREEN_SIZE, STACK_SIZE};

verus! {

/// The instruction word that starts at `address`: two bytes, the more
/// significant first.
pub open spec fn word_at(memory: Seq<u8>, address: int) -> u16 {
    (memory[address] as int * 0x100 + memory[address + 1] as int) as u16
}

/// Whether some key is held down.
pub open spec fn any_pressed(keys: Seq<bool>) -> bool {
    exists|k: int| 0 <= k < keys.len() && keys[k]
}

/// Whether `k` is a key held down with no lower-numbered key held down.
pub open spec fn is_lowest_pressed(keys: Seq<bool>, k: int) -> bool {
    &&& 0 <= k < keys.len()
    &&& keys[k]
    &&& forall|j: int| 0 <= j < k ==> !keys[j]
}

/// The lowest-numbered key held down, where there is one.
pub open spec fn lowest_pressed(keys: Seq<bool>) -> int {
    choose|k: int| is_lowest_pressed(keys, k)
}

/// What the register-to-register operation `op` makes of the values `vx`
/// and `vy`: the value that goes to `V[x]`, and the flag that then goes to
/// `V[F]`, for the operations that set one.
///
/// Sums, differences and left shifts wrap modulo 256. The flag of a sum is
/// its carry; that of a difference says that no borrow was needed; that of
/// a shift is the bit shifted out.
pub open spec fn alu_spec(op: AluOp, vx: u8, vy: u8) -> (u8, Option<bool>) {
    match op {
        AluOp::Move => (vy, None),
        AluOp::Or => (vx | vy, None),
        AluOp::And => (vx & vy, None),
        AluOp::Xor => (vx ^ vy, None),
        AluOp::Add => (((vx + vy) % 0x100) as u8, Some(vx + vy > 0xFF)),
        AluOp::Sub => (((vx - vy) % 0x100) as u8, Some(vx >= vy)),
        AluOp::ShiftRight => (vx / 2, Some(vx % 2 == 1)),
        AluOp::SubFrom => (((vy - vx) % 0x100) as u8, Some(vy >= vx)),
        AluOp::ShiftLeft => (((vx * 2) % 0x100) as u8, Some(vx >= 0x80)),
    }
}

impl Machine {
    /// The sprite that `DXYN` puts on the screen: `rows` bytes at the
    /// index register, with the top left corner at `(V[x], V[y])`.
    pub open spec fn sprite(self, x: int, y: int, rows: int) -> Sprite {
        Sprite {
            memory: self.memory,
            index: self.index as int,
            rows,
            x0: self.v[x] as int,
            y0: self.v[y] as int,
        }
    }

    /// `DXYN`: the sprite is drawn and the flag says whether a lit pixel
    /// went dark; a sprite that reaches past the end of memory faults.
    pub open spec fn drawn(self, x: int, y: int, rows: int) -> Result<Machine, FaultKind> {
        let sprite = self.sprite(x, y, rows);
        if !sprite.in_memory() {
            Err(FaultKind::MemoryAccess)
        } else {
            Ok(
                Machine { display: sprite.drawn_on(self.display), ..self }.with_flag(
                    sprite.collides_with(self.display),
                ),
            )
        }
    }

    /// `FX0A`: with a key held down, the lowest such key goes to `V[x]`;
    /// with none, the program counter goes back onto the instruction.
    pub open spec fn key_awaited(self, x: int) -> Machine {
        if any_pressed(self.keys) {
            self.with_register(x, lowest_pressed(self.keys) as u8)
        } else {
            Machine { program_counter: (self.program_counter - 2) as u16, ..self }
        }
    }

    /// `FX33`: the hundreds, tens and ones of `V[x]` go to the three
    /// bytes at the index register, which must lie within memory.
    pub open spec fn digits_stored(self, x: int) -> Result<Machine, FaultKind> {
        if self.index + 2 >= RAM_SIZE {
            Err(FaultKind::MemoryAccess)
        } else {
            let value = self.v[x];
            Ok(
                Machine {
                    memory: self.memory.update(self.index as int, value / 100).update(
                        self.index + 1,
                        (value / 10) % 10,
                    ).update(self.index + 2, value % 10),
                    ..self
                },
            )
        }
    }

    /// `FX55`: registers `0..=x` go to the bytes from the index register
    /// on, which must lie within memory.
    pub open spec fn registers_stored(self, x: int) -> Result<Machine, FaultKind> {
        if self.index + x >= RAM_SIZE {
            Err(FaultKind::MemoryAccess)
        } else {
            Ok(
                Machine {
                    memory: Seq::new(
                        self.memory.len(),
                        |a: int|
                            if self.index <= a <= self.index + x {
                                self.v[a - self.index]
                            } else {
                                self.memory[a]
                            },
                    ),
                    ..self
                },
            )
        }
    }

    /// `FX65`: registers `0..=x` take the bytes from the index register
    /// on, which must lie within memory.
    pub open spec fn registers_loaded(self, x: int) -> Result<Machine, FaultKind> {
        if self.index + x >= RAM_SIZE {
            Err(FaultKind::MemoryAccess)
        } else {
            Ok(
                Machine {
                    v: Seq::new(
                        self.v.len(),
                        |i: int|
                            if i <= x {
                                self.memory[self.index + i]
                            } else {
                                self.v[i]
                            },
                    ),
                    ..self
                },
            )
        }
    }
}

/// What carrying out an instruction owes: on success the machine is the
/// expected one; on a fault the fault is the expected one and the machine
/// is as before.
pub open spec fn carried_out(
    expected: Result<Machine, FaultKind>,
    before: Machine,
    result: Result<(), FaultKind>,
    after: Machine,
) -> bool {
    match expected {
        Ok(next) => result is Ok && after == next,
        Err(kind) => result == Err::<(), FaultKind>(kind) && after == before,
    }
}

/// The machine after `ins` is carried out, or the fault it raises.
///
/// `m` is the machine after the fetch, with the program counter past
/// `ins`; `random` is the byte that `Random` draws.
pub open spec fn perform_spec(m: Machine, ins: Instruction, random: u8) -> Result<
    Machine,
    FaultKind,
> {
    match ins {
        Instruction::Nop => Ok(m),
        Instruction::ClearScreen => Ok(
            Machine { display: Seq::new(SCREEN_SIZE as nat, |p: int| false), ..m },
        ),
        Instruction::Return => if m.stack.len() == 0 {
            Err(FaultKind::StackUnderflow)
        } else {
            Ok(Machine { program_counter: m.stack.last(), stack: m.stack.drop_last(), ..m })
        },
        Instruction::Jump { addr } => Ok(Machine { program_counter: addr, ..m }),
        Instruction::Call { addr } => if m.stack.len() >= STACK_SIZE {
            Err(FaultKind::StackOverflow)
        } else {
            Ok(Machine { program_counter: addr, stack: m.stack.push(m.program_counter), ..m })
        },
        Instruction::SkipEqImm { x, nn } => Ok(m.skip_if(m.v[x as int] == nn)),
        Instruction::SkipNeImm { x, nn } => Ok(m.skip_if(m.v[x as int] != nn)),
        Instruction::SkipEqReg { x, y } => Ok(m.skip_if(m.v[x as int] == m.v[y as int])),
        Instruction::LoadImm { x, nn } => Ok(m.with_register(x as int, nn)),
        Instruction::AddImm { x, nn } => Ok(
            m.with_register(x as int, ((m.v[x as int] + nn) % 0x100) as u8),
        ),
        Instruction::Alu { op, x, y } => {
            let (value, flag) = alu_spec(op, m.v[x as int], m.v[y as int]);
            let stored = m.with_register(x as int, value);
            match flag {
                Some(flag) => Ok(stored.with_flag(flag)),
                None => Ok(stored),
            }
        },
        Instruction::SkipNeReg { x, y } => Ok(m.skip_if(m.v[x as int] != m.v[y as int])),
        Instruction::LoadIndex { addr } => Ok(Machine { index: addr, ..m }),
        Instruction::JumpOffset { addr } => Ok(
            Machine { program_counter: (m.v[0] + addr) as u16, ..m },
        ),
        Instruction::Random { x, nn } => Ok(m.with_register(x as int, random & nn)),
        Instruction::Draw { x, y, rows } => m.drawn(x as int, y as int, rows as int),
        Instruction::SkipKeyDown { x } => if m.v[x as int] >= KEY_LENGTH {
            Err(FaultKind::InvalidKey)
        } else {
            Ok(m.skip_if(m.keys[m.v[x as int] as int]))
        },
        Instruction::SkipKeyUp { x } => if m.v[x as int] >= KEY_LENGTH {
            Err(FaultKind::InvalidKey)
        } else {
            Ok(m.skip_if(!m.keys[m.v[x as int] as int]))
        },
        Instruction::ReadDelay { x } => Ok(m.with_register(x as int, m.delay_timer)),
        Instruction::WaitKey { x } => Ok(m.key_awaited(x as int)),
        Instruction::SetDelay { x } => Ok(Machine { delay_timer: m.v[x as int], ..m }),
        Instruction::SetSound { x } => Ok(Machine { sound_timer: m.v[x as int], ..m }),
        Instruction::AddIndex { x } => Ok(
            Machine { index: ((m.index + m.v[x as int]) % 0x10000) as u16, ..m },
        ),
        Instruction::Glyph { x } => Ok(
            Machine { index: (m.v[x as int] * GLYPH_SIZE) as u16, ..m },
        ),
        Instruction::Bcd { x } => m.digits_stored(x as int),
        Instruction::Store { x } => m.registers_stored(x as int),
        Instruction::Load { x } => m.registers_loaded(x as int),
    }
}

/// The machine after the instruction word `op` is carried out, or the
/// fault it raises; `m` is the machine after the fetch.
pub open spec fn execute_spec(m: Machine, op: u16, random: u8) -> Result<Machine, FaultKind> {
    match decode_spec(op) {
        Some(ins) => perform_spec(m, ins, random),
        None => Err(FaultKind::UnknownInstruction),
    }
}

/// Whether an instruction word can be read at the program counter.
pub open spec fn can_fetch(m: Machine) -> bool {
    m.program_counter + 1 < RAM_SIZE
}

/// Whether the next cycle draws a random byte: the word at the program
/// counter is a `Random` instruction.
pub open spec fn draws_random(m: Machine) -> bool {
    can_fetch(m) && decode_spec(word_at(m.memory, m.program_counter as int)) matches Some(
        Instruction::Random { .. },
    )
}

/// The machine after the fetch: the program counter is past the word.
pub open spec fn fetched(m: Machine) -> Machine {
    Machine { program_counter: (m.program_counter + 2) as u16, ..m }
}

/// The machine after one whole cycle, or the fault that stops it.
pub open spec fn step(m: Machine, random: u8) -> Result<Machine, Fault> {
    if !can_fetch(m) {
        Err(Fault { kind: FaultKind::Fetch, address: m.program_counter, opcode: 0 })
    } else {
        let op = word_at(m.memory, m.program_counter as int);
        match execute_spec(fetched(m), op, random) {
            Ok(next) => Ok(next),
            Err(kind) => Err(Fault { kind, address: m.program_counter, opcode: op }),
        }
    }
}

/// What a cycle owes: on success the machine is the one `step` gives; on a
/// fault the fault is the one `step` gives and the machine is as before.
pub open spec fn cycle(before: Machine, random: u8, result: Result<(), Fault>, after: Machine) -> bool {
    match step(before, random) {
        Ok(next) => result is Ok && after == next,
        Err(fault) => result == Err::<(), Fault>(fault) && after == before,
    }
}

/// The machine after one cycle for each byte of `randoms`, in order, or
/// the fault of the first cycle that faults.
pub open spec fn run(m: Machine, randoms: Seq<u8>) -> Result<Machine, Fault>
    decreases randoms.len(),
{
    if randoms.len() == 0 {
        Ok(m)
    } else {
        match step(m, randoms[0]) {
            Ok(next) => run(next, randoms.drop_first()),
            Err(fault) => Err(fault),
        }
    }
}

} // verus!
