//! The instruction set and the decoding of 16-bit instruction words.

use vstd::prelude::*;

verus! {

/// The operation of a register-to-register instruction `8XYn`, which
/// works on `V[x]` and `V[y]` and leaves its result in `V[x]`.
#[derive(Clone, Copy, Debug, PartialEq, Eq, Structural)]
pub enum AluOp {
    /// `n = 0`: the value of `V[y]`.
    Move,
    /// `n = 1`: bitwise or.
    Or,
    /// `n = 2`: bitwise and.
    And,
    /// `n = 3`: bitwise exclusive or.
    Xor,
    /// `n = 4`: sum, flag on carry.
    Add,
    /// `n = 5`: `V[x] - V[y]`, flag unless borrow.
    Sub,
    /// `n = 6`: `V[x]` shifted right by one, flag is the bit shifted out.
    ShiftRight,
    /// `n = 7`: `V[y] - V[x]`, flag unless borrow.
    SubFrom,
    /// `n = E`: `V[x]` shifted left by one, flag is the bit shifted out.
    ShiftLeft,
}

/// One instruction, with its operand fields taken out of the word.
///
/// `x` and `y` name registers, `nn` is an 8-bit constant, `addr` a 12-bit
/// address and `rows` the height of a sprite.
#[derive(Clone, Copy, Debug, PartialEq, Eq)]
pub enum Instruction {
    /// `0000`: do nothing.
    Nop,
    /// `00E0`: switch every pixel off.
    ClearScreen,
    /// `00EE`: return from a subroutine.
    Return,
    /// `1NNN`: continue at `addr`.
    Jump { addr: u16 },
    /// `2NNN`: call the subroutine at `addr`.
    Call { addr: u16 },
    /// `3XNN`: skip the next instruction if `V[x] == nn`.
    SkipEqImm { x: usize, nn: u8 },
    /// `4XNN`: skip the next instruction if `V[x] != nn`.
    SkipNeImm { x: usize, nn: u8 },
    /// `5XY0`: skip the next instruction if `V[x] == V[y]`.
    SkipEqReg { x: usize, y: usize },
    /// `6XNN`: `V[x] = nn`.
    LoadImm { x: usize, nn: u8 },
    /// `7XNN`: `V[x] += nn`, no flag.
    AddImm { x: usize, nn: u8 },
    /// `8XYn`: `V[x] = V[x] op V[y]`, where `n` selects the operation.
    Alu { op: AluOp, x: usize, y: usize },
    /// `9XY0`: skip the next instruction if `V[x] != V[y]`.
    SkipNeReg { x: usize, y: usize },
    /// `ANNN`: `I = addr`.
    LoadIndex { addr: u16 },
    /// `BNNN`: continue at `V[0] + addr`.
    JumpOffset { addr: u16 },
    /// `CXNN`: `V[x] = random & nn`.
    Random { x: usize, nn: u8 },
    /// `DXYN`: draw the sprite of `rows` rows at `I` to `(V[x], V[y])`.
    Draw { x: usize, y: usize, rows: usize },
    /// `EX9E`: skip the next instruction if key `V[x]` is down.
    SkipKeyDown { x: usize },
    /// `EXA1`: skip the next instruction if key `V[x]` is up.
    SkipKeyUp { x: usize },
    /// `FX07`: `V[x] = delay timer`.
    ReadDelay { x: usize },
    /// `FX0A`: wait for a key, then `V[x] = key`.
    WaitKey { x: usize },
    /// `FX15`: `delay timer = V[x]`.
    SetDelay { x: usize },
    /// `FX18`: `sound timer = V[x]`.
    SetSound { x: usize },
    /// `FX1E`: `I += V[x]`.
    AddIndex { x: usize },
    /// `FX29`: `I = address of the glyph for V[x]`.
    Glyph { x: usize },
    /// `FX33`: store the decimal digits of `V[x]` at `I`.
    Bcd { x: usize },
    /// `FX55`: store `V[0..=x]` at `I`.
    Store { x: usize },
    /// `FX65`: load `V[0..=x]` from `I`.
    Load { x: usize },
}

impl Instruction {
    /// The operand fields are within what an instruction word can hold:
    /// register numbers and sprite heights below 16, addresses below 4096.
    pub open spec fn wf(self) -> bool {
        match self {
            Instruction::Nop | Instruction::ClearScreen | Instruction::Return => true,
            Instruction::Jump { addr }
            | Instruction::Call { addr }
            | Instruction::LoadIndex { addr }
            | Instruction::JumpOffset { addr } => addr < 0x1000,
            Instruction::SkipEqImm { x, .. }
            | Instruction::SkipNeImm { x, .. }
            | Instruction::LoadImm { x, .. }
            | Instruction::AddImm { x, .. }
            | Instruction::Random { x, .. } => x < 16,
            Instruction::SkipEqReg { x, y } | Instruction::SkipNeReg { x, y } => x < 16 && y < 16,
            Instruction::Alu { x, y, .. } => x < 16 && y < 16,
            Instruction::Draw { x, y, rows } => x < 16 && y < 16 && rows < 16,
            Instruction::SkipKeyDown { x }
            | Instruction::SkipKeyUp { x }
            | Instruction::ReadDelay { x }
            | Instruction::WaitKey { x }
            | Instruction::SetDelay { x }
            | Instruction::SetSound { x }
            | Instruction::AddIndex { x }
            | Instruction::Glyph { x }
            | Instruction::Bcd { x }
            | Instruction::Store { x }
            | Instruction::Load { x } => x < 16,
        }
    }
}

/// The hexadecimal digit of `op` at `position`, counted from the most
/// significant (position 0) to the least significant (position 3).
pub open spec fn hex_digit(op: u16, position: int) -> int {
    if position == 0 {
        op as int / 0x1000
    } else if position == 1 {
        (op as int / 0x100) % 0x10
    } else if position == 2 {
        (op as int / 0x10) % 0x10
    } else {
        op as int % 0x10
    }
}

/// The register-to-register operation that the low digit `n` of an
/// instruction word `8XYn` selects, if any.
pub open spec fn alu_op_spec(n: int) -> Option<AluOp> {
    if n == 0x0 {
        Some(AluOp::Move)
    } else if n == 0x1 {
        Some(AluOp::Or)
    } else if n == 0x2 {
        Some(AluOp::And)
    } else if n == 0x3 {
        Some(AluOp::Xor)
    } else if n == 0x4 {
        Some(AluOp::Add)
    } else if n == 0x5 {
        Some(AluOp::Sub)
    } else if n == 0x6 {
        Some(AluOp::ShiftRight)
    } else if n == 0x7 {
        Some(AluOp::SubFrom)
    } else if n == 0xE {
        Some(AluOp::ShiftLeft)
    } else {
        None
    }
}

/// The instruction that the word `op` encodes, if any.
///
/// The leading digit selects the group; within the groups `0`, `5`, `8`,
/// `9`, `E` and `F` the low digit or low byte selects the instruction, and
/// a word that matches no pattern encodes nothing.
pub open spec fn decode_spec(op: u16) -> Option<Instruction> {
    let lead = hex_digit(op, 0);
    let x = hex_digit(op, 1) as usize;
    let y = hex_digit(op, 2) as usize;
    let n = hex_digit(op, 3);
    let low = op as int % 0x100;
    let nn = low as u8;
    let addr = (op as int % 0x1000) as u16;
    if lead == 0x0 {
        if op == 0x0000 {
            Some(Instruction::Nop)
        } else if op == 0x00E0 {
            Some(Instruction::ClearScreen)
        } else if op == 0x00EE {
            Some(Instruction::Return)
        } else {
            None
        }
    } else if lead == 0x1 {
        Some(Instruction::Jump { addr })
    } else if lead == 0x2 {
        Some(Instruction::Call { addr })
    } else if lead == 0x3 {
        Some(Instruction::SkipEqImm { x, nn })
    } else if lead == 0x4 {
        Some(Instruction::SkipNeImm { x, nn })
    } else if lead == 0x5 {
        if n == 0 {
            Some(Instruction::SkipEqReg { x, y })
        } else {
            None
        }
    } else if lead == 0x6 {
        Some(Instruction::LoadImm { x, nn })
    } else if lead == 0x7 {
        Some(Instruction::AddImm { x, nn })
    } else if lead == 0x8 {
        match alu_op_spec(n) {
            Some(op) => Some(Instruction::Alu { op, x, y }),
            None => None,
        }
    } else if lead == 0x9 {
        if n == 0 {
            Some(Instruction::SkipNeReg { x, y })
        } else {
            None
        }
    } else if lead == 0xA {
        Some(Instruction::LoadIndex { addr })
    } else if lead == 0xB {
        Some(Instruction::JumpOffset { addr })
    } else if lead == 0xC {
        Some(Instruction::Random { x, nn })
    } else if lead == 0xD {
        Some(Instruction::Draw { x, y, rows: n as usize })
    } else if lead == 0xE {
        if low == 0x9E {
            Some(Instruction::SkipKeyDown { x })
        } else if low == 0xA1 {
            Some(Instruction::SkipKeyUp { x })
        } else {
            None
        }
    } else {
        if low == 0x07 {
            Some(Instruction::ReadDelay { x })
        } else if low == 0x0A {
            Some(Instruction::WaitKey { x })
        } else if low == 0x15 {
            Some(Instruction::SetDelay { x })
        } else if low == 0x18 {
            Some(Instruction::SetSound { x })
        } else if low == 0x1E {
            Some(Instruction::AddIndex { x })
        } else if low == 0x29 {
            Some(Instruction::Glyph { x })
        } else if low == 0x33 {
            Some(Instruction::Bcd { x })
        } else if low == 0x55 {
            Some(Instruction::Store { x })
        } else if low == 0x65 {
            Some(Instruction::Load { x })
        } else {
            None
        }
    }
}

/// Masking and shifting a word yields its hexadecimal digits and its low
/// byte and low twelve bits.
proof fn lemma_fields(op: u16)
    ensures
        (op & 0xF000) >> 12 == hex_digit(op, 0),
        (op & 0x0F00) >> 8 == hex_digit(op, 1),
        (op & 0x00F0) >> 4 == hex_digit(op, 2),
        op & 0x000F == hex_digit(op, 3),
        op & 0x00FF == op as int % 0x100,
        op & 0x0FFF == op as int % 0x1000,
{
    assert((op & 0xF000) >> 12 == op / 0x1000) by (bit_vector);
    assert((op & 0x0F00) >> 8 == (op / 0x100) % 0x10) by (bit_vector);
    assert((op & 0x00F0) >> 4 == (op / 0x10) % 0x10) by (bit_vector);
    assert(op & 0x000F == op % 0x10) by (bit_vector);
    assert(op & 0x00FF == op % 0x100) by (bit_vector);
    assert(op & 0x0FFF == op % 0x1000) by (bit_vector);
}

/// Decodes an instruction word; `None` for a word that is no instruction.
pub fn decode(op: u16) -> (r: Option<Instruction>)
    ensures
        r == decode_spec(op),
        r matches Some(ins) ==> ins.wf(),
{
    proof {
        lemma_fields(op);
    }
    let lead: u16 = (op & 0xF000) >> 12;
    let x: usize = ((op & 0x0F00) >> 8) as usize;
    let y: usize = ((op & 0x00F0) >> 4) as usize;
    let n: u16 = op & 0x000F;
    let nn: u8 = (op & 0x00FF) as u8;
    let addr: u16 = op & 0x0FFF;
    match (lead, n) {
        (0x0, _) => {
            if op == 0x0000 {
                Some(Instruction::Nop)
            } else if op == 0x00E0 {
                Some(Instruction::ClearScreen)
            } else if op == 0x00EE {
                Some(Instruction::Return)
            } else {
                None
            }
        },
        (0x1, _) => Some(Instruction::Jump { addr }),
        (0x2, _) => Some(Instruction::Call { addr }),
        (0x3, _) => Some(Instruction::SkipEqImm { x, nn }),
        (0x4, _) => Some(Instruction::SkipNeImm { x, nn }),
        (0x5, 0x0) => Some(Instruction::SkipEqReg { x, y }),
        (0x6, _) => Some(Instruction::LoadImm { x, nn }),
        (0x7, _) => Some(Instruction::AddImm { x, nn }),
        (0x8, 0x0) => Some(Instruction::Alu { op: AluOp::Move, x, y }),
        (0x8, 0x1) => Some(Instruction::Alu { op: AluOp::Or, x, y }),
        (0x8, 0x2) => Some(Instruction::Alu { op: AluOp::And, x, y }),
        (0x8, 0x3) => Some(Instruction::Alu { op: AluOp::Xor, x, y }),
        (0x8, 0x4) => Some(Instruction::Alu { op: AluOp::Add, x, y }),
        (0x8, 0x5) => Some(Instruction::Alu { op: AluOp::Sub, x, y }),
        (0x8, 0x6) => Some(Instruction::Alu { op: AluOp::ShiftRight, x, y }),
        (0x8, 0x7) => Some(Instruction::Alu { op: AluOp::SubFrom, x, y }),
        (0x8, 0xE) => Some(Instruction::Alu { op: AluOp::ShiftLeft, x, y }),
        (0x9, 0x0) => Some(Instruction::SkipNeReg { x, y }),
        (0xA, _) => Some(Instruction::LoadIndex { addr }),
        (0xB, _) => Some(Instruction::JumpOffset { addr }),
        (0xC, _) => Some(Instruction::Random { x, nn }),
        (0xD, _) => Some(Instruction::Draw { x, y, rows: n as usize }),
        (0xE, _) => {
            if nn == 0x9E {
                Some(Instruction::SkipKeyDown { x })
            } else if nn == 0xA1 {
                Some(Instruction::SkipKeyUp { x })
            } else {
                None
            }
        },
        (0xF, _) => {
            match nn {
                0x07 => Some(Instruction::ReadDelay { x }),
                0x0A => Some(Instruction::WaitKey { x }),
                0x15 => Some(Instruction::SetDelay { x }),
                0x18 => Some(Instruction::SetSound { x }),
                0x1E => Some(Instruction::AddIndex { x }),
                0x29 => Some(Instruction::Glyph { x }),
                0x33 => Some(Instruction::Bcd { x }),
                0x55 => Some(Instruction::Store { x }),
                0x65 => Some(Instruction::Load { x }),
                _ => None,
            }
        },
        _ => None,
    }
}

} // verus!
