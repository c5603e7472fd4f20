//! The fetch-decode-execute cycle of the processor.

use vstd::prelude::*;
use crate::cpu::Processor;
use crate::entropy::random_byte;
use crate::fault::{Fault, FaultKind};
use crate::font::GLYPH_SIZE;
use crate::instruction::{decode, AluOp, Instruction};
use crate::laws::law_step_keeps_well_formed;
use crate::machine::{KEY_LENGTH, RAM_SIZE, STACK_SIZE};
use crate::semantics::{
    alu_spec, carried_out, cycle, draws_random, execute_spec, perform_spec, step,
};

verus! {

/// Computes a register-to-register operation on the values `vx` and `vy`:
/// the value for `V[x]`, and the flag for `V[F]` if the operation sets one.
pub fn alu(op: AluOp, vx: u8, vy: u8) -> (r: (u8, Option<bool>))
    ensures
        r == alu_spec(op, vx, vy),
{
    match op {
        AluOp::Move => (vy, None),
        AluOp::Or => (vx | vy, None),
        AluOp::And => (vx & vy, None),
        AluOp::Xor => (vx ^ vy, None),
        AluOp::Add => (vx.wrapping_add(vy), Some(vx as u16 + vy as u16 > 0xFF)),
        AluOp::Sub => (vx.wrapping_sub(vy), Some(vx >= vy)),
        AluOp::ShiftRight => {
            let least_sig_bit: u8 = vx & 1u8;
            assert(vx >> 1u8 == vx / 2 && vx & 1u8 == vx % 2) by (bit_vector);
            (vx >> 1u8, Some(least_sig_bit == 1))
        },
        AluOp::SubFrom => (vy.wrapping_sub(vx), Some(vy >= vx)),
        AluOp::ShiftLeft => {
            let most_sig_bit: u8 = (vx >> 7u8) & 1u8;
            assert(vx << 1u8 == (vx * 2) % 0x100 && ((vx >> 7u8) & 1u8 == 1u8) == (vx >= 0x80))
                by (bit_vector);
            (vx << 1u8, Some(most_sig_bit == 1))
        },
    }
}

impl Processor {
    /// Runs one instruction cycle: fetch, decode, execute. A `Random`
    /// instruction draws its byte from the thread's random generator.
    ///
    /// A fault is returned with the address and word of the instruction
    /// that raised it, and leaves the processor as it was. Timers are not
    /// touched: see `tick_timers`.
    pub fn tick(&mut self) -> (r: Result<(), Fault>)
        ensures
            exists|random: u8| cycle(old(self)@, random, r, final(self)@),
            !draws_random(old(self)@) ==> forall|random: u8|
                cycle(old(self)@, random, r, final(self)@),
            final(self)@.wf(),
    {
        if self.next_draws_random() {
            let random: u8 = random_byte();
            self.tick_with(random)
        } else {
            proof {
                assert forall|random: u8| #[trigger] step(self@, random) == step(self@, 0) by {}
            }
            self.tick_with(0)
        }
    }

    /// Runs one instruction cycle in which a `Random` instruction, if it
    /// is one, draws the byte `random`.
    pub fn tick_with(&mut self, random: u8) -> (r: Result<(), Fault>)
        ensures
            cycle(old(self)@, random, r, final(self)@),
            final(self)@.wf(),
    {
        let address: u16 = self.program_counter();
        if address as usize + 1 >= RAM_SIZE {
            return Err(Fault { kind: FaultKind::Fetch, address, opcode: 0 });
        }
        let op: u16 = self.fetch();
        proof {
            if step(old(self)@, random) is Ok {
                law_step_keeps_well_formed(old(self)@, random);
            }
        }
        match self.execute(op, random) {
            Ok(()) => Ok(()),
            Err(kind) => {
                self.jump(address);
                assert(self@ =~= old(self)@);
                Err(Fault { kind, address, opcode: op })
            },
        }
    }

    /// Whether the word at the program counter is a `Random` instruction.
    fn next_draws_random(&self) -> (b: bool)
        ensures
            b == draws_random(self@),
    {
        let address: usize = self.program_counter() as usize;
        if address + 1 >= RAM_SIZE {
            return false;
        }
        let ram = self.memory();
        let most_sig_half: u16 = ram[address] as u16;
        let least_sig_half: u16 = ram[address + 1] as u16;
        let op: u16 = (most_sig_half << 8) | least_sig_half;
        assert((most_sig_half << 8) | least_sig_half == most_sig_half * 0x100 + least_sig_half)
            by (bit_vector)
            requires
                most_sig_half < 0x100,
                least_sig_half < 0x100,
        ;
        match decode(op) {
            Some(Instruction::Random { .. }) => true,
            _ => false,
        }
    }

    /// Carries out the instruction word `op` on the processor after the
    /// fetch. On a fault nothing has changed.
    fn execute(&mut self, op: u16, random: u8) -> (r: Result<(), FaultKind>)
        requires
            2 <= old(self)@.program_counter <= RAM_SIZE + 1,
        ensures
            carried_out(execute_spec(old(self)@, op, random), old(self)@, r, final(self)@),
    {
        match decode(op) {
            None => Err(FaultKind::UnknownInstruction),
            Some(ins) => self.perform(ins, random),
        }
    }

    /// Carries out one decoded instruction.
    fn perform(&mut self, ins: Instruction, random: u8) -> (r: Result<(), FaultKind>)
        requires
            ins.wf(),
            2 <= old(self)@.program_counter <= RAM_SIZE + 1,
        ensures
            carried_out(perform_spec(old(self)@, ins, random), old(self)@, r, final(self)@),
    {
        match ins {
            Instruction::Nop => Ok(()),
            Instruction::ClearScreen => {
                self.clear_screen();
                Ok(())
            },
            Instruction::Return => {
                if self.stack_depth() == 0 {
                    return Err(FaultKind::StackUnderflow);
                }
                let target: u16 = self.pop();
                self.jump(target);
                Ok(())
            },
            Instruction::Jump { addr } => {
                self.jump(addr);
                Ok(())
            },
            Instruction::Call { addr } => {
                if self.stack_depth() >= STACK_SIZE {
                    return Err(FaultKind::StackOverflow);
                }
                self.push(self.program_counter());
                self.jump(addr);
                Ok(())
            },
            Instruction::SkipEqImm { x, nn } => {
                self.skip_if(self.register(x) == nn);
                Ok(())
            },
            Instruction::SkipNeImm { x, nn } => {
                self.skip_if(self.register(x) != nn);
                Ok(())
            },
            Instruction::SkipEqReg { x, y } => {
                self.skip_if(self.register(x) == self.register(y));
                Ok(())
            },
            Instruction::LoadImm { x, nn } => {
                self.set_register(x, nn);
                Ok(())
            },
            Instruction::AddImm { x, nn } => {
                self.set_register(x, self.register(x).wrapping_add(nn));
                Ok(())
            },
            Instruction::Alu { op, x, y } => {
                let (value, flag) = alu(op, self.register(x), self.register(y));
                self.set_register(x, value);
                if let Some(flag) = flag {
                    self.set_flag(flag);
                }
                Ok(())
            },
            Instruction::SkipNeReg { x, y } => {
                self.skip_if(self.register(x) != self.register(y));
                Ok(())
            },
            Instruction::LoadIndex { addr } => {
                self.set_index(addr);
                Ok(())
            },
            Instruction::JumpOffset { addr } => {
                self.jump(self.register(0) as u16 + addr);
                Ok(())
            },
            Instruction::Random { x, nn } => {
                self.set_register(x, random & nn);
                Ok(())
            },
            Instruction::Draw { x, y, rows } => self.draw(x, y, rows),
            Instruction::SkipKeyDown { x } => {
                let key: usize = self.register(x) as usize;
                if key >= KEY_LENGTH {
                    return Err(FaultKind::InvalidKey);
                }
                self.skip_if(self.key_down(key));
                Ok(())
            },
            Instruction::SkipKeyUp { x } => {
                let key: usize = self.register(x) as usize;
                if key >= KEY_LENGTH {
                    return Err(FaultKind::InvalidKey);
                }
                self.skip_if(!self.key_down(key));
                Ok(())
            },
            Instruction::ReadDelay { x } => {
                self.set_register(x, self.delay_timer());
                Ok(())
            },
            Instruction::WaitKey { x } => {
                self.wait_key(x);
                Ok(())
            },
            Instruction::SetDelay { x } => {
                self.set_delay(self.register(x));
                Ok(())
            },
            Instruction::SetSound { x } => {
                self.set_sound(self.register(x));
                Ok(())
            },
            Instruction::AddIndex { x } => {
                self.set_index(self.index_register().wrapping_add(self.register(x) as u16));
                Ok(())
            },
            Instruction::Glyph { x } => {
                self.set_index((self.register(x) as u16) * (GLYPH_SIZE as u16));
                Ok(())
            },
            Instruction::Bcd { x } => self.store_bcd(x),
            Instruction::Store { x } => self.store_registers(x),
            Instruction::Load { x } => self.load_registers(x),
        }
    }
}

} // verus!
