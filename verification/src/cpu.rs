//! The processor: the machine's state in fixed-size buffers, and the
//! operations that a host drives it with.

use vstd::prelude::*;
use crate::display::draw_sprite;
use crate::fault::{FaultKind, Rejection};
use crate::font::{FONTSET, FONT_SIZE};
use crate::machine::{
    Machine, FLAG, KEY_LENGTH, RAM_SIZE, REG_LENGTH, SCREEN_SIZE, STACK_SIZE, START_POS,
};
use crate::semantics::{
    can_fetch, carried_out, fetched, is_lowest_pressed, word_at,
};

verus! {

/// Copies `count` bytes of `src`, from position `src_at` on, to `dst` from
/// position `dst_at` on.
fn copy_bytes(dst: &mut [u8], dst_at: usize, src: &[u8], src_at: usize, count: usize)
    requires
        dst_at + count <= old(dst)@.len() <= usize::MAX,
        src_at + count <= src@.len() <= usize::MAX,
    ensures
        final(dst)@ == Seq::new(
            old(dst)@.len(),
            |a: int|
                if dst_at <= a < dst_at + count {
                    src@[src_at + (a - dst_at)]
                } else {
                    old(dst)@[a]
                },
        ),
    no_unwind
{
    let mut i: usize = 0;
    while i < count
        invariant
            i <= count,
            dst_at + count <= dst@.len() <= usize::MAX,
            src_at + count <= src@.len() <= usize::MAX,
            dst@.len() == old(dst)@.len(),
            forall|a: int| dst_at <= a < dst_at + i ==> dst@[a] == src@[src_at + (a - dst_at)],
            forall|a: int|
                0 <= a < dst@.len() && !(dst_at <= a < dst_at + i) ==> dst@[a] == old(dst)@[a],
        decreases count - i,
    {
        dst[dst_at + i] = src[src_at + i];
        i += 1;
    }
    assert(dst@ =~= Seq::new(
        old(dst)@.len(),
        |a: int|
            if dst_at <= a < dst_at + count {
                src@[src_at + (a - dst_at)]
            } else {
                old(dst)@[a]
            },
    ));
}

/// A CHIP-8 processor with its memory, screen, keypad latch and timers.
pub struct Processor {
    program_counter: u16,
    ram: [u8; RAM_SIZE],
    vram: [bool; SCREEN_SIZE],
    v_registers: [u8; REG_LENGTH],
    ram_index: u16,
    stack: [u16; STACK_SIZE],
    stack_pointer: u16,
    keys: [bool; KEY_LENGTH],
    delay_timer: u8,
    sound_timer: u8,
}

impl View for Processor {
    type V = Machine;

    /// The machine that the processor holds. Of the stack buffer only the
    /// entries below the stack pointer count.
    closed spec fn view(&self) -> Machine {
        Machine {
            program_counter: self.program_counter,
            memory: self.ram@,
            display: self.vram@,
            v: self.v_registers@,
            index: self.ram_index,
            stack: self.stack@.subrange(0, self.stack_pointer as int),
            keys: self.keys@,
            delay_timer: self.delay_timer,
            sound_timer: self.sound_timer,
        }
    }
}

impl Processor {
    /// The stack pointer never passes the end of the stack buffer.
    #[verifier::type_invariant]
    spec fn stack_pointer_in_range(self) -> bool {
        self.stack_pointer <= STACK_SIZE
    }

    /// A processor in the initial state.
    pub fn new() -> (p: Self)
        ensures
            p@ == Machine::initial(),
            p@.wf(),
    {
        let mut ram: [u8; RAM_SIZE] = [0u8; RAM_SIZE];
        copy_bytes(&mut ram, 0, &FONTSET, 0, FONT_SIZE);
        let p = Self {
            program_counter: START_POS,
            ram,
            vram: [false; SCREEN_SIZE],
            v_registers: [0u8; REG_LENGTH],
            ram_index: 0,
            stack: [0u16; STACK_SIZE],
            stack_pointer: 0,
            keys: [false; KEY_LENGTH],
            delay_timer: 0,
            sound_timer: 0,
        };
        assert(p@ =~= Machine::initial());
        p
    }

    /// The pixels of the screen, row by row.
    pub fn get_display(&self) -> (d: &[bool])
        ensures
            d@ == self@.display,
            self@.wf(),
    {
        proof {
            use_type_invariant(self);
        }
        &self.vram
    }

    /// The address of the next instruction.
    pub fn program_counter(&self) -> (pc: u16)
        ensures
            pc == self@.program_counter,
            self@.wf(),
    {
        proof {
            use_type_invariant(self);
        }
        self.program_counter
    }

    /// The index register.
    pub fn index_register(&self) -> (index: u16)
        ensures
            index == self@.index,
            self@.wf(),
    {
        proof {
            use_type_invariant(self);
        }
        self.ram_index
    }

    /// The sixteen general-purpose registers.
    pub fn registers(&self) -> (v: &[u8])
        ensures
            v@ == self@.v,
            self@.wf(),
    {
        proof {
            use_type_invariant(self);
        }
        &self.v_registers
    }

    /// The whole memory.
    pub fn memory(&self) -> (ram: &[u8])
        ensures
            ram@ == self@.memory,
            self@.wf(),
    {
        proof {
            use_type_invariant(self);
        }
        &self.ram
    }

    /// The number of calls in progress.
    pub fn stack_depth(&self) -> (depth: usize)
        ensures
            depth == self@.stack.len(),
            self@.wf(),
    {
        proof {
            use_type_invariant(self);
        }
        self.stack_pointer as usize
    }

    /// The delay timer.
    pub fn delay_timer(&self) -> (t: u8)
        ensures
            t == self@.delay_timer,
            self@.wf(),
    {
        proof {
            use_type_invariant(self);
        }
        self.delay_timer
    }

    /// The sound timer; a tone is due while it is not zero.
    pub fn sound_timer(&self) -> (t: u8)
        ensures
            t == self@.sound_timer,
            self@.wf(),
    {
        proof {
            use_type_invariant(self);
        }
        self.sound_timer
    }

    /// Records that key `idx` is held down (`pressed`) or released.
    pub fn key_input(&mut self, idx: usize, pressed: bool) -> (r: Result<(), Rejection>)
        ensures
            idx < KEY_LENGTH ==> r is Ok,
            idx < KEY_LENGTH ==> final(self)@ == old(self)@.with_key(idx as int, pressed),
            idx >= KEY_LENGTH ==> r == Err::<(), Rejection>(Rejection::KeyOutOfRange),
            idx >= KEY_LENGTH ==> final(self)@ == old(self)@,
            final(self)@.wf(),
    {
        proof {
            use_type_invariant(&*self);
        }
        if idx >= KEY_LENGTH {
            return Err(Rejection::KeyOutOfRange);
        }
        self.keys[idx] = pressed;
        assert(self@ =~= old(self)@.with_key(idx as int, pressed));
        Ok(())
    }

    /// Copies a program image to the start address, or refuses an image
    /// that does not fit and leaves the processor as it is.
    pub fn load_state(&mut self, data: &[u8]) -> (r: Result<(), Rejection>)
        ensures
            START_POS + data@.len() <= RAM_SIZE ==> r is Ok,
            START_POS + data@.len() <= RAM_SIZE ==> final(self)@ == old(self)@.with_program(data@),
            START_POS + data@.len() > RAM_SIZE ==> r == Err::<(), Rejection>(
                Rejection::ImageTooLarge,
            ),
            START_POS + data@.len() > RAM_SIZE ==> final(self)@ == old(self)@,
            final(self)@.wf(),
    {
        proof {
            use_type_invariant(&*self);
        }
        let start: usize = START_POS as usize;
        if data.len() > RAM_SIZE - start {
            return Err(Rejection::ImageTooLarge);
        }
        copy_bytes(&mut self.ram, start, data, 0, data.len());
        assert(self@ =~= old(self)@.with_program(data@));
        Ok(())
    }

    /// Puts the processor back into the initial state.
    pub fn reset(&mut self)
        ensures
            final(self)@ == Machine::initial(),
            final(self)@.wf(),
    {
        proof {
            use_type_invariant(&*self);
        }
        *self = Self::new();
    }

    /// Moves each timer that is not yet zero one step towards zero.
    pub fn tick_timers(&mut self)
        ensures
            final(self)@ == old(self)@.with_timers_ticked(),
            final(self)@.wf(),
    {
        proof {
            use_type_invariant(&*self);
        }
        if self.delay_timer > 0 {
            self.delay_timer -= 1;
        }
        if self.sound_timer > 0 {
            self.sound_timer -= 1;
        }
    }

    /// Reads the instruction word at the program counter and moves the
    /// program counter past it.
    pub(crate) fn fetch(&mut self) -> (op: u16)
        requires
            can_fetch(old(self)@),
        ensures
            op == word_at(old(self)@.memory, old(self)@.program_counter as int),
            final(self)@ == fetched(old(self)@),
    {
        proof {
            use_type_invariant(&*self);
        }
        let most_sig_half: u16 = self.ram[self.program_counter as usize] as u16;
        let least_sig_half: u16 = self.ram[(self.program_counter + 1) as usize] as u16;
        let op: u16 = (most_sig_half << 8) | least_sig_half;
        assert((most_sig_half << 8) | least_sig_half == most_sig_half * 0x100 + least_sig_half)
            by (bit_vector)
            requires
                most_sig_half < 0x100,
                least_sig_half < 0x100,
        ;
        self.program_counter += 2;
        op
    }

    /// Puts a return address on the stack.
    pub(crate) fn push(&mut self, val: u16)
        requires
            old(self)@.stack.len() < STACK_SIZE,
        ensures
            final(self)@ == (Machine { stack: old(self)@.stack.push(val), ..old(self)@ }),
    {
        proof {
            use_type_invariant(&*self);
        }
        self.stack[self.stack_pointer as usize] = val;
        self.stack_pointer += 1;
        assert(self@.stack =~= old(self)@.stack.push(val));
    }

    /// Takes the innermost return address off the stack.
    pub(crate) fn pop(&mut self) -> (val: u16)
        requires
            old(self)@.stack.len() > 0,
        ensures
            val == old(self)@.stack.last(),
            final(self)@ == (Machine { stack: old(self)@.stack.drop_last(), ..old(self)@ }),
    {
        proof {
            use_type_invariant(&*self);
        }
        self.stack_pointer -= 1;
        assert(self@.stack =~= old(self)@.stack.drop_last());
        self.stack[self.stack_pointer as usize]
    }

    /// Continues execution at `target`.
    pub(crate) fn jump(&mut self, target: u16)
        ensures
            final(self)@ == (Machine { program_counter: target, ..old(self)@ }),
    {
        proof {
            use_type_invariant(&*self);
        }
        self.program_counter = target;
    }

    /// Sets the index register.
    pub(crate) fn set_index(&mut self, value: u16)
        ensures
            final(self)@ == (Machine { index: value, ..old(self)@ }),
    {
        proof {
            use_type_invariant(&*self);
        }
        self.ram_index = value;
    }

    /// Sets the delay timer.
    pub(crate) fn set_delay(&mut self, value: u8)
        ensures
            final(self)@ == (Machine { delay_timer: value, ..old(self)@ }),
    {
        proof {
            use_type_invariant(&*self);
        }
        self.delay_timer = value;
    }

    /// Sets the sound timer.
    pub(crate) fn set_sound(&mut self, value: u8)
        ensures
            final(self)@ == (Machine { sound_timer: value, ..old(self)@ }),
    {
        proof {
            use_type_invariant(&*self);
        }
        self.sound_timer = value;
    }

    /// Switches every pixel off.
    pub(crate) fn clear_screen(&mut self)
        ensures
            final(self)@ == (Machine {
                display: Seq::new(SCREEN_SIZE as nat, |p: int| false),
                ..old(self)@
            }),
    {
        proof {
            use_type_invariant(&*self);
        }
        self.vram = [false; SCREEN_SIZE];
        assert(self@.display =~= Seq::new(SCREEN_SIZE as nat, |p: int| false));
    }

    /// The value of register `x`.
    pub(crate) fn register(&self, x: usize) -> (value: u8)
        requires
            x < REG_LENGTH,
        ensures
            value == self@.v[x as int],
    {
        self.v_registers[x]
    }

    /// Whether key `key` is held down.
    pub(crate) fn key_down(&self, key: usize) -> (down: bool)
        requires
            key < KEY_LENGTH,
        ensures
            down == self@.keys[key as int],
    {
        self.keys[key]
    }

    /// Sets register `x`.
    pub(crate) fn set_register(&mut self, x: usize, value: u8)
        requires
            x < REG_LENGTH,
        ensures
            final(self)@ == old(self)@.with_register(x as int, value),
    {
        proof {
            use_type_invariant(&*self);
        }
        self.v_registers[x] = value;
    }

    /// Sets the flag register to `1` or `0`.
    pub(crate) fn set_flag(&mut self, flag: bool)
        ensures
            final(self)@ == old(self)@.with_flag(flag),
    {
        self.set_register(FLAG, if flag { 1 } else { 0 });
    }

    /// Moves the program counter past the next instruction if `condition`
    /// holds.
    pub(crate) fn skip_if(&mut self, condition: bool)
        requires
            old(self)@.program_counter <= RAM_SIZE + 1,
        ensures
            final(self)@ == old(self)@.skip_if(condition),
    {
        proof {
            use_type_invariant(&*self);
        }
        if condition {
            self.program_counter += 2;
        }
    }

    /// `DXYN`: draws the sprite at the index register to the screen and
    /// sets the flag to whether a lit pixel went dark.
    pub(crate) fn draw(&mut self, x: usize, y: usize, rows: usize) -> (r: Result<(), FaultKind>)
        requires
            x < REG_LENGTH,
            y < REG_LENGTH,
            rows < 16,
        ensures
            carried_out(old(self)@.drawn(x as int, y as int, rows as int), old(self)@, r, final(self)@),
    {
        proof {
            use_type_invariant(&*self);
        }
        let base: usize = self.ram_index as usize;
        if rows > 0 && base + rows > RAM_SIZE {
            return Err(FaultKind::MemoryAccess);
        }
        let x0: u8 = self.v_registers[x];
        let y0: u8 = self.v_registers[y];
        let flipped = draw_sprite(&mut self.vram, &self.ram, base, rows, x0, y0);
        self.set_flag(flipped);
        Ok(())
    }

    /// `FX0A`: takes the lowest key held down into register `x`, or, with
    /// no key held down, moves the program counter back onto this
    /// instruction.
    pub(crate) fn wait_key(&mut self, x: usize)
        requires
            x < REG_LENGTH,
            old(self)@.program_counter >= 2,
        ensures
            final(self)@ == old(self)@.key_awaited(x as int),
    {
        proof {
            use_type_invariant(&*self);
        }
        let mut i: usize = 0;
        while i < KEY_LENGTH
            invariant
                i <= KEY_LENGTH,
                x < REG_LENGTH,
                *self == *old(self),
                forall|j: int| 0 <= j < i ==> !self.keys@[j],
            decreases KEY_LENGTH - i,
        {
            if self.keys[i] {
                proof {
                    assert(is_lowest_pressed(self@.keys, i as int));
                }
                self.set_register(x, i as u8);
                return;
            }
            i += 1;
        }
        self.program_counter -= 2;
    }

    /// `FX33`: stores the hundreds, tens and ones of register `x` at the
    /// index register.
    pub(crate) fn store_bcd(&mut self, x: usize) -> (r: Result<(), FaultKind>)
        requires
            x < REG_LENGTH,
        ensures
            carried_out(old(self)@.digits_stored(x as int), old(self)@, r, final(self)@),
    {
        proof {
            use_type_invariant(&*self);
        }
        let base: usize = self.ram_index as usize;
        if base + 2 >= RAM_SIZE {
            return Err(FaultKind::MemoryAccess);
        }
        let val: u8 = self.v_registers[x];
        let hundreds: u8 = val / 100;
        let tens: u8 = (val / 10) % 10;
        let ones: u8 = val % 10;
        self.ram[base] = hundreds;
        self.ram[base + 1] = tens;
        self.ram[base + 2] = ones;
        assert(self@.memory =~= old(self)@.memory.update(base as int, hundreds).update(
            base + 1,
            tens,
        ).update(base + 2, ones));
        Ok(())
    }

    /// `FX55`: stores registers `0..=x` at the index register.
    pub(crate) fn store_registers(&mut self, x: usize) -> (r: Result<(), FaultKind>)
        requires
            x < REG_LENGTH,
        ensures
            carried_out(old(self)@.registers_stored(x as int), old(self)@, r, final(self)@),
    {
        proof {
            use_type_invariant(&*self);
        }
        let base: usize = self.ram_index as usize;
        if base + x >= RAM_SIZE {
            return Err(FaultKind::MemoryAccess);
        }
        copy_bytes(&mut self.ram, base, &self.v_registers, 0, x + 1);
        proof {
            let next = old(self)@.registers_stored(x as int)->Ok_0;
            assert(self@ =~= next);
        }
        Ok(())
    }

    /// `FX65`: loads registers `0..=x` from the index register.
    pub(crate) fn load_registers(&mut self, x: usize) -> (r: Result<(), FaultKind>)
        requires
            x < REG_LENGTH,
        ensures
            carried_out(old(self)@.registers_loaded(x as int), old(self)@, r, final(self)@),
    {
        proof {
            use_type_invariant(&*self);
        }
        let base: usize = self.ram_index as usize;
        if base + x >= RAM_SIZE {
            return Err(FaultKind::MemoryAccess);
        }
        copy_bytes(&mut self.v_registers, 0, &self.ram, base, x + 1);
        proof {
            let next = old(self)@.registers_loaded(x as int)->Ok_0;
            assert(self@ =~= next);
        }
        Ok(())
    }
}

} // verus!
