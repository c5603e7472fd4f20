//! The mathematical model of the machine: everything a program can observe,
//! as plain sequences and integers.

use vstd::prelude::*;
use crate::font::FONTSET;

verus! {

/// Width of the screen in pixels.
pub const SCREEN_WIDTH: usize = 64;

/// Height of the screen in pixels.
pub const SCREEN_HEIGHT: usize = 32;

/// Number of pixels of the screen, stored row by row.
pub const SCREEN_SIZE: usize = 2048;

/// Number of addressable bytes.
pub const RAM_SIZE: usize = 4096;

/// Number of general-purpose registers.
pub const REG_LENGTH: usize = 16;

/// Greatest depth of nested subroutine calls.
pub const STACK_SIZE: usize = 16;

/// Number of keys of the keypad.
pub const KEY_LENGTH: usize = 16;

/// Address at which a program image is loaded and execution starts.
pub const START_POS: u16 = 0x200;

/// Index of the register that instructions use as their flag output.
pub const FLAG: usize = 0xF;

/// The state of a CHIP-8 machine.
///
/// `stack` holds the return addresses of the calls in progress, innermost
/// last; `display` holds the pixels row by row, so the pixel in column `x`
/// of row `y` is `display[x + 64 * y]`.
#[verifier::ext_equal]
pub struct Machine {
    pub program_counter: u16,
    pub memory: Seq<u8>,
    pub display: Seq<bool>,
    pub v: Seq<u8>,
    pub index: u16,
    pub stack: Seq<u16>,
    pub keys: Seq<bool>,
    pub delay_timer: u8,
    pub sound_timer: u8,
}

impl Machine {
    /// Every component has its architectural size.
    pub open spec fn wf(self) -> bool {
        &&& self.memory.len() == RAM_SIZE
        &&& self.display.len() == SCREEN_SIZE
        &&& self.v.len() == REG_LENGTH
        &&& self.stack.len() <= STACK_SIZE
        &&& self.keys.len() == KEY_LENGTH
    }

    /// The machine as it is switched on: the font in the first bytes of
    /// memory, everything else zero, execution about to start at `START_POS`.
    pub open spec fn initial() -> Machine {
        Machine {
            program_counter: START_POS,
            memory: Seq::new(
                RAM_SIZE as nat,
                |a: int| if a < FONTSET@.len() { FONTSET@[a] } else { 0u8 },
            ),
            display: Seq::new(SCREEN_SIZE as nat, |p: int| false),
            v: Seq::new(REG_LENGTH as nat, |i: int| 0u8),
            index: 0,
            stack: Seq::empty(),
            keys: Seq::new(KEY_LENGTH as nat, |k: int| false),
            delay_timer: 0,
            sound_timer: 0,
        }
    }

    /// The machine with a program image copied to `START_POS`.
    pub open spec fn with_program(self, data: Seq<u8>) -> Machine {
        Machine {
            memory: Seq::new(
                self.memory.len(),
                |a: int|
                    if START_POS <= a < START_POS + data.len() {
                        data[a - START_POS]
                    } else {
                        self.memory[a]
                    },
            ),
            ..self
        }
    }

    /// The machine with key `key` held down (`true`) or released.
    pub open spec fn with_key(self, key: int, pressed: bool) -> Machine {
        Machine { keys: self.keys.update(key, pressed), ..self }
    }

    /// The machine after one tick of the 60 Hz clock: each timer that is
    /// not yet zero goes down by one.
    pub open spec fn with_timers_ticked(self) -> Machine {
        Machine {
            delay_timer: if self.delay_timer > 0 {
                (self.delay_timer - 1) as u8
            } else {
                0
            },
            sound_timer: if self.sound_timer > 0 {
                (self.sound_timer - 1) as u8
            } else {
                0
            },
            ..self
        }
    }

    /// The machine with register `x` set to `value`.
    pub open spec fn with_register(self, x: int, value: u8) -> Machine {
        Machine { v: self.v.update(x, value), ..self }
    }

    /// The machine with the flag register set to `0` or `1`.
    pub open spec fn with_flag(self, flag: bool) -> Machine {
        self.with_register(FLAG as int, if flag { 1u8 } else { 0u8 })
    }

    /// The machine with the program counter moved past the next
    /// instruction if `condition` holds.
    pub open spec fn skip_if(self, condition: bool) -> Machine {
        if condition {
            Machine { program_counter: (self.program_counter + 2) as u16, ..self }
        } else {
            self
        }
    }
}

} // verus!
