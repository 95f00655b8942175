//! A CHIP-8 virtual machine: memory, registers, the instruction cycle,
//! the sprite framebuffer and the two countdown timers.
//!
//! The machine never touches a window, a keyboard or a sound device: a
//! step reports what the display or the keyboard has to do, and the caller
//! does it.
pub mod keypad;
pub mod lemmas;
pub mod opcode;
pub mod screen;
pub mod timers;
pub mod vm;

pub use keypad::{char_key, key_char};
pub use opcode::{decode, lower_second_byte, upper_first_byte, upper_second_byte, Instruction};
pub use screen::{Framebuffer, MainLoopAction, SCREEN_HEIGHT, SCREEN_PIXELS, SCREEN_WIDTH};
pub use timers::Timers;
pub use vm::{
    LoadError, StepEffect, Vm, VmError, VmState, MAX_PROGRAM_LEN, MEMORY_SIZE, PROGRAM_START,
};
