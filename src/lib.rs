//! A CHIP-8 virtual machine: memory, registers, call stack, timers, keypad
//! and a monochrome framebuffer, driven one instruction at a time.
pub mod font;
pub mod instruction;
pub mod machine;
pub mod laws;
mod random;

pub use crate::font::font_set;
pub use crate::instruction::{decode, Instruction};
pub use crate::machine::{
    new, Chip8, Chip8Error, MachineState, MEMORY_SIZE, PROGRAM_CAPACITY, PROGRAM_START, SCREEN_HEIGHT,
    SCREEN_PIXELS, SCREEN_WIDTH,
};
