//! A CHIP-8 virtual machine: registers, memory, call stack, timers, keypad,
//! a monochrome framebuffer and the fetch-decode-execute cycle, each with a
//! machine-checked contract.

pub mod num;
pub mod opcode;
pub mod register;
pub mod stack;
pub mod keypad;
pub mod timer;
pub mod display;
pub mod memory;
pub mod cpu;

pub use cpu::{Cpu, CpuState, Fault, Mode};
pub use display::HEIGHT as DISPLAY_HEIGHT;
pub use display::WIDTH as DISPLAY_WIDTH;
pub use keypad::{KeyCode, KeyState};
pub use memory::LoadError;
