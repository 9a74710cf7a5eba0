//! A small virtual machine for a fixed 4KB-addressable 8-bit target:
//! sixteen 8-bit registers, a 16-entry call stack, two 8-bit timers and a
//! 64x32 monochrome framebuffer. The instruction decoder and the execution
//! engine are verified against a mathematical model of the machine; the
//! graphical front end and all input/output live outside this crate.

pub mod cpu;
pub mod lemmas;
pub mod model;
pub mod registers;
pub mod runtime;
pub mod utils;
