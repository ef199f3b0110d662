//! A CHIP-8 interpreter core: memory, registers, timers, the display and the
//! instruction set, with every instruction specified against a mathematical
//! model of the machine.

pub mod cpu;
pub mod instruction_laws;
pub mod laws;
pub mod random;
pub mod state;
