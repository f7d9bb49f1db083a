//! An interpreter core for the CHIP-8 virtual machine.
//!
//! The crate holds the machine's parts as plain values: the nibble decoders
//! of [`address`], the 4 KiB [`ram::Ram`], the register file and call stack of
//! [`cpu::Cpu`], and the three devices an instruction may touch, a
//! [`screen::Screen`], a [`keypad::Keypad`] and a pair of [`timers::Timers`].
//! A host owns these values, feeds key events and timer pulses into them, and
//! calls [`cpu::Cpu::tick`] once per instruction.
//!
//! Every executable function is verified against a mathematical model of the
//! machine: [`model::Machine`] with its transition function [`model::step`],
//! over the instruction set of [`instruction`]. What follows from the model
//! for each instruction is proved in [`laws`].
pub mod address;
pub mod cpu;
pub mod error;
pub mod instruction;
pub mod keypad;
pub mod laws;
pub mod model;
pub mod ram;
pub mod ret;
pub mod screen;
pub mod timers;
