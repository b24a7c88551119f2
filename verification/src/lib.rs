//! An 8086 instruction decoder, disassembler, cycle estimator and simulator.
//!
//! The decoder reads a raw image of machine code through a byte cursor
//! (`cursor`, `fields`, `decode`) into instructions (`model`). An instruction
//! is printed as a line of NASM text (`printer`, `text`), gets an estimate of
//! its clock cycles (`cycles`), or is executed on a processor with registers,
//! flags and 64 KiB of memory (`cpu`). The loops over a whole image are in
//! `driver` and `listing`; `laws` holds what is proved of all of it together.

pub mod cpu;
pub mod cursor;
pub mod cycles;
pub mod decode;
pub mod driver;
pub mod fields;
pub mod laws;
pub mod listing;
pub mod model;
pub mod printer;
pub mod text;
