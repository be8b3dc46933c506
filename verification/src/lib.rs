//! A Game Boy (LR35902) CPU core: registers, flags, a 64 KiB address
//! space, the stack, and the instruction set with its decoder and
//! disassembly listing.

use vstd::prelude::*;

pub mod bytes;
pub mod cpu;
pub mod errors;
pub mod hex;
