//! A 16-bit instruction-set simulator with a three-ring privilege model,
//! condition flags packed into a status register, and a flat 64 KiB
//! byte-addressable memory.

pub mod decoder;
pub mod flags;
pub mod registers;
pub mod syscall;
pub mod text;
pub mod vm;
