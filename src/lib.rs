pub mod alu;
pub mod cpu;
pub mod flags;
pub mod memory;
pub mod ops;
pub mod registers;
