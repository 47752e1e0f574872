//! An instruction-set simulator for the 6502 processor.
//!
//! [`CPU`] holds the registers, the status flags, the program counter and 64 KiB of
//! memory, and runs machine code one instruction at a time. What each instruction does is
//! stated in [`model`], over a mathematical view of the machine; every executable function
//! is proved against it, and [`laws`] proves properties that relate several of them.
//!
//! Boundary policies:
//! - a two-byte access starting at 0xFFFF is refused with `OutOfRangeAccess`, in `read16`
//!   and `write16` alike and in operand resolution;
//! - a taken branch whose target leaves 0x0000..=0xFFFF stops the run with
//!   `BranchOverflow`;
//! - a fatal condition leaves the machine in the state in which it was met.

pub mod cpu;
pub mod error;
pub mod laws;
pub mod memory;
pub mod model;
pub mod opcode;
pub mod status;

pub use cpu::CPU;
pub use error::CpuError;
pub use memory::Mem;
pub use opcode::{AddressingMode, Mnemonic, OpCode};
pub use status::{Flag, Status};
