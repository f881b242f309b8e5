//! Machine-backend core for a 64-bit "power64" target: register model,
//! calling-convention engine, machine-instruction representation, binary
//! emission with label fixups, and instruction selection.
//!
//! The backend turns architecture-independent IR into target machine
//! instructions.  Register allocation itself is external: this crate only
//! produces operand metadata for the allocator and consumes the returned
//! physical-register assignment.

pub mod abi;
pub mod emit;
pub mod frame;
pub mod inst;
pub mod lower;
pub mod machenv;
pub mod regs;
pub mod seqvec;
pub mod types;
