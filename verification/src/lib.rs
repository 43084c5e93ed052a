//! Execution core of an LC-3 virtual machine.
//!
//! [`Vm`] is the executable machine. Its view is a [`machine::Machine`], and
//! each of its operations is specified as a transition of that value. The
//! module [`laws`] holds what is proved of every state and instruction.

pub mod laws;
pub mod machine;
pub mod op;
pub mod vm;
pub mod word;

pub use machine::Interrupt;
pub use op::Op;
pub use vm::Vm;
pub use word::sext;
