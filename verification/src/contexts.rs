//! The per-operation call contexts: the caller-side inputs and evidence
//! each lifecycle entry point receives, and the operations themselves.

pub mod account;
pub mod close;
pub mod increment;
