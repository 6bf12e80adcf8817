//! Host-side supervisor library for microVMs managed by an external VMM binary
//! and its companion jailer binary.
//!
//! The crate models the VM lifecycle engine: path translation between the host
//! and the jail, the ownership model, the argument builders for the two
//! binaries, the executors' preparation / invocation / cleanup plans, the
//! process-handle state, and the VM state machine with its ordered API boot
//! protocol. All filesystem, process and HTTP side effects are described as
//! plain data (plans and events) so that the logic itself is verified; a thin
//! unverified driver performs the described effects.

pub mod executor;
pub mod numeric;
pub mod path;
pub mod vm;
pub mod vmm;
