//! The VMM-facing layers: the installation descriptor, the ownership model,
//! and the argument builders for the VMM binary and its jailer.

pub mod arguments;
pub mod installation;
pub mod jailer;
pub mod ownership;
