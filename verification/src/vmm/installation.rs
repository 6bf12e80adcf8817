//! The immutable description of where the VMM binary and its jailer live on
//! the host.

use vstd::prelude::*;

verus! {

/// An immutable triple of filesystem paths: the VMM binary, the jailer
/// binary, and the version the caller declares for them. Shared across many
/// VMs; owned by the caller and borrowed by this crate.
#[derive(Debug, Clone)]
pub struct VmmInstallation {
    pub firecracker_path: String,
    pub jailer_path: String,
    pub version: String,
}

impl VmmInstallation {
    pub fn new(firecracker_path: String, jailer_path: String, version: String) -> (r: Self)
        ensures
            r.firecracker_path@ == firecracker_path@,
            r.jailer_path@ == jailer_path@,
            r.version@ == version@,
    {
        VmmInstallation { firecracker_path, jailer_path, version }
    }
}

} // verus!
