//! The snapshot value: a detached pair of host files (the snapshot and its
//! guest memory) together with the device data captured when it was taken.
//! It outlives the VM that produced it.

use vstd::prelude::*;

use crate::vm::configuration::{VmConfiguration, VmConfigurationData};
use crate::vm::models::{LoadSnapshot, MemoryBackend, MemoryBackendType};

verus! {

/// The data of a snapshot created from a paused VM: the outer (host) paths
/// of its two files, and the configuration data of the VM it captures.
#[derive(Debug)]
pub struct SnapshotData {
    pub snapshot_path: String,
    pub mem_file_path: String,
    pub configuration_data: VmConfigurationData,
}

impl SnapshotData {
    pub fn new(
        snapshot_path: String,
        mem_file_path: String,
        configuration_data: VmConfigurationData,
    ) -> (r: Self)
        ensures
            r == (SnapshotData { snapshot_path, mem_file_path, configuration_data }),
    {
        SnapshotData { snapshot_path, mem_file_path, configuration_data }
    }

    pub fn snapshot_path(&self) -> (r: &String)
        ensures
            r == &self.snapshot_path,
    {
        &self.snapshot_path
    }

    pub fn mem_file_path(&self) -> (r: &String)
        ensures
            r == &self.mem_file_path,
    {
        &self.mem_file_path
    }

    pub fn configuration_data(&self) -> (r: &VmConfigurationData)
        ensures
            r == &self.configuration_data,
    {
        &self.configuration_data
    }

    /// The source/destination pairs that a copy of this snapshot's two files
    /// works on; both copies may run concurrently.
    pub fn copy_plan(&self, new_snapshot_path: &str, new_mem_file_path: &str) -> (r: [(
        String,
        String,
    ); 2])
        ensures
            r@[0].0@ == self.snapshot_path@ && r@[0].1@ == new_snapshot_path@,
            r@[1].0@ == self.mem_file_path@ && r@[1].1@ == new_mem_file_path@,
    {
        [
            (self.snapshot_path.clone(), new_snapshot_path.to_owned()),
            (self.mem_file_path.clone(), new_mem_file_path.to_owned()),
        ]
    }

    /// Records that both files now live at the given destinations: the
    /// driver has copied or moved them there. Both paths are rewritten; the
    /// captured configuration data stays as it is.
    pub fn set_destinations(&mut self, new_snapshot_path: String, new_mem_file_path: String)
        ensures
            *final(self) == (SnapshotData {
                snapshot_path: new_snapshot_path,
                mem_file_path: new_mem_file_path,
                configuration_data: final(self).configuration_data,
            }),
            final(self).configuration_data == old(self).configuration_data,
    {
        self.snapshot_path = new_snapshot_path;
        self.mem_file_path = new_mem_file_path;
    }

    /// The two files that removing this snapshot deletes.
    pub fn remove_plan(self) -> (r: (String, String))
        ensures
            r.0 == self.snapshot_path,
            r.1 == self.mem_file_path,
    {
        (self.snapshot_path, self.mem_file_path)
    }

    /// Turns this snapshot into a configuration that restores from it. The
    /// guest memory is provided as a plain file; the resume and
    /// diff-snapshot options apply when given.
    pub fn into_configuration(
        self,
        resume_vm: Option<bool>,
        enable_diff_snapshots: Option<bool>,
    ) -> (r: VmConfiguration)
        ensures
            r matches VmConfiguration::RestoredFromSnapshot { load_snapshot, data } && data
                == self.configuration_data && load_snapshot == (LoadSnapshot {
                snapshot_path: self.snapshot_path,
                mem_backend: MemoryBackend {
                    backend_type: MemoryBackendType::File,
                    backend_path: self.mem_file_path,
                },
                resume_vm: match resume_vm {
                    Some(v) => v,
                    None => false,
                },
                enable_diff_snapshots: match enable_diff_snapshots {
                    Some(v) => v,
                    None => false,
                },
            }),
    {
        let mut load_snapshot = LoadSnapshot::new(
            self.snapshot_path,
            MemoryBackend::new(MemoryBackendType::File, self.mem_file_path),
        );

        if let Some(resume_vm) = resume_vm {
            load_snapshot = load_snapshot.resume_vm(resume_vm);
        }
        if let Some(enable_diff_snapshots) = enable_diff_snapshots {
            load_snapshot = load_snapshot.enable_diff_snapshots(enable_diff_snapshots);
        }

        VmConfiguration::RestoredFromSnapshot { load_snapshot, data: self.configuration_data }
    }
}

} // verus!
