//! The executor layer: a [`VmmExecutor`](crate::executor::VmmExecutor)
//! manages the environment of a VMM invocation. The two strategies — jailed
//! and unrestricted — answer the same three queries and describe their
//! preparation, invocation and cleanup work as plain data (plans) that an
//! unverified driver carries out against the filesystem and the process
//! table.

pub mod jailed;
pub mod process_handle;
pub mod unrestricted;

use vstd::prelude::*;

use crate::vmm::installation::VmmInstallation;
use crate::vmm::ownership::ChangeOwnerError;

verus! {

/// An error emitted by an executor or by the driver acting on its plans.
#[derive(Debug)]
pub enum VmmExecutorError {
    /// A filesystem operation of a plan failed; the message is the
    /// underlying I/O error's text.
    FilesystemError { message: String },
    /// An ownership upgrade or downgrade failed.
    ChangeOwnerError(ChangeOwnerError),
    /// Joining a concurrent staging task failed.
    TaskJoinFailed,
    /// Spawning the VMM, the jailer or an auxiliary process failed.
    ProcessSpawnFailed { message: String },
    /// A resource at the given path was expected on the host but is missing.
    ExpectedResourceMissing(String),
    /// A directory that must have a parent in the filesystem has none.
    ExpectedDirectoryParentMissing,
    /// The jail renamer could not produce an inner path.
    JailRenamerFailed(crate::executor::jailed::JailRenamerError),
    /// A spawned process exited with the given raw wait status where success
    /// was required.
    ProcessExitedWithIncorrectStatus(i32),
    /// Waiting for a spawned process failed.
    ProcessWaitError { message: String },
    /// Allocating a process file descriptor for a detached process failed.
    PidfdAllocationError { message: String },
}

/// A [`VmmExecutor`] manages the environment of a VMM: where its API socket
/// lives on the host, how inner paths map back to host paths, and whether
/// its cleanup leaves residue behind.
pub trait VmmExecutor: Sized {
    /// The host path of the VMM's API socket, if one is configured.
    spec fn socket_path_spec(&self, installation: &VmmInstallation) -> Option<Seq<char>>;

    /// The host path at which the VMM sees the given inner path.
    spec fn inner_to_outer_spec(&self, installation: &VmmInstallation, inner: Seq<char>) -> Seq<
        char,
    >;

    /// Whether cleanup is guaranteed to leave no residue on the host.
    spec fn traceless_spec(&self) -> bool;

    /// The host location of the VMM's API socket, if one is configured.
    fn get_socket_path(&self, installation: &VmmInstallation) -> (r: Option<String>)
        ensures
            match r {
                Some(p) => self.socket_path_spec(installation) == Some(p@),
                None => self.socket_path_spec(installation) is None,
            },
    ;

    /// Resolves an inner path into an outer (host) path.
    fn inner_to_outer_path(&self, installation: &VmmInstallation, inner_path: &str) -> (r: String)
        ensures
            r@ == self.inner_to_outer_spec(installation, inner_path@),
    ;

    /// Whether this executor's cleanup leaves any traces on the host.
    fn is_traceless(&self) -> (r: bool)
        ensures
            r == self.traceless_spec(),
    ;
}

/// A resource must exist on the host before it can be staged: turns the
/// driver's existence check into the executor's verdict.
pub fn check_resource_exists(outer_path: &str, exists: bool) -> (r: Result<(), VmmExecutorError>)
    ensures
        r is Ok <==> exists,
        r matches Err(e) ==> e matches VmmExecutorError::ExpectedResourceMissing(p) && p@
            == outer_path@,
{
    if exists {
        Ok(())
    } else {
        Err(VmmExecutorError::ExpectedResourceMissing(outer_path.to_owned()))
    }
}

/// A daemonizing invocation requires the intermediate process to exit
/// successfully: turns its raw wait status into the executor's verdict.
pub fn check_invoke_exit_status(raw_wait_status: i32) -> (r: Result<(), VmmExecutorError>)
    ensures
        r is Ok <==> raw_wait_status == 0,
        r matches Err(e) ==> e matches VmmExecutorError::ProcessExitedWithIncorrectStatus(s) && s
            == raw_wait_status,
{
    if raw_wait_status == 0 {
        Ok(())
    } else {
        Err(VmmExecutorError::ProcessExitedWithIncorrectStatus(raw_wait_status))
    }
}

/// One file to be created, together with its parent directory tree. When
/// `only_tree` is set, only the parent directories are created: the file
/// itself is left to the process that binds or writes it.
#[derive(Debug)]
pub struct FileCreation {
    pub path: String,
    pub only_tree: bool,
}

/// A spawnable external command: the plan form of a process invocation.
#[derive(Debug)]
pub struct VmmInvokePlan {
    /// The binary to spawn, after command modifiers were applied.
    pub binary_path: String,
    /// Its full argument list, after command modifiers were applied.
    pub arguments: Vec<String>,
    /// Whether the child's standard pipes are redirected to the null device.
    pub pipes_to_null: bool,
    /// For a daemonizing invocation: the PID file to poll after the spawned
    /// child exits successfully; the process named by it is adopted through
    /// a process file descriptor. Absent for a foreground invocation, whose
    /// child is supervised directly.
    pub pid_file_path: Option<String>,
}

} // verus!
