//! The ownership model of a VMM's host resources, and the plans for moving
//! ownership up (to the supervising process, via an external "chown" helper)
//! and down (to the VMM's unprivileged user).

use vstd::prelude::*;

use crate::numeric::{decimal_rep, u32_to_string};

verus! {

/// Whether host resources must be chowned up to the supervising process's
/// uid/gid before preparation, and down to a lower-privilege uid/gid before
/// invocation.
#[derive(Debug, Clone, Copy, PartialEq, Eq, Structural)]
pub enum VmmOwnershipModel {
    /// Resources are accessible as they are; no ownership changes happen.
    Shared,
    /// Resources must first be chowned to the supervising process's own
    /// uid/gid, through a privileged external helper.
    Upgraded,
    /// Resources are handed to a lower-privilege user before invocation.
    Downgraded { uid: u32, gid: u32 },
}

impl VmmOwnershipModel {
    /// The uid/gid that resources are handed down to, when the model asks
    /// for a downgrade.
    pub fn as_downgrade(&self) -> (r: Option<(u32, u32)>)
        ensures
            r == match *self {
                VmmOwnershipModel::Downgraded { uid, gid } => Some((uid, gid)),
                _ => None::<(u32, u32)>,
            },
    {
        match *self {
            VmmOwnershipModel::Downgraded { uid, gid } => Some((uid, gid)),
            _ => None,
        }
    }

    pub open spec fn requires_upgrade(self) -> bool {
        self is Upgraded
    }
}

/// An error from an ownership upgrade or downgrade.
#[derive(Debug, PartialEq, Eq, Structural)]
pub enum ChangeOwnerError {
    /// The external "chown" helper could not be spawned.
    ProcessSpawnFailed,
    /// Waiting for the external "chown" helper failed.
    ProcessWaitFailed,
    /// The external "chown" helper exited with the given raw wait status,
    /// which is neither success nor the benign concurrent-chown status.
    ProcessExitedWithWrongStatus(i32),
    /// The in-process recursive ownership change failed.
    RecursiveChownFailed,
}

/// An external process invocation: a binary path and its arguments.
pub struct ChownCommand {
    pub binary: String,
    pub arguments: Vec<String>,
}

/// Relies on nix::unistd::geteuid: the effective user ID of the calling
/// process. The value depends on the environment, so nothing is promised
/// of it.
#[verifier::external_body]
pub(crate) fn process_uid() -> u32 {
    nix::unistd::geteuid().as_raw()
}

/// Relies on nix::unistd::getegid: the effective group ID of the calling
/// process. The value depends on the environment, so nothing is promised
/// of it.
#[verifier::external_body]
pub(crate) fn process_gid() -> u32 {
    nix::unistd::getegid().as_raw()
}

/// The argument list of a recursive, forced chown of `path` to `uid:gid`.
pub open spec fn chown_arguments_spec(uid: u32, gid: u32, path: Seq<char>) -> Seq<Seq<char>> {
    seq!["-f"@, "-R"@, decimal_rep(uid as nat) + seq![':'] + decimal_rep(gid as nat), path]
}

/// Builds the arguments for a recursive, forced chown of `path`.
pub fn chown_arguments(uid: u32, gid: u32, path: &str) -> (r: Vec<String>)
    ensures
        r.deep_view() == chown_arguments_spec(uid, gid, path@),
{
    let mut owner = u32_to_string(uid);
    owner.append(":");
    let gid_string = u32_to_string(gid);
    owner.append(gid_string.as_str());
    proof {
        reveal_strlit(":");
        assert(owner@ =~= decimal_rep(uid as nat) + seq![':'] + decimal_rep(gid as nat));
    }
    let mut r: Vec<String> = Vec::new();
    r.push("-f".to_owned());
    r.push("-R".to_owned());
    r.push(owner);
    r.push(path.to_owned());
    proof {
        assert(r.deep_view() =~= chown_arguments_spec(uid, gid, path@));
    }
    r
}

/// The external command that upgrades the ownership of `path` to the
/// supervising process's own uid/gid, when the model asks for an upgrade.
/// Upgrading may need privilege that in-process code does not have, so it
/// goes through a setuid-capable external "chown".
pub fn upgrade_owner_command(path: &str, ownership_model: &VmmOwnershipModel) -> (r: Option<
    ChownCommand,
>)
    ensures
        r is Some <==> ownership_model.requires_upgrade(),
        r matches Some(c) ==> c.binary@ == "chown"@ && exists|uid: u32, gid: u32|
            c.arguments.deep_view() == chown_arguments_spec(uid, gid, path@),
{
    if let VmmOwnershipModel::Upgraded = ownership_model {
        let uid = process_uid();
        let gid = process_gid();
        let arguments = chown_arguments(uid, gid, path);
        let c = ChownCommand { binary: "chown".to_owned(), arguments };
        assert(c.arguments.deep_view() == chown_arguments_spec(uid, gid, path@));
        Some(c)
    } else {
        None
    }
}

/// Success and the benign concurrent-chown status leave the upgrade in
/// order; any other raw wait status of the external "chown" is an error.
pub fn interpret_chown_status(raw_wait_status: i32) -> (r: Result<(), ChangeOwnerError>)
    ensures
        r is Ok <==> raw_wait_status == 0 || raw_wait_status == 256,
        r matches Err(e) ==> e == ChangeOwnerError::ProcessExitedWithWrongStatus(raw_wait_status),
{
    if raw_wait_status == 0 || raw_wait_status == 256 {
        Ok(())
    } else {
        Err(ChangeOwnerError::ProcessExitedWithWrongStatus(raw_wait_status))
    }
}

} // verus!
