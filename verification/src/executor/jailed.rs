//! The jailed executor: it runs the VMM through the jailer binary inside a
//! per-VM chroot, staging every guest-visible resource into the jail under a
//! caller-chosen renaming strategy.

use vstd::prelude::*;

use crate::executor::{FileCreation, VmmExecutor, VmmExecutorError, VmmInvokePlan};
use crate::path::{file_name, file_name_spec, jail_join, jail_join_spec, parent_dir, parent_dir_spec};
use crate::vmm::arguments::{
    append_strings, apply_chain_spec, apply_command_modifier_chain, push_str, vmm_arguments_spec,
    CommandModifier, VmmApiSocket, VmmArguments, VmmConfigurationOverride,
};
use crate::vmm::installation::VmmInstallation;
use crate::vmm::jailer::{jailer_arguments_spec, JailerArguments};
use crate::vmm::ownership::VmmOwnershipModel;

verus! {

/// An error emitted by a [`JailRenamer`].
#[derive(Debug)]
pub enum JailRenamerError {
    /// The outer path has no final component to carry into the jail.
    PathHasNoFilename(String),
    /// No inner path was configured for the outer path.
    PathIsUnmapped(String),
}

/// What a renamer decides for one outer path.
pub enum RenameOutcome {
    /// The outer path is carried into the jail under this inner path.
    Renamed(Seq<char>),
    /// The outer path has no final component.
    NoFilename,
    /// No mapping was configured for the outer path.
    Unmapped,
}

/// A conversion strategy from an outer (host) path to an inner (jail) path.
/// The conversion is a pure function of the renamer and the outer path: the
/// same outer path always produces the same inner path or the same error.
/// Snapshot restoration depends on this, since it must recompute inner paths
/// for already-staged files.
pub trait JailRenamer: Sized {
    /// The inner path or failure that this renamer assigns to an outer path.
    spec fn rename_spec(&self, outer: Seq<char>) -> RenameOutcome;

    /// Renames the outer path to an inner path.
    fn rename_for_jail(&self, outer_path: &str) -> (r: Result<String, JailRenamerError>)
        ensures
            match r {
                Ok(inner) => self.rename_spec(outer_path@) == RenameOutcome::Renamed(inner@),
                Err(JailRenamerError::PathHasNoFilename(p)) => p@ == outer_path@
                    && self.rename_spec(outer_path@) == RenameOutcome::NoFilename,
                Err(JailRenamerError::PathIsUnmapped(p)) => p@ == outer_path@
                    && self.rename_spec(outer_path@) == RenameOutcome::Unmapped,
            },
    ;
}

/// Renamer determinism: the contract of
/// [`JailRenamer::rename_for_jail`] pins every result to
/// [`JailRenamer::rename_spec`], a function of the renamer and the outer
/// path alone. Two inner paths that both satisfy that contract for the same
/// renamer and outer path — the results of any two calls — are therefore
/// equal: the renaming is referentially transparent, which snapshot
/// restoration relies on to recompute inner paths of already-staged files.
pub proof fn lemma_renamer_deterministic<J: JailRenamer>(
    renamer: &J,
    outer: Seq<char>,
    first_inner: Seq<char>,
    second_inner: Seq<char>,
)
    requires
        renamer.rename_spec(outer) == RenameOutcome::Renamed(first_inner),
        renamer.rename_spec(outer) == RenameOutcome::Renamed(second_inner),
    ensures
        first_inner == second_inner,
{
}

/// A renamer that maps a host path with final component `name` to `/name`
/// inside the jail. Since files have unique names in most configurations,
/// this is enough for most scenarios; collisions are the caller's
/// responsibility.
#[derive(Debug, Clone, Default)]
pub struct FlatJailRenamer;

impl JailRenamer for FlatJailRenamer {
    open spec fn rename_spec(&self, outer: Seq<char>) -> RenameOutcome {
        match file_name_spec(outer) {
            Some(name) => RenameOutcome::Renamed("/"@ + name),
            None => RenameOutcome::NoFilename,
        }
    }

    fn rename_for_jail(&self, outer_path: &str) -> (r: Result<String, JailRenamerError>) {
        match file_name(outer_path) {
            Some(name) => Ok("/".to_owned().concat(name.as_str())),
            None => Err(JailRenamerError::PathHasNoFilename(outer_path.to_owned())),
        }
    }
}

/// The inner path that a mapping table assigns to an outer path; a later
/// entry for the same outer path stands before an earlier one.
pub open spec fn mapping_lookup(m: Seq<(String, String)>, outer: Seq<char>) -> Option<Seq<char>>
    decreases m.len(),
{
    if m.len() == 0 {
        None
    } else if m.last().0@ == outer {
        Some(m.last().1@)
    } else {
        mapping_lookup(m.drop_last(), outer)
    }
}

/// Prepare-mapping totality, resolution half: a mapping list resolves every
/// outer path that stands in it, so the mapping an executor's preparation
/// returns — which holds exactly one entry per input outer path, in input
/// order — covers all of its inputs.
pub proof fn lemma_mapping_covers_inputs(m: Seq<(String, String)>, i: int)
    requires
        0 <= i < m.len(),
    ensures
        mapping_lookup(m, m[i].0@) is Some,
    decreases m.len(),
{
    if m.last().0@ == m[i].0@ {
    } else {
        assert(i < m.len() - 1);
        lemma_mapping_covers_inputs(m.drop_last(), i);
        assert(m.drop_last()[i] == m[i]);
    }
}

/// A renamer with an explicit table from outer paths to inner paths; outer
/// paths absent from the table are rejected.
#[derive(Debug, Clone, Default)]
pub struct MappingJailRenamer {
    pub mappings: Vec<(String, String)>,
}

impl MappingJailRenamer {
    pub fn new() -> (r: Self)
        ensures
            r.mappings@.len() == 0,
    {
        MappingJailRenamer { mappings: Vec::new() }
    }

    /// Adds one outer-to-inner mapping, superseding any earlier mapping of
    /// the same outer path.
    pub fn map(&mut self, outside_path: String, jail_path: String)
        ensures
            final(self).mappings@ == old(self).mappings@.push((outside_path, jail_path)),
    {
        self.mappings.push((outside_path, jail_path));
    }

    /// Adds every given outer-to-inner mapping, in order.
    pub fn map_all(&mut self, mappings: Vec<(String, String)>)
        ensures
            final(self).mappings@ == old(self).mappings@ + mappings@,
    {
        let mut added = mappings;
        self.mappings.append(&mut added);
    }
}

impl JailRenamer for MappingJailRenamer {
    open spec fn rename_spec(&self, outer: Seq<char>) -> RenameOutcome {
        match mapping_lookup(self.mappings@, outer) {
            Some(inner) => RenameOutcome::Renamed(inner),
            None => RenameOutcome::Unmapped,
        }
    }

    fn rename_for_jail(&self, outer_path: &str) -> (r: Result<String, JailRenamerError>) {
        let outer_string = outer_path.to_owned();
        let mut i: usize = self.mappings.len();
        proof {
            assert(self.mappings@.subrange(0, self.mappings@.len() as int) =~= self.mappings@);
        }
        while i > 0
            invariant
                0 <= i <= self.mappings@.len(),
                outer_string@ == outer_path@,
                mapping_lookup(self.mappings@.subrange(0, i as int), outer_path@)
                    == mapping_lookup(self.mappings@, outer_path@),
            decreases i,
        {
            proof {
                let prefix = self.mappings@.subrange(0, i as int);
                assert(prefix.last() == self.mappings@[i - 1]);
                assert(prefix.drop_last() =~= self.mappings@.subrange(0, i - 1));
            }
            if self.mappings[i - 1].0 == outer_string {
                return Ok(self.mappings[i - 1].1.clone());
            }
            i = i - 1;
        }
        proof {
            assert(self.mappings@.subrange(0, 0) =~= Seq::<(String, String)>::empty());
        }
        Err(JailRenamerError::PathIsUnmapped(outer_string))
    }
}

/// The method of moving a resource into the jail.
#[derive(Debug, Clone, Copy, PartialEq, Eq, Structural)]
pub enum JailMoveMethod {
    /// Byte-copy the file.
    Copy,
    /// Hard-link the file; fails across filesystems or on permission errors.
    /// (Symbolic links do not work under a chroot, so they are not offered.)
    HardLink,
    /// Try a hard link first and fall back to a byte-copy on any error.
    HardLinkWithCopyFallback,
}

/// One resource to be staged into the jail: its host path, the inner path
/// the renamer assigned, and the host location of that inner path inside
/// the jail. The driver upgrades ownership of the outer path, verifies it
/// exists, creates the parent directories of the expanded path, and moves
/// the file with the plan's move method.
#[derive(Debug)]
pub struct ResourceStaging {
    pub outer_path: String,
    pub inner_path: String,
    pub expanded_inner_path: String,
}

/// Everything the driver must do to prepare a jail, as plain data. Ownership
/// of `chroot_base_dir` is upgraded first; an existing `jail_path` is
/// removed and recreated fresh; the socket parent directory and the log and
/// metrics files are created inside the jail; every resource is staged; and
/// at the end the whole jail is recursively chowned to the downgrade owner,
/// when the ownership model names one.
#[derive(Debug)]
pub struct JailPreparePlan {
    pub chroot_base_dir: String,
    pub jail_path: String,
    pub socket_parent_dir: Option<String>,
    pub log_file: Option<FileCreation>,
    pub metrics_file: Option<FileCreation>,
    pub move_method: JailMoveMethod,
    pub resources: Vec<ResourceStaging>,
}

/// An executor that runs the VMM through the jailer binary for isolation:
/// the jailer creates a chroot, drops privileges and re-executes the VMM
/// inside it. Because of the jailer's design this executor must itself run
/// as root, while the VMM runs as the configured unprivileged user.
#[derive(Debug)]
pub struct JailedVmmExecutor<J: JailRenamer> {
    pub vmm_arguments: VmmArguments,
    pub jailer_arguments: JailerArguments,
    pub jail_move_method: JailMoveMethod,
    pub jail_renamer: J,
    pub command_modifier_chain: Vec<CommandModifier>,
}

/// The base directory under which jails are created.
pub open spec fn chroot_base_dir_spec(a: JailerArguments) -> Seq<char> {
    match a.chroot_base_dir {
        Some(d) => d@,
        None => "/srv/jailer"@,
    }
}

/// The VMM binary's file name, as the jailer uses it for the jail directory.
pub open spec fn binary_name_spec(installation: &VmmInstallation) -> Seq<char> {
    match file_name_spec(installation.firecracker_path@) {
        Some(name) => name,
        None => "firecracker"@,
    }
}

impl<J: JailRenamer> JailedVmmExecutor<J> {
    pub fn new(
        vmm_arguments: VmmArguments,
        jailer_arguments: JailerArguments,
        jail_renamer: J,
    ) -> (r: Self)
        ensures
            r == (JailedVmmExecutor {
                vmm_arguments,
                jailer_arguments,
                jail_move_method: JailMoveMethod::Copy,
                jail_renamer,
                command_modifier_chain: r.command_modifier_chain,
            }),
            r.command_modifier_chain@.len() == 0,
    {
        JailedVmmExecutor {
            vmm_arguments,
            jailer_arguments,
            jail_move_method: JailMoveMethod::Copy,
            jail_renamer,
            command_modifier_chain: Vec::new(),
        }
    }

    pub fn jail_move_method(self, jail_move_method: JailMoveMethod) -> (r: Self)
        ensures
            r == (JailedVmmExecutor { jail_move_method, ..self }),
    {
        JailedVmmExecutor { jail_move_method, ..self }
    }

    pub fn command_modifier(self, command_modifier: CommandModifier) -> (r: Self)
        ensures
            r.command_modifier_chain@ == self.command_modifier_chain@.push(command_modifier),
            r == (JailedVmmExecutor { command_modifier_chain: r.command_modifier_chain, ..self }),
    {
        let mut chain = self.command_modifier_chain;
        chain.push(command_modifier);
        JailedVmmExecutor { command_modifier_chain: chain, ..self }
    }

    pub fn command_modifiers(self, command_modifiers: Vec<CommandModifier>) -> (r: Self)
        ensures
            r.command_modifier_chain@ == self.command_modifier_chain@ + command_modifiers@,
            r == (JailedVmmExecutor { command_modifier_chain: r.command_modifier_chain, ..self }),
    {
        let mut chain = self.command_modifier_chain;
        let mut added = command_modifiers;
        chain.append(&mut added);
        JailedVmmExecutor { command_modifier_chain: chain, ..self }
    }

    /// The jail root: `chroot_base / binary_name / jail_id / root`.
    pub open spec fn jail_path_spec(&self, installation: &VmmInstallation) -> Seq<char> {
        chroot_base_dir_spec(self.jailer_arguments) + "/"@ + binary_name_spec(installation) + "/"@
            + self.jailer_arguments.jail_id@ + "/root"@
    }

    /// The chroot base directory and the jail root for an installation.
    pub fn get_paths(&self, installation: &VmmInstallation) -> (r: (String, String))
        ensures
            r.0@ == chroot_base_dir_spec(self.jailer_arguments),
            r.1@ == self.jail_path_spec(installation),
    {
        let chroot_base_dir = match &self.jailer_arguments.chroot_base_dir {
            Some(d) => d.clone(),
            None => "/srv/jailer".to_owned(),
        };
        let binary_name = match file_name(installation.firecracker_path.as_str()) {
            Some(name) => name,
            None => "firecracker".to_owned(),
        };
        let jail_path = chroot_base_dir.clone().concat("/").concat(binary_name.as_str()).concat(
            "/",
        ).concat(self.jailer_arguments.jail_id.as_str()).concat("/root");
        (chroot_base_dir, jail_path)
    }

    /// Plans the preparation of the jail: resolves the jail root, expands
    /// the socket, log and metrics locations into it, and renames every
    /// outer resource to its staging destination. Fails if and only if the
    /// renamer rejects one of the outer paths; nothing is planned for the
    /// rejected path's successors.
    pub fn plan_prepare(&self, installation: &VmmInstallation, outer_paths: &Vec<String>) -> (r:
        Result<JailPreparePlan, VmmExecutorError>)
        ensures
            r is Ok <==> (forall|i: int|
                0 <= i < outer_paths@.len() ==> self.jail_renamer.rename_spec(
                    #[trigger] outer_paths@[i]@,
                ) is Renamed),
            r matches Ok(plan) ==> {
                &&& plan.chroot_base_dir@ == chroot_base_dir_spec(self.jailer_arguments)
                &&& plan.jail_path@ == self.jail_path_spec(installation)
                &&& plan.move_method == self.jail_move_method
                &&& match self.vmm_arguments.api_socket {
                    VmmApiSocket::Disabled => plan.socket_parent_dir is None,
                    VmmApiSocket::Enabled(socket_path) => match parent_dir_spec(socket_path@) {
                        Some(parent) => plan.socket_parent_dir matches Some(dir) && dir@
                            == jail_join_spec(self.jail_path_spec(installation), parent),
                        None => plan.socket_parent_dir is None,
                    },
                }
                &&& match self.vmm_arguments.log_path {
                    Some(log_path) => plan.log_file matches Some(f) && f.path@ == jail_join_spec(
                        self.jail_path_spec(installation),
                        log_path@,
                    ) && f.only_tree == false,
                    None => plan.log_file is None,
                }
                &&& match self.vmm_arguments.metrics_path {
                    Some(metrics_path) => plan.metrics_file matches Some(f) && f.path@
                        == jail_join_spec(self.jail_path_spec(installation), metrics_path@)
                        && f.only_tree == false,
                    None => plan.metrics_file is None,
                }
                &&& plan.resources@.len() == outer_paths@.len()
                &&& forall|i: int|
                    0 <= i < outer_paths@.len() ==> {
                        &&& (#[trigger] plan.resources@[i]).outer_path@ == outer_paths@[i]@
                        &&& self.jail_renamer.rename_spec(outer_paths@[i]@)
                            == RenameOutcome::Renamed(plan.resources@[i].inner_path@)
                        &&& plan.resources@[i].expanded_inner_path@ == jail_join_spec(
                            self.jail_path_spec(installation),
                            plan.resources@[i].inner_path@,
                        )
                    }
            },
            r matches Err(e) ==> e matches VmmExecutorError::JailRenamerFailed(_) && exists|i: int|
                0 <= i < outer_paths@.len() && !(self.jail_renamer.rename_spec(
                    #[trigger] outer_paths@[i]@,
                ) is Renamed),
    {
        let (chroot_base_dir, jail_path) = self.get_paths(installation);

        let socket_parent_dir = match &self.vmm_arguments.api_socket {
            VmmApiSocket::Disabled => None,
            VmmApiSocket::Enabled(socket_path) => match parent_dir(socket_path.as_str()) {
                Some(parent) => Some(jail_join(jail_path.as_str(), parent.as_str())),
                None => None,
            },
        };

        let log_file = match &self.vmm_arguments.log_path {
            Some(log_path) => Some(
                FileCreation {
                    path: jail_join(jail_path.as_str(), log_path.as_str()),
                    only_tree: false,
                },
            ),
            None => None,
        };

        let metrics_file = match &self.vmm_arguments.metrics_path {
            Some(metrics_path) => Some(
                FileCreation {
                    path: jail_join(jail_path.as_str(), metrics_path.as_str()),
                    only_tree: false,
                },
            ),
            None => None,
        };

        let mut resources: Vec<ResourceStaging> = Vec::new();
        let mut i: usize = 0;
        while i < outer_paths.len()
            invariant
                0 <= i <= outer_paths@.len(),
                jail_path@ == self.jail_path_spec(installation),
                resources@.len() == i,
                forall|j: int|
                    0 <= j < i ==> {
                        &&& (#[trigger] resources@[j]).outer_path@ == outer_paths@[j]@
                        &&& self.jail_renamer.rename_spec(outer_paths@[j]@)
                            == RenameOutcome::Renamed(resources@[j].inner_path@)
                        &&& resources@[j].expanded_inner_path@ == jail_join_spec(
                            self.jail_path_spec(installation),
                            resources@[j].inner_path@,
                        )
                    },
            decreases outer_paths@.len() - i,
        {
            match self.jail_renamer.rename_for_jail(outer_paths[i].as_str()) {
                Ok(inner_path) => {
                    let expanded_inner_path = jail_join(jail_path.as_str(), inner_path.as_str());
                    resources.push(
                        ResourceStaging {
                            outer_path: outer_paths[i].clone(),
                            inner_path,
                            expanded_inner_path,
                        },
                    );
                },
                Err(renamer_error) => {
                    assert(!(self.jail_renamer.rename_spec(outer_paths@[i as int]@) is Renamed));
                    return Err(VmmExecutorError::JailRenamerFailed(renamer_error));
                },
            }
            i = i + 1;
        }
        proof {
            assert forall|k: int|
                0 <= k < outer_paths@.len() implies self.jail_renamer.rename_spec(
                #[trigger] outer_paths@[k]@,
            ) is Renamed by {
                assert(resources@[k].outer_path@ == outer_paths@[k]@);
            }
        }

        Ok(
            JailPreparePlan {
                chroot_base_dir,
                jail_path,
                socket_parent_dir,
                log_file,
                metrics_file,
                move_method: self.jail_move_method,
                resources,
            },
        )
    }

    /// The uid/gid that the jail's user resolves to: the ownership model's
    /// downgrade target when it names one, else what the jailer arguments
    /// were constructed with.
    pub open spec fn resolved_jail_owner(&self, ownership_model: VmmOwnershipModel) -> (u32, u32) {
        match ownership_model {
            VmmOwnershipModel::Downgraded { uid, gid } => (uid, gid),
            _ => (self.jailer_arguments.uid, self.jailer_arguments.gid),
        }
    }

    /// Plans the invocation of the jailer: the jailer's arguments — with the
    /// jail's user resolved through the ownership model — a `--` separator,
    /// then the VMM's arguments, run through the command-modifier chain.
    /// When the jailer daemonizes or enters a new PID namespace, the spawned
    /// child only writes a PID file and exits, so the plan names the PID
    /// file whose process the driver must adopt.
    pub fn plan_invoke(
        &self,
        installation: &VmmInstallation,
        config_override: VmmConfigurationOverride,
        ownership_model: VmmOwnershipModel,
    ) -> (r: VmmInvokePlan)
        ensures
            ({
                let owner = self.resolved_jail_owner(ownership_model);
                let joined = jailer_arguments_spec(
                    JailerArguments { uid: owner.0, gid: owner.1, ..self.jailer_arguments },
                    installation.firecracker_path@,
                ) + seq!["--"@] + vmm_arguments_spec(self.vmm_arguments, config_override);
                let applied = apply_chain_spec(
                    self.command_modifier_chain@,
                    installation.jailer_path@,
                    joined,
                );
                &&& r.binary_path@ == applied.0
                &&& r.arguments.deep_view() == applied.1
                &&& r.pipes_to_null == false
                &&& if self.jailer_arguments.daemonize || self.jailer_arguments.exec_in_new_pid_ns {
                    r.pid_file_path matches Some(p) && p@ == self.jail_path_spec(installation)
                        + "/"@ + binary_name_spec(installation) + ".pid"@
                } else {
                    r.pid_file_path is None
                }
            }),
    {
        let ghost config_override_ghost = config_override;
        let (uid, gid) = match ownership_model.as_downgrade() {
            Some(owner) => owner,
            None => (self.jailer_arguments.uid, self.jailer_arguments.gid),
        };
        let mut arguments = self.jailer_arguments.join_with_owner(
            uid,
            gid,
            installation.firecracker_path.as_str(),
        );
        push_str(&mut arguments, "--");
        let vmm_part = self.vmm_arguments.join(config_override);
        append_strings(&mut arguments, vmm_part);
        proof {
            let owner = self.resolved_jail_owner(ownership_model);
            assert(arguments.deep_view() =~= jailer_arguments_spec(
                JailerArguments { uid: owner.0, gid: owner.1, ..self.jailer_arguments },
                installation.firecracker_path@,
            ) + seq!["--"@] + vmm_arguments_spec(self.vmm_arguments, config_override_ghost));
        }
        let applied = apply_command_modifier_chain(
            &self.command_modifier_chain,
            installation.jailer_path.clone(),
            arguments,
        );

        let pid_file_path = if self.jailer_arguments.daemonize || self.jailer_arguments.exec_in_new_pid_ns {
            let (_, jail_path) = self.get_paths(installation);
            let binary_name = match file_name(installation.firecracker_path.as_str()) {
                Some(name) => name,
                None => "firecracker".to_owned(),
            };
            Some(jail_path.concat("/").concat(binary_name.as_str()).concat(".pid"))
        } else {
            None
        };

        VmmInvokePlan {
            binary_path: applied.0,
            arguments: applied.1,
            pipes_to_null: false,
            pid_file_path,
        }
    }

    /// Plans the cleanup of the jail: ownership of the jail root is
    /// upgraded, then the jail's parent directory — the whole per-VM tree —
    /// is removed recursively. Fails only in the pathological case of a
    /// jail root without a parent.
    pub fn plan_cleanup(&self, installation: &VmmInstallation) -> (r: Result<
        JailCleanupPlan,
        VmmExecutorError,
    >)
        ensures
            r is Ok <==> parent_dir_spec(self.jail_path_spec(installation)) is Some,
            r matches Ok(plan) ==> {
                &&& plan.upgrade_path@ == self.jail_path_spec(installation)
                &&& parent_dir_spec(self.jail_path_spec(installation)) == Some(plan.remove_dir@)
            },
            r matches Err(e) ==> e is ExpectedDirectoryParentMissing,
    {
        let (_, jail_path) = self.get_paths(installation);
        match parent_dir(jail_path.as_str()) {
            Some(parent) => Ok(JailCleanupPlan { upgrade_path: jail_path, remove_dir: parent }),
            None => Err(VmmExecutorError::ExpectedDirectoryParentMissing),
        }
    }
}

/// The cleanup work of the jailed executor: upgrade ownership of the jail
/// root, then remove the jail's parent directory recursively. Removing the
/// parent erases the per-VM tree whole, which is what makes the jailed
/// executor traceless.
#[derive(Debug)]
pub struct JailCleanupPlan {
    pub upgrade_path: String,
    pub remove_dir: String,
}

/// Traceless guarantee, as far as it is a matter of paths: the jailed
/// executor declares itself traceless, and its cleanup plan removes —
/// recursively — the jail root's parent directory, under which the jail
/// root and everything staged into it live. Once the driver has carried the
/// removal out, no per-VM residue remains on the host.
pub proof fn lemma_jailed_cleanup_is_traceless<J: JailRenamer>(
    executor: &JailedVmmExecutor<J>,
    installation: &VmmInstallation,
    plan: &JailCleanupPlan,
)
    requires
        parent_dir_spec(executor.jail_path_spec(installation)) == Some(plan.remove_dir@),
    ensures
        executor.traceless_spec(),
        plan.remove_dir@.len() < executor.jail_path_spec(installation).len(),
        plan.remove_dir@ == executor.jail_path_spec(installation).subrange(
            0,
            plan.remove_dir@.len() as int,
        ),
{
    crate::path::lemma_parent_dir_is_strict_prefix(
        executor.jail_path_spec(installation),
        plan.remove_dir@,
    );
}

impl<J: JailRenamer> VmmExecutor for JailedVmmExecutor<J> {
    open spec fn socket_path_spec(&self, installation: &VmmInstallation) -> Option<Seq<char>> {
        match self.vmm_arguments.api_socket {
            VmmApiSocket::Disabled => None,
            VmmApiSocket::Enabled(socket_path) => Some(
                jail_join_spec(self.jail_path_spec(installation), socket_path@),
            ),
        }
    }

    open spec fn inner_to_outer_spec(
        &self,
        installation: &VmmInstallation,
        inner: Seq<char>,
    ) -> Seq<char> {
        jail_join_spec(self.jail_path_spec(installation), inner)
    }

    open spec fn traceless_spec(&self) -> bool {
        true
    }

    fn get_socket_path(&self, installation: &VmmInstallation) -> (r: Option<String>) {
        match &self.vmm_arguments.api_socket {
            VmmApiSocket::Disabled => None,
            VmmApiSocket::Enabled(socket_path) => {
                let (_, jail_path) = self.get_paths(installation);
                Some(jail_join(jail_path.as_str(), socket_path.as_str()))
            },
        }
    }

    fn inner_to_outer_path(&self, installation: &VmmInstallation, inner_path: &str) -> (r: String) {
        let (_, jail_path) = self.get_paths(installation);
        jail_join(jail_path.as_str(), inner_path)
    }

    fn is_traceless(&self) -> (r: bool) {
        true
    }
}

/// Path round-trip: a resource staged by the jailed executor's preparation
/// plan lands exactly where `inner_to_outer_path` resolves its renamed
/// (inner) path, so a caller can always find a staged file on the host from
/// its inner path alone.
pub proof fn lemma_prepare_path_round_trip<J: JailRenamer>(
    executor: &JailedVmmExecutor<J>,
    installation: &VmmInstallation,
    plan: &JailPreparePlan,
    i: int,
)
    requires
        0 <= i < plan.resources@.len(),
        plan.resources@[i].expanded_inner_path@ == jail_join_spec(
            executor.jail_path_spec(installation),
            plan.resources@[i].inner_path@,
        ),
    ensures
        plan.resources@[i].expanded_inner_path@ == executor.inner_to_outer_spec(
            installation,
            plan.resources@[i].inner_path@,
        ),
{
}

} // verus!
