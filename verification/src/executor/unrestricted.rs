//! The unrestricted executor: it runs the VMM binary directly, with no
//! chroot and no privilege drop, so paths stay where the caller put them.

use vstd::prelude::*;

use crate::executor::{FileCreation, VmmExecutor, VmmInvokePlan};
use crate::vmm::arguments::{
    apply_chain_spec, apply_command_modifier_chain, push_str, push_string, vmm_arguments_spec,
    CommandModifier, VmmApiSocket, VmmArguments, VmmConfigurationOverride,
};
use crate::vmm::installation::VmmInstallation;

verus! {

/// A reason a VMM ID was rejected.
#[derive(Debug, Clone, Copy, PartialEq, Eq, Structural)]
pub enum VmmIdParseError {
    TooShort,
    TooLong,
    ContainsInvalidCharacter,
}

/// Whether a character may appear in a VMM ID: ASCII alphanumeric or '-'.
pub open spec fn vmm_id_char_allowed(c: char) -> bool {
    (97 <= c as u32 <= 122) || (65 <= c as u32 <= 90) || (48 <= c as u32 <= 57) || c as u32 == 45
}

pub open spec fn vmm_id_chars_allowed(s: Seq<char>) -> bool {
    forall|i: int| 0 <= i < s.len() ==> vmm_id_char_allowed(#[trigger] s[i])
}

/// A validated VMM ID: 5 to 60 characters, ASCII alphanumeric or '-'.
#[derive(Debug, Clone, PartialEq, Eq)]
pub struct VmmId(pub String);

impl VmmId {
    /// Validates and wraps a VMM ID. Too few characters are reported before
    /// too many, and length before character content.
    pub fn new(id: String) -> (r: Result<VmmId, VmmIdParseError>)
        ensures
            id@.len() < 5 ==> r == Err::<VmmId, _>(VmmIdParseError::TooShort),
            id@.len() > 60 ==> r == Err::<VmmId, _>(VmmIdParseError::TooLong),
            5 <= id@.len() <= 60 && !vmm_id_chars_allowed(id@) ==> r == Err::<VmmId, _>(
                VmmIdParseError::ContainsInvalidCharacter,
            ),
            r matches Ok(v) <==> 5 <= id@.len() <= 60 && vmm_id_chars_allowed(id@),
            r matches Ok(v) ==> v.0@ == id@,
    {
        let len = id.as_str().unicode_len();
        if len < 5 {
            return Err(VmmIdParseError::TooShort);
        }
        if len > 60 {
            return Err(VmmIdParseError::TooLong);
        }
        let mut i: usize = 0;
        while i < len
            invariant
                0 <= i <= len == id@.len(),
                5 <= len <= 60,
                forall|j: int| 0 <= j < i ==> vmm_id_char_allowed(#[trigger] id@[j]),
            decreases len - i,
        {
            let c = id.as_str().get_char(i) as u32;
            if !((97 <= c && c <= 122) || (65 <= c && c <= 90) || (48 <= c && c <= 57) || c == 45) {
                assert(!vmm_id_char_allowed(id@[i as int]));
                return Err(VmmIdParseError::ContainsInvalidCharacter);
            }
            i = i + 1;
        }
        Ok(VmmId(id))
    }
}

/// The files removed by the unrestricted executor's cleanup. A stale API
/// socket is chowned and removed only if it exists; the listed files are
/// removed unconditionally.
#[derive(Debug)]
pub struct UnrestrictedCleanupPlan {
    pub stale_socket_path: Option<String>,
    pub files_to_remove: Vec<String>,
}

/// The preparation work of the unrestricted executor: verify that every
/// outer path exists (upgrading its ownership first), remove a stale API
/// socket left over from an earlier run, and create the log and metrics
/// files with their parent trees. Nothing is rewritten: the resulting path
/// mapping is the identity on the outer paths.
#[derive(Debug)]
pub struct UnrestrictedPreparePlan {
    pub path_mappings: Vec<(String, String)>,
    pub stale_socket_path: Option<String>,
    pub log_file: Option<FileCreation>,
    pub metrics_file: Option<FileCreation>,
}

/// An executor that invokes the VMM binary directly, without a jail. It
/// allows rootless execution when the caller may access the virtualization
/// device, and it leaves files on the host after cleanup unless asked to
/// remove them.
#[derive(Debug)]
pub struct UnrestrictedVmmExecutor {
    pub vmm_arguments: VmmArguments,
    pub command_modifier_chain: Vec<CommandModifier>,
    pub remove_metrics_on_cleanup: bool,
    pub remove_logs_on_cleanup: bool,
    pub pipes_to_null: bool,
    pub id: Option<VmmId>,
}

impl UnrestrictedVmmExecutor {
    pub fn new(vmm_arguments: VmmArguments) -> (r: Self)
        ensures
            r.vmm_arguments == vmm_arguments,
            r.command_modifier_chain@.len() == 0,
            r.remove_metrics_on_cleanup == false,
            r.remove_logs_on_cleanup == false,
            r.pipes_to_null == false,
            r.id is None,
    {
        UnrestrictedVmmExecutor {
            vmm_arguments,
            command_modifier_chain: Vec::new(),
            remove_metrics_on_cleanup: false,
            remove_logs_on_cleanup: false,
            pipes_to_null: false,
            id: None,
        }
    }

    pub fn command_modifier(self, command_modifier: CommandModifier) -> (r: Self)
        ensures
            r.command_modifier_chain@ == self.command_modifier_chain@.push(command_modifier),
            r == (UnrestrictedVmmExecutor {
                command_modifier_chain: r.command_modifier_chain,
                ..self
            }),
    {
        let mut chain = self.command_modifier_chain;
        chain.push(command_modifier);
        UnrestrictedVmmExecutor { command_modifier_chain: chain, ..self }
    }

    pub fn command_modifiers(self, command_modifiers: Vec<CommandModifier>) -> (r: Self)
        ensures
            r.command_modifier_chain@ == self.command_modifier_chain@ + command_modifiers@,
            r == (UnrestrictedVmmExecutor {
                command_modifier_chain: r.command_modifier_chain,
                ..self
            }),
    {
        let mut chain = self.command_modifier_chain;
        let mut added = command_modifiers;
        chain.append(&mut added);
        UnrestrictedVmmExecutor { command_modifier_chain: chain, ..self }
    }

    pub fn remove_metrics_on_cleanup(self) -> (r: Self)
        ensures
            r == (UnrestrictedVmmExecutor { remove_metrics_on_cleanup: true, ..self }),
    {
        UnrestrictedVmmExecutor { remove_metrics_on_cleanup: true, ..self }
    }

    pub fn remove_logs_on_cleanup(self) -> (r: Self)
        ensures
            r == (UnrestrictedVmmExecutor { remove_logs_on_cleanup: true, ..self }),
    {
        UnrestrictedVmmExecutor { remove_logs_on_cleanup: true, ..self }
    }

    pub fn pipes_to_null(self) -> (r: Self)
        ensures
            r == (UnrestrictedVmmExecutor { pipes_to_null: true, ..self }),
    {
        UnrestrictedVmmExecutor { pipes_to_null: true, ..self }
    }

    pub fn id(self, id: VmmId) -> (r: Self)
        ensures
            r == (UnrestrictedVmmExecutor { id: Some(id), ..self }),
    {
        UnrestrictedVmmExecutor { id: Some(id), ..self }
    }

    /// Plans the preparation of a direct invocation: the identity mapping
    /// over the outer paths (each of which the driver verifies and upgrades),
    /// the stale socket to clear, and the log and metrics files to create.
    pub fn plan_prepare(&self, outer_paths: &Vec<String>) -> (r: UnrestrictedPreparePlan)
        ensures
            r.path_mappings@.len() == outer_paths@.len(),
            forall|i: int|
                0 <= i < outer_paths@.len() ==> (#[trigger] r.path_mappings@[i]).0@
                    == outer_paths@[i]@ && r.path_mappings@[i].1@ == outer_paths@[i]@,
            match self.vmm_arguments.api_socket {
                VmmApiSocket::Disabled => r.stale_socket_path is None,
                VmmApiSocket::Enabled(socket_path) => r.stale_socket_path matches Some(p) && p@
                    == socket_path@,
            },
            match self.vmm_arguments.log_path {
                Some(log_path) => r.log_file matches Some(f) && f.path@ == log_path@ && f.only_tree
                    == false,
                None => r.log_file is None,
            },
            match self.vmm_arguments.metrics_path {
                Some(metrics_path) => r.metrics_file matches Some(f) && f.path@ == metrics_path@
                    && f.only_tree == false,
                None => r.metrics_file is None,
            },
    {
        let mut path_mappings: Vec<(String, String)> = Vec::new();
        let mut i: usize = 0;
        while i < outer_paths.len()
            invariant
                0 <= i <= outer_paths@.len(),
                path_mappings@.len() == i,
                forall|j: int|
                    0 <= j < i ==> (#[trigger] path_mappings@[j]).0@ == outer_paths@[j]@
                        && path_mappings@[j].1@ == outer_paths@[j]@,
            decreases outer_paths@.len() - i,
        {
            path_mappings.push((outer_paths[i].clone(), outer_paths[i].clone()));
            i = i + 1;
        }

        let stale_socket_path = match &self.vmm_arguments.api_socket {
            VmmApiSocket::Disabled => None,
            VmmApiSocket::Enabled(socket_path) => Some(socket_path.clone()),
        };

        let log_file = match &self.vmm_arguments.log_path {
            Some(log_path) => Some(FileCreation { path: log_path.clone(), only_tree: false }),
            None => None,
        };

        let metrics_file = match &self.vmm_arguments.metrics_path {
            Some(metrics_path) => Some(
                FileCreation { path: metrics_path.clone(), only_tree: false },
            ),
            None => None,
        };

        UnrestrictedPreparePlan { path_mappings, stale_socket_path, log_file, metrics_file }
    }

    /// Plans the direct invocation of the VMM binary: its arguments with the
    /// configuration override, run through the command-modifier chain, then
    /// the VMM ID appended when one is set.
    pub fn plan_invoke(
        &self,
        installation: &VmmInstallation,
        config_override: VmmConfigurationOverride,
    ) -> (r: VmmInvokePlan)
        ensures
            ({
                let applied = apply_chain_spec(
                    self.command_modifier_chain@,
                    installation.firecracker_path@,
                    vmm_arguments_spec(self.vmm_arguments, config_override),
                );
                &&& r.binary_path@ == applied.0
                &&& r.arguments.deep_view() == match self.id {
                    Some(id) => applied.1 + seq!["--id"@, id.0@],
                    None => applied.1,
                }
                &&& r.pipes_to_null == self.pipes_to_null
                &&& r.pid_file_path is None
            }),
    {
        let arguments = self.vmm_arguments.join(config_override);
        let applied = apply_command_modifier_chain(
            &self.command_modifier_chain,
            installation.firecracker_path.clone(),
            arguments,
        );
        let binary_path = applied.0;
        let mut arguments = applied.1;
        if let Some(id) = &self.id {
            push_str(&mut arguments, "--id");
            push_string(&mut arguments, id.0.clone());
            proof {
                assert(arguments.deep_view() =~= apply_chain_spec(
                    self.command_modifier_chain@,
                    installation.firecracker_path@,
                    vmm_arguments_spec(self.vmm_arguments, config_override),
                ).1 + seq!["--id"@, id.0@]);
            }
        }

        VmmInvokePlan {
            binary_path,
            arguments,
            pipes_to_null: self.pipes_to_null,
            pid_file_path: None,
        }
    }

    /// Plans the cleanup of a direct invocation: clear the API socket if one
    /// exists, and remove the log and metrics files when the executor was
    /// told to.
    pub fn plan_cleanup(&self) -> (r: UnrestrictedCleanupPlan)
        ensures
            match self.vmm_arguments.api_socket {
                VmmApiSocket::Disabled => r.stale_socket_path is None,
                VmmApiSocket::Enabled(socket_path) => r.stale_socket_path matches Some(p) && p@
                    == socket_path@,
            },
            r.files_to_remove.deep_view() == cleanup_removals_spec(*self),
    {
        let stale_socket_path = match &self.vmm_arguments.api_socket {
            VmmApiSocket::Disabled => None,
            VmmApiSocket::Enabled(socket_path) => Some(socket_path.clone()),
        };

        let mut files_to_remove: Vec<String> = Vec::new();
        proof {
            assert(files_to_remove.deep_view() =~= Seq::<Seq<char>>::empty());
        }
        if self.remove_logs_on_cleanup {
            if let Some(log_path) = &self.vmm_arguments.log_path {
                push_string(&mut files_to_remove, log_path.clone());
            }
        }
        let ghost logs_part = log_removal_spec(*self);
        proof {
            assert(files_to_remove.deep_view() =~= logs_part);
        }
        if self.remove_metrics_on_cleanup {
            if let Some(metrics_path) = &self.vmm_arguments.metrics_path {
                push_string(&mut files_to_remove, metrics_path.clone());
            }
        }
        proof {
            assert(files_to_remove.deep_view() =~= cleanup_removals_spec(*self));
        }

        UnrestrictedCleanupPlan { stale_socket_path, files_to_remove }
    }
}

/// The log file that cleanup removes, when asked to and when one exists.
pub open spec fn log_removal_spec(e: UnrestrictedVmmExecutor) -> Seq<Seq<char>> {
    if e.remove_logs_on_cleanup {
        match e.vmm_arguments.log_path {
            Some(log_path) => seq![log_path@],
            None => seq![],
        }
    } else {
        seq![]
    }
}

/// Every file that the unrestricted executor's cleanup removes
/// unconditionally: the log file and the metrics file, each when the
/// executor was told to remove it and one is configured.
pub open spec fn cleanup_removals_spec(e: UnrestrictedVmmExecutor) -> Seq<Seq<char>> {
    log_removal_spec(e) + if e.remove_metrics_on_cleanup {
        match e.vmm_arguments.metrics_path {
            Some(metrics_path) => seq![metrics_path@],
            None => seq![],
        }
    } else {
        seq![]
    }
}

impl VmmExecutor for UnrestrictedVmmExecutor {
    open spec fn socket_path_spec(&self, installation: &VmmInstallation) -> Option<Seq<char>> {
        match self.vmm_arguments.api_socket {
            VmmApiSocket::Disabled => None,
            VmmApiSocket::Enabled(socket_path) => Some(socket_path@),
        }
    }

    open spec fn inner_to_outer_spec(
        &self,
        installation: &VmmInstallation,
        inner: Seq<char>,
    ) -> Seq<char> {
        inner
    }

    open spec fn traceless_spec(&self) -> bool {
        false
    }

    fn get_socket_path(&self, installation: &VmmInstallation) -> (r: Option<String>) {
        match &self.vmm_arguments.api_socket {
            VmmApiSocket::Disabled => None,
            VmmApiSocket::Enabled(socket_path) => Some(socket_path.clone()),
        }
    }

    fn inner_to_outer_path(&self, installation: &VmmInstallation, inner_path: &str) -> (r: String) {
        inner_path.to_owned()
    }

    fn is_traceless(&self) -> (r: bool) {
        false
    }
}

} // verus!
