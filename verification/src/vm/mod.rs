//! The VM layer: the configuration model, the snapshot value, the shutdown
//! policy, and the VM state machine with its ordered API boot protocol.
//!
//! A [`Vm`] pairs an executor with a configuration and tracks the lifecycle
//! Not-Started → Running ↔ Paused → Exited/Crashed. Every operation declares
//! the states it is valid in and is refused, without any other effect, from
//! any other state. The I/O itself — filesystem staging, process spawning,
//! HTTP over the API socket — is carried out by an unverified driver acting
//! on the plans and requests this layer hands it.

pub mod api;
pub mod configuration;
pub mod models;
pub mod shutdown;
pub mod snapshot;

use vstd::prelude::*;

use crate::executor::jailed::{lemma_mapping_covers_inputs, mapping_lookup};
use crate::executor::{FileCreation, VmmExecutor};
use crate::numeric::{decimal_rep, is_ascii_whitespace, is_whitespace_char, u32_to_string};
use crate::vm::api::{
    new_boot_requests_spec, plan_new_boot_requests, plan_restore_boot_requests,
    restore_boot_requests_spec, ApiRequest, ApiRequestView, VmApiOperation,
};
use crate::vm::configuration::{
    InitMethod, InitMethodView, VmConfiguration, VmConfigurationData, VmConfigurationDataView,
    VmConfigurationView,
};
use crate::vm::models::{
    clone_strings, BootSourceView, DriveView, LoadSnapshotView, MemoryBackendView,
};
use crate::vm::shutdown::{VmShutdownMethod, VmShutdownState};
use crate::vm::snapshot::SnapshotData;
use crate::vmm::arguments::{append_strings, push_string, VmmConfigurationOverride};
use crate::vmm::installation::VmmInstallation;

verus! {

/// The lifecycle of the VMM process under a VM: prepared, invoked, and
/// eventually gone.
#[derive(Debug, Clone, Copy, PartialEq, Eq, Structural)]
pub enum VmmProcessState {
    /// The environment has not been prepared yet.
    AwaitingPrepare,
    /// The environment is prepared; the process can be invoked.
    AwaitingStart,
    /// The process runs.
    Started,
    /// The process exited successfully.
    Exited,
    /// The process exited with the given non-zero raw wait status.
    Crashed(i32),
}

/// The state of a VM as the caller sees it, derived from the VMM process's
/// state and the pause flag.
#[derive(Debug, Clone, Copy, PartialEq, Eq, Structural)]
pub enum VmState {
    NotStarted,
    Running,
    Paused,
    Exited,
    Crashed(i32),
}

/// An error emitted by the VM layer or by the driver acting on its plans.
#[derive(Debug)]
pub enum VmError {
    /// The operation expected the VM in one of the given states but found it
    /// in the actual one.
    ExpectedState { expected: Vec<VmState>, actual: VmState },
    /// The operation expected the VM to have exited or crashed.
    ExpectedExitedOrCrashed { actual: VmState },
    /// Serializing or deserializing an API body or configuration document
    /// failed.
    SerializationError { message: String },
    /// A filesystem or socket operation of a plan failed.
    IoError { message: String },
    /// The HTTP request could not be constructed.
    ApiRequestNotConstructed { message: String },
    /// The HTTP response could not be received from the API socket.
    ApiResponseCouldNotBeReceived { message: String },
    /// The API answered with an unsuccessful status and this fault message.
    ApiRespondedWithFault { status_code: u16, fault_message: String },
    /// The API response was expected to be empty but held this body.
    ApiResponseExpectedEmpty(String),
    /// The VMM process's pipes could not be extracted.
    ProcessPipesUnavailable(crate::executor::process_handle::ProcessHandlePipesError),
    /// The shutdown was asked to try an empty list of methods.
    NoShutdownMethodsSpecified,
    /// A bounded wait ran out of time.
    Timeout,
    /// The executor has no API socket configured, which this layer cannot
    /// drive a VM without.
    DisabledApiSocketIsUnsupported,
    /// The executor's preparation did not map a required outer path.
    MissingPathMapping,
}

/// Success of an API response is carried by its status code alone.
pub open spec fn api_status_is_success(status_code: u16) -> bool {
    200 <= status_code < 300
}

/// Interprets an API response's status: a success status passes; any other
/// carries the fault message that the driver read from the standard error
/// envelope.
pub fn check_api_response(status_code: u16, fault_message: String) -> (r: Result<(), VmError>)
    ensures
        r is Ok <==> api_status_is_success(status_code),
        r matches Err(e) ==> e matches VmError::ApiRespondedWithFault {
            status_code: c,
            fault_message: m,
        } && c == status_code && m == fault_message,
{
    if 200 <= status_code && status_code < 300 {
        Ok(())
    } else {
        Err(VmError::ApiRespondedWithFault { status_code, fault_message })
    }
}

pub open spec fn all_ascii_whitespace(s: Seq<char>) -> bool {
    forall|i: int| 0 <= i < s.len() ==> is_ascii_whitespace(#[trigger] s[i])
}

/// A response that should be empty must hold nothing but whitespace;
/// anything else is handed back inside the error.
pub fn check_empty_response(body: String) -> (r: Result<(), VmError>)
    ensures
        r is Ok <==> all_ascii_whitespace(body@),
        r matches Err(e) ==> e matches VmError::ApiResponseExpectedEmpty(b) && b == body,
{
    let len = body.as_str().unicode_len();
    let mut i: usize = 0;
    while i < len
        invariant
            0 <= i <= len == body@.len(),
            forall|j: int| 0 <= j < i ==> is_ascii_whitespace(#[trigger] body@[j]),
        decreases len - i,
    {
        if !is_whitespace_char(body.as_str().get_char(i)) {
            assert(!is_ascii_whitespace(body@[i as int]));
            return Err(VmError::ApiResponseExpectedEmpty(body));
        }
        i = i + 1;
    }
    Ok(())
}

/// The per-VM outer paths that the caller may legitimately read or write
/// after boot: drive sockets by drive ID, the log and metrics files, the
/// vsock multiplexer socket, and the vsock listener sockets opened later.
#[derive(Debug)]
pub struct VmStandardPaths {
    pub drive_sockets: Vec<(String, String)>,
    pub log_path: Option<String>,
    pub metrics_path: Option<String>,
    pub vsock_multiplexer_path: Option<String>,
    pub vsock_listener_paths: Vec<String>,
}

impl VmStandardPaths {
    pub fn new() -> (r: Self)
        ensures
            r.drive_sockets@.len() == 0,
            r.log_path is None,
            r.metrics_path is None,
            r.vsock_multiplexer_path is None,
            r.vsock_listener_paths@.len() == 0,
    {
        VmStandardPaths {
            drive_sockets: Vec::new(),
            log_path: None,
            metrics_path: None,
            vsock_multiplexer_path: None,
            vsock_listener_paths: Vec::new(),
        }
    }

    /// The outer path of the socket of the drive with the given ID, if any.
    pub fn get_drive_socket(&self, drive_id: &str) -> (r: Option<&String>)
        ensures
            match r {
                Some(path) => mapping_lookup(self.drive_sockets@, drive_id@) == Some(path@),
                None => mapping_lookup(self.drive_sockets@, drive_id@) is None,
            },
    {
        let drive_id_string = drive_id.to_owned();
        let mut i: usize = self.drive_sockets.len();
        proof {
            assert(self.drive_sockets@.subrange(
                0,
                self.drive_sockets@.len() as int,
            ) =~= self.drive_sockets@);
        }
        while i > 0
            invariant
                0 <= i <= self.drive_sockets@.len(),
                drive_id_string@ == drive_id@,
                mapping_lookup(self.drive_sockets@.subrange(0, i as int), drive_id@)
                    == mapping_lookup(self.drive_sockets@, drive_id@),
            decreases i,
        {
            proof {
                let prefix = self.drive_sockets@.subrange(0, i as int);
                assert(prefix.last() == self.drive_sockets@[i - 1]);
                assert(prefix.drop_last() =~= self.drive_sockets@.subrange(0, i - 1));
            }
            if self.drive_sockets[i - 1].0 == drive_id_string {
                return Some(&self.drive_sockets[i - 1].1);
            }
            i = i - 1;
        }
        proof {
            assert(self.drive_sockets@.subrange(0, 0) =~= Seq::<(String, String)>::empty());
        }
        None
    }

    pub fn get_log_path(&self) -> (r: Option<&String>)
        ensures
            r == match self.log_path {
                Some(ref p) => Some(p),
                None => None::<&String>,
            },
    {
        self.log_path.as_ref()
    }

    pub fn get_metrics_path(&self) -> (r: Option<&String>)
        ensures
            r == match self.metrics_path {
                Some(ref p) => Some(p),
                None => None::<&String>,
            },
    {
        self.metrics_path.as_ref()
    }

    pub fn get_vsock_multiplexer_path(&self) -> (r: Option<&String>)
        ensures
            r == match self.vsock_multiplexer_path {
                Some(ref p) => Some(p),
                None => None::<&String>,
            },
    {
        self.vsock_multiplexer_path.as_ref()
    }

    pub fn get_vsock_listener_paths(&self) -> (r: &Vec<String>)
        ensures
            r == &self.vsock_listener_paths,
    {
        &self.vsock_listener_paths
    }

    /// Records a host-side vsock listener socket so that cleanup can remove
    /// it.
    pub fn add_vsock_listener_path(&mut self, socket_path: String)
        ensures
            *final(self) == (VmStandardPaths {
                vsock_listener_paths: final(self).vsock_listener_paths,
                ..*old(self)
            }),
            final(self).vsock_listener_paths@ == old(self).vsock_listener_paths@.push(socket_path),
    {
        self.vsock_listener_paths.push(socket_path);
    }
}

/// The host path of a vsock listener socket for a host port: the
/// multiplexer socket's path with the port appended after an underscore.
pub fn vsock_listener_path(multiplexer_path: &str, host_port: u32) -> (r: String)
    ensures
        r@ == multiplexer_path@ + "_"@ + decimal_rep(host_port as nat),
{
    let port = u32_to_string(host_port);
    multiplexer_path.to_owned().concat("_").concat(port.as_str())
}

/// The states an API operation demands, as it reports them in a state
/// error: pausing demands Running, resuming demands Paused, balloon
/// statistics demand Running, snapshots demand Paused, and everything else
/// accepts Running or Paused.
pub open spec fn expected_states_spec(op: VmApiOperation) -> Seq<VmState> {
    match op {
        VmApiOperation::Pause => seq![VmState::Running],
        VmApiOperation::Resume => seq![VmState::Paused],
        VmApiOperation::GetBalloonStatistics => seq![VmState::Running],
        VmApiOperation::CreateSnapshot(_) => seq![VmState::Paused],
        _ => seq![VmState::Running, VmState::Paused],
    }
}

/// Whether an API operation is allowed in a state.
pub open spec fn operation_allowed(op: VmApiOperation, state: VmState) -> bool {
    expected_states_spec(op).contains(state)
}

/// The pause flag after an API operation succeeds: pausing sets it,
/// resuming clears it, nothing else touches it. In particular, fetching the
/// effective configuration is a read and changes nothing.
pub open spec fn pause_flag_after(op: VmApiOperation, previous: bool) -> bool {
    match op {
        VmApiOperation::Pause => true,
        VmApiOperation::Resume => false,
        _ => previous,
    }
}

fn states_contain(states: &Vec<VmState>, state: VmState) -> (r: bool)
    ensures
        r == states@.contains(state),
{
    let mut i: usize = 0;
    while i < states.len()
        invariant
            0 <= i <= states@.len(),
            forall|j: int| 0 <= j < i ==> states@[j] != state,
        decreases states@.len() - i,
    {
        if states[i] == state {
            return true;
        }
        i = i + 1;
    }
    assert(forall|j: int| 0 <= j < states@.len() ==> states@[j] != state);
    false
}

/// The state list that an API operation declares, used both for the check
/// and for the error it reports.
pub fn expected_states_for(op: &VmApiOperation) -> (r: Vec<VmState>)
    ensures
        r@ == expected_states_spec(*op),
{
    let mut states: Vec<VmState> = Vec::new();
    match op {
        VmApiOperation::Pause => {
            states.push(VmState::Running);
        },
        VmApiOperation::Resume => {
            states.push(VmState::Paused);
        },
        VmApiOperation::GetBalloonStatistics => {
            states.push(VmState::Running);
        },
        VmApiOperation::CreateSnapshot(_) => {
            states.push(VmState::Paused);
        },
        _ => {
            states.push(VmState::Running);
            states.push(VmState::Paused);
        },
    }
    proof {
        assert(states@ =~= expected_states_spec(*op));
    }
    states
}

/// A VM: an executor, the installation it runs from, the VMM process's
/// state, the pause flag, the configuration awaiting its start, and the
/// paths the caller may touch afterwards.
#[derive(Debug)]
pub struct Vm<E: VmmExecutor> {
    pub executor: E,
    pub installation: VmmInstallation,
    pub process_state: VmmProcessState,
    pub is_paused: bool,
    pub configuration: Option<VmConfiguration>,
    pub original_data: VmConfigurationData,
    pub standard_paths: VmStandardPaths,
    pub snapshot_traces: Vec<String>,
}

impl<E: VmmExecutor> Vm<E> {
    /// The state derived from the VMM process's state and the pause flag.
    pub open spec fn state_spec(&self) -> VmState {
        match self.process_state {
            VmmProcessState::Started => if self.is_paused {
                VmState::Paused
            } else {
                VmState::Running
            },
            VmmProcessState::Exited => VmState::Exited,
            VmmProcessState::Crashed(status) => VmState::Crashed(status),
            _ => VmState::NotStarted,
        }
    }

    pub fn state(&self) -> (r: VmState)
        ensures
            r == self.state_spec(),
    {
        match self.process_state {
            VmmProcessState::Started => if self.is_paused {
                VmState::Paused
            } else {
                VmState::Running
            },
            VmmProcessState::Exited => VmState::Exited,
            VmmProcessState::Crashed(status) => VmState::Crashed(status),
            _ => VmState::NotStarted,
        }
    }

    pub fn standard_paths(&self) -> (r: &VmStandardPaths)
        ensures
            r == &self.standard_paths,
    {
        &self.standard_paths
    }

    /// Records a host-side vsock listener socket on this VM.
    pub fn add_vsock_listener_path(&mut self, socket_path: String)
        ensures
            *final(self) == (Vm { standard_paths: final(self).standard_paths, ..*old(self) }),
            final(self).standard_paths == (VmStandardPaths {
                vsock_listener_paths: final(self).standard_paths.vsock_listener_paths,
                ..old(self).standard_paths
            }),
            final(self).standard_paths.vsock_listener_paths@ == old(
                self,
            ).standard_paths.vsock_listener_paths@.push(socket_path),
    {
        self.standard_paths.vsock_listener_paths.push(socket_path);
    }

    /// The outer paths that the snapshots taken from this VM left on the
    /// host, recorded only under an executor that leaves traces.
    pub fn snapshot_traces(&self) -> (r: &Vec<String>)
        ensures
            r == &self.snapshot_traces,
    {
        &self.snapshot_traces
    }

    /// Resolves an inner path into an outer path through the executor.
    pub fn inner_to_outer_path(&self, inner_path: &str) -> (r: String)
        ensures
            r@ == self.executor.inner_to_outer_spec(&self.installation, inner_path@),
    {
        self.executor.inner_to_outer_path(&self.installation, inner_path)
    }

    /// Checks that the VM is in one of the states the operation declares;
    /// refusing is the only thing that can happen to an operation invoked
    /// outside its precondition set, and it has no effect on the VM.
    pub fn check_api_operation(&self, op: &VmApiOperation) -> (r: Result<(), VmError>)
        ensures
            r is Ok <==> operation_allowed(*op, self.state_spec()),
            r matches Err(e) ==> e matches VmError::ExpectedState { expected, actual } && expected@
                == expected_states_spec(*op) && actual == self.state_spec(),
    {
        let expected = expected_states_for(op);
        let actual = self.state();
        if states_contain(&expected, actual) {
            Ok(())
        } else {
            Err(VmError::ExpectedState { expected, actual })
        }
    }

    /// Records that the operation's API request was answered successfully:
    /// pausing and resuming flip the pause flag; nothing else changes. A
    /// failed request is never recorded, so it never advances the VM.
    pub fn apply_api_success(&mut self, op: &VmApiOperation)
        ensures
            *final(self) == (Vm { is_paused: pause_flag_after(*op, old(self).is_paused), ..*old(
                self,
            ) }),
    {
        match op {
            VmApiOperation::Pause => {
                self.is_paused = true;
            },
            VmApiOperation::Resume => {
                self.is_paused = false;
            },
            _ => {},
        }
    }

    /// Records that a custom, caller-built API request — checked beforehand
    /// with [`Vm::ensure_paused_or_running`] — was answered successfully.
    /// This layer cannot know what the custom request did, so the caller
    /// declares the pause flag, or leaves it as it is.
    pub fn apply_custom_request_success(&mut self, new_is_paused: Option<bool>)
        ensures
            *final(self) == (Vm {
                is_paused: match new_is_paused {
                    Some(value) => value,
                    None => old(self).is_paused,
                },
                ..*old(self)
            }),
    {
        if let Some(value) = new_is_paused {
            self.is_paused = value;
        }
    }

    /// Checks that the VM is running or paused, as most steady-state
    /// operations demand.
    pub fn ensure_paused_or_running(&self) -> (r: Result<(), VmError>)
        ensures
            r is Ok <==> self.state_spec() == VmState::Running || self.state_spec()
                == VmState::Paused,
            r matches Err(e) ==> e matches VmError::ExpectedState { expected, actual } && expected@
                == seq![VmState::Running, VmState::Paused] && actual == self.state_spec(),
    {
        let actual = self.state();
        match actual {
            VmState::Running | VmState::Paused => Ok(()),
            _ => {
                let mut expected: Vec<VmState> = Vec::new();
                expected.push(VmState::Running);
                expected.push(VmState::Paused);
                proof {
                    assert(expected@ =~= seq![VmState::Running, VmState::Paused]);
                }
                Err(VmError::ExpectedState { expected, actual })
            },
        }
    }

    /// Checks that the VM has exited or crashed, as cleanup demands.
    pub fn ensure_exited_or_crashed(&self) -> (r: Result<(), VmError>)
        ensures
            r is Ok <==> self.state_spec() == VmState::Exited || self.state_spec() is Crashed,
            r matches Err(e) ==> e matches VmError::ExpectedExitedOrCrashed { actual } && actual
                == self.state_spec(),
    {
        let actual = self.state();
        match actual {
            VmState::Exited | VmState::Crashed(_) => Ok(()),
            _ => Err(VmError::ExpectedExitedOrCrashed { actual }),
        }
    }

    /// Records that the VMM process was invoked: the VM is now running.
    pub fn mark_invoked(&mut self)
        requires
            old(self).process_state == VmmProcessState::AwaitingStart,
        ensures
            *final(self) == (Vm { process_state: VmmProcessState::Started, ..*old(self) }),
    {
        self.process_state = VmmProcessState::Started;
    }

    /// Records the VMM process's terminal status, observed by the driver:
    /// success leaves the VM Exited, anything else Crashed with the status.
    pub fn observe_exit(&mut self, raw_wait_status: i32)
        ensures
            *final(self) == (Vm {
                process_state: if raw_wait_status == 0 {
                    VmmProcessState::Exited
                } else {
                    VmmProcessState::Crashed(raw_wait_status)
                },
                ..*old(self)
            }),
    {
        if raw_wait_status == 0 {
            self.process_state = VmmProcessState::Exited;
        } else {
            self.process_state = VmmProcessState::Crashed(raw_wait_status);
        }
    }

    /// Concludes a successful snapshot creation: resolves the two inner
    /// paths that the snapshot was written at into outer paths, remembers
    /// them on the VM when the executor leaves traces, and hands back the
    /// detached snapshot with a copy of the captured configuration data.
    pub fn api_create_snapshot_success(
        &mut self,
        snapshot_path: &str,
        mem_file_path: &str,
    ) -> (r: SnapshotData)
        ensures
            r.snapshot_path@ == old(self).executor.inner_to_outer_spec(
                &old(self).installation,
                snapshot_path@,
            ),
            r.mem_file_path@ == old(self).executor.inner_to_outer_spec(
                &old(self).installation,
                mem_file_path@,
            ),
            r.configuration_data.deep_view() == old(self).original_data.deep_view(),
            *final(self) == (Vm { snapshot_traces: final(self).snapshot_traces, ..*old(self) }),
            ({
                let before = old(self).snapshot_traces@;
                let after = final(self).snapshot_traces@;
                if old(self).executor.traceless_spec() {
                    after == before
                } else {
                    &&& after.len() == before.len() + 2
                    &&& after.subrange(0, before.len() as int) == before
                    &&& after[before.len() as int]@ == r.snapshot_path@
                    &&& after[before.len() as int + 1]@ == r.mem_file_path@
                }
            }),
    {
        let outer_snapshot_path = self.executor.inner_to_outer_path(
            &self.installation,
            snapshot_path,
        );
        let outer_mem_file_path = self.executor.inner_to_outer_path(
            &self.installation,
            mem_file_path,
        );
        if !self.executor.is_traceless() {
            self.snapshot_traces.push(outer_snapshot_path.clone());
            self.snapshot_traces.push(outer_mem_file_path.clone());
        }
        SnapshotData {
            snapshot_path: outer_snapshot_path,
            mem_file_path: outer_mem_file_path,
            configuration_data: self.original_data.clone(),
        }
    }

    /// Builds a VM around an executor and a configuration: rejected outright
    /// — before any I/O — when the executor has no API socket, since the
    /// boot protocol and every later call need one. On success, hands back
    /// the outer paths that must exist on the host, for the executor's
    /// preparation.
    pub fn prepare(executor: E, installation: VmmInstallation, configuration: VmConfiguration) -> (r:
        Result<(Vm<E>, Vec<String>), VmError>)
        ensures
            r is Ok <==> executor.socket_path_spec(&installation) is Some,
            r matches Err(e) ==> e is DisabledApiSocketIsUnsupported,
            r matches Ok(pair) ==> {
                let vm = pair.0;
                &&& vm.executor == executor
                &&& vm.installation == installation
                &&& vm.process_state == VmmProcessState::AwaitingPrepare
                &&& vm.is_paused == false
                &&& vm.configuration == Some(configuration)
                &&& vm.original_data.deep_view() == configuration_data_view(
                    configuration.deep_view(),
                )
                &&& vm.standard_paths.drive_sockets@.len() == 0
                &&& vm.standard_paths.log_path is None
                &&& vm.standard_paths.metrics_path is None
                &&& vm.standard_paths.vsock_multiplexer_path is None
                &&& vm.standard_paths.vsock_listener_paths@.len() == 0
                &&& vm.snapshot_traces@.len() == 0
                &&& pair.1.deep_view() == required_outer_paths(configuration.deep_view())
            },
    {
        if executor.get_socket_path(&installation).is_none() {
            return Err(VmError::DisabledApiSocketIsUnsupported);
        }
        let outer_paths = enumerate_outer_paths(&configuration);
        let original_data = configuration.data().clone();
        let vm = Vm {
            executor,
            installation,
            process_state: VmmProcessState::AwaitingPrepare,
            is_paused: false,
            configuration: Some(configuration),
            original_data,
            standard_paths: VmStandardPaths::new(),
            snapshot_traces: Vec::new(),
        };
        Ok((vm, outer_paths))
    }

    /// Applies the executor's outer-to-inner path mapping to the prepared
    /// configuration and resolves the standard paths. Fails with a missing
    /// mapping — leaving the VM untouched — if and only if the mapping does
    /// not cover a required path. On success the VM awaits its start, and
    /// the returned locations (the log and metrics files, and the vsock
    /// socket's directory) must be created on the host.
    pub fn finish_prepare(&mut self, path_mappings: &Vec<(String, String)>) -> (r: Result<
        VmPrepareOutputs,
        VmError,
    >)
        requires
            old(self).process_state == VmmProcessState::AwaitingPrepare,
            old(self).configuration is Some,
        ensures
            r is Ok <==> all_required_paths_mapped(
                old(self).configuration.unwrap().deep_view(),
                path_mappings@,
            ),
            r matches Err(e) ==> e is MissingPathMapping && *final(self) == *old(self),
            r matches Ok(outputs) ==> {
                let config0 = old(self).configuration.unwrap().deep_view();
                let data0 = configuration_data_view(config0);
                let vm0 = old(self);
                &&& *final(self) == (Vm {
                    process_state: VmmProcessState::AwaitingStart,
                    configuration: final(self).configuration,
                    standard_paths: final(self).standard_paths,
                    ..*old(self)
                })
                &&& final(self).configuration matches Some(c) && c.deep_view()
                    == rewritten_configuration(config0, path_mappings@)
                &&& string_pairs_match(
                    final(self).standard_paths.drive_sockets@,
                    if config0 is New {
                        drive_sockets_view(
                            &vm0.executor,
                            &vm0.installation,
                            configuration_data_view(
                                rewritten_configuration(config0, path_mappings@),
                            ).drives,
                        )
                    } else {
                        Seq::<(Seq<char>, Seq<char>)>::empty()
                    },
                )
                &&& match configured_log_path(data0) {
                    Some(p) => {
                        &&& final(self).standard_paths.log_path matches Some(o) && o@
                            == vm0.executor.inner_to_outer_spec(&vm0.installation, p)
                        &&& outputs.log_file matches Some(f) && f.path@
                            == vm0.executor.inner_to_outer_spec(&vm0.installation, p)
                            && f.only_tree == false
                    },
                    None => final(self).standard_paths.log_path is None && outputs.log_file
                        is None,
                }
                &&& match data0.metrics_system {
                    Some(ms) => {
                        &&& final(self).standard_paths.metrics_path matches Some(o) && o@
                            == vm0.executor.inner_to_outer_spec(&vm0.installation, ms.metrics_path)
                        &&& outputs.metrics_file matches Some(f) && f.path@
                            == vm0.executor.inner_to_outer_spec(&vm0.installation, ms.metrics_path)
                            && f.only_tree == false
                    },
                    None => final(self).standard_paths.metrics_path is None
                        && outputs.metrics_file is None,
                }
                &&& match configured_vsock_path(config0) {
                    Some(p) => {
                        &&& final(self).standard_paths.vsock_multiplexer_path matches Some(o) && o@
                            == vm0.executor.inner_to_outer_spec(&vm0.installation, p)
                        &&& outputs.vsock_dir matches Some(f) && f.path@
                            == vm0.executor.inner_to_outer_spec(&vm0.installation, p)
                            && f.only_tree == true
                    },
                    None => final(self).standard_paths.vsock_multiplexer_path is None
                        && outputs.vsock_dir is None,
                }
                &&& final(self).standard_paths.vsock_listener_paths@.len() == 0
            },
    {
        // First pass: check that every required path is mapped, so that the
        // rewrite below cannot fail halfway through.
        let mapped = match &self.configuration {
            Some(configuration) => check_all_mapped(configuration, path_mappings),
            None => {
                proof {
                    assert(false);
                }
                unreached()
            },
        };
        if !mapped {
            return Err(VmError::MissingPathMapping);
        }
        assert(all_required_paths_mapped(
            self.configuration.unwrap().deep_view(),
            path_mappings@,
        ));

        // Second pass: rewrite the configuration and resolve the standard
        // paths.
        let configuration = match self.configuration.take() {
            Some(c) => c,
            None => {
                proof {
                    assert(false);
                }
                unreached()
            },
        };
        let mut outputs = VmPrepareOutputs { log_file: None, metrics_file: None, vsock_dir: None };
        let mut standard_paths = VmStandardPaths::new();
        let rewritten = match configuration {
            VmConfiguration::New { init_method, data } => {
                let data = rewrite_data(data, path_mappings);
                let mut i: usize = 0;
                while i < data.drives.len()
                    invariant
                        0 <= i <= data.drives@.len(),
                        string_pairs_match(
                            standard_paths.drive_sockets@,
                            drive_sockets_view(
                                &self.executor,
                                &self.installation,
                                data.deep_view().drives.subrange(0, i as int),
                            ),
                        ),
                        standard_paths.log_path is None,
                        standard_paths.metrics_path is None,
                        standard_paths.vsock_multiplexer_path is None,
                        standard_paths.vsock_listener_paths@.len() == 0,
                    decreases data.drives@.len() - i,
                {
                    proof {
                        let prefix = data.deep_view().drives.subrange(0, i as int + 1);
                        assert(prefix.drop_last() =~= data.deep_view().drives.subrange(
                            0,
                            i as int,
                        ));
                        assert(prefix.last() == data.deep_view().drives[i as int]);
                    }
                    if let Some(socket) = &data.drives[i].socket {
                        let outer_socket = self.executor.inner_to_outer_path(
                            &self.installation,
                            socket.as_str(),
                        );
                        standard_paths.drive_sockets.push(
                            (data.drives[i].drive_id.clone(), outer_socket),
                        );
                    }
                    i = i + 1;
                }
                proof {
                    assert(data.deep_view().drives.subrange(
                        0,
                        data.drives@.len() as int,
                    ) =~= data.deep_view().drives);
                }
                if let Some(vsock_device) = &data.vsock_device {
                    let outer_uds = self.executor.inner_to_outer_path(
                        &self.installation,
                        vsock_device.uds_path.as_str(),
                    );
                    outputs.vsock_dir = Some(
                        FileCreation { path: outer_uds.clone(), only_tree: true },
                    );
                    standard_paths.vsock_multiplexer_path = Some(outer_uds);
                }
                VmConfiguration::New { init_method, data }
            },
            VmConfiguration::RestoredFromSnapshot { load_snapshot, data } => {
                let snapshot_path = remap_path(path_mappings, &load_snapshot.snapshot_path);
                let backend_path = remap_path(
                    path_mappings,
                    &load_snapshot.mem_backend.backend_path,
                );
                VmConfiguration::RestoredFromSnapshot {
                    load_snapshot: crate::vm::models::LoadSnapshot {
                        snapshot_path,
                        mem_backend: crate::vm::models::MemoryBackend {
                            backend_type: load_snapshot.mem_backend.backend_type,
                            backend_path,
                        },
                        resume_vm: load_snapshot.resume_vm,
                        enable_diff_snapshots: load_snapshot.enable_diff_snapshots,
                    },
                    data,
                }
            },
        };
        let data_ref = rewritten.data();
        if let Some(logger_system) = &data_ref.logger_system {
            if let Some(log_path) = &logger_system.log_path {
                let outer_log = self.executor.inner_to_outer_path(
                    &self.installation,
                    log_path.as_str(),
                );
                outputs.log_file = Some(FileCreation { path: outer_log.clone(), only_tree: false });
                standard_paths.log_path = Some(outer_log);
            }
        }
        if let Some(metrics_system) = &data_ref.metrics_system {
            let outer_metrics = self.executor.inner_to_outer_path(
                &self.installation,
                metrics_system.metrics_path.as_str(),
            );
            outputs.metrics_file = Some(
                FileCreation { path: outer_metrics.clone(), only_tree: false },
            );
            standard_paths.metrics_path = Some(outer_metrics);
        }
        self.configuration = Some(rewritten);
        self.standard_paths = standard_paths;
        self.process_state = VmmProcessState::AwaitingStart;
        proof {
            let m = path_mappings@;
            let config0 = old(self).configuration.unwrap().deep_view();
            let data0 = configuration_data_view(config0);
            if config0 is New {
                assert(configuration_data_view(rewritten_configuration(config0, m))
                    == rewritten_data(data0, m));
            }
            assert(self.configuration.unwrap().deep_view() == rewritten_configuration(config0, m));
        }
        Ok(outputs)
    }


    /// Plans the start of the VM, which must not have been started yet.
    /// When the configuration boots through a JSON document, the driver
    /// writes the configuration data as JSON at the named outer location and
    /// no API requests follow; otherwise the ordered boot protocol does the
    /// work once the API socket has appeared. The configuration moves into
    /// the plan, where the requests' bodies point into it.
    pub fn plan_start(&mut self) -> (r: Result<VmStartPlan, VmError>)
        requires
            old(self).state_spec() == VmState::NotStarted ==> old(self).configuration is Some,
        ensures
            r is Ok <==> old(self).state_spec() == VmState::NotStarted && old(
                self,
            ).executor.socket_path_spec(&old(self).installation) is Some,
            r matches Err(e) ==> *final(self) == *old(self) && (if old(self).state_spec()
                != VmState::NotStarted {
                e matches VmError::ExpectedState { expected, actual } && expected@ == seq![
                    VmState::NotStarted,
                ] && actual == old(self).state_spec()
            } else {
                e is DisabledApiSocketIsUnsupported
            }),
            r matches Ok(plan) ==> {
                &&& *final(self) == (Vm { configuration: None, ..*old(self) })
                &&& plan.socket_path@ == old(self).executor.socket_path_spec(
                    &old(self).installation,
                ).unwrap()
                &&& plan.configuration == old(self).configuration.unwrap()
                &&& match old(self).configuration.unwrap().deep_view() {
                    VmConfigurationView::New {
                        init_method: InitMethodView::ViaJsonConfiguration(inner),
                        data,
                    } => {
                        &&& plan.config_override matches VmmConfigurationOverride::Enable(p) && p@
                            == inner
                        &&& plan.config_write_path matches Some(w) && w@ == old(
                            self,
                        ).executor.inner_to_outer_spec(&old(self).installation, inner)
                        &&& plan.boot_requests.deep_view() == Seq::<ApiRequestView>::empty()
                    },
                    VmConfigurationView::New { init_method: InitMethodView::ViaApiCalls, data } => {
                        &&& plan.config_override is NoOverride
                        &&& plan.config_write_path is None
                        &&& plan.boot_requests.deep_view() == new_boot_requests_spec(data)
                    },
                    VmConfigurationView::RestoredFromSnapshot { load_snapshot, data } => {
                        &&& plan.config_override is NoOverride
                        &&& plan.config_write_path is None
                        &&& plan.boot_requests.deep_view() == restore_boot_requests_spec(data)
                    },
                }
            },
    {
        let actual = self.state();
        if actual != VmState::NotStarted {
            let mut expected: Vec<VmState> = Vec::new();
            expected.push(VmState::NotStarted);
            proof {
                assert(expected@ =~= seq![VmState::NotStarted]);
            }
            return Err(VmError::ExpectedState { expected, actual });
        }
        let socket_path = match self.executor.get_socket_path(&self.installation) {
            Some(socket_path) => socket_path,
            None => {
                return Err(VmError::DisabledApiSocketIsUnsupported);
            },
        };
        let configuration = match self.configuration.take() {
            Some(configuration) => configuration,
            None => {
                proof {
                    assert(false);
                }
                unreached()
            },
        };
        let (config_override, config_write_path, boot_requests) = match &configuration {
            VmConfiguration::New {
                init_method: InitMethod::ViaJsonConfiguration(inner_path),
                data: _,
            } => {
                let outer_path = self.executor.inner_to_outer_path(
                    &self.installation,
                    inner_path.as_str(),
                );
                let empty_requests: Vec<ApiRequest> = Vec::new();
                proof {
                    assert(empty_requests.deep_view() =~= Seq::<ApiRequestView>::empty());
                }
                (
                    VmmConfigurationOverride::Enable(inner_path.clone()),
                    Some(outer_path),
                    empty_requests,
                )
            },
            VmConfiguration::New { init_method: InitMethod::ViaApiCalls, data } => {
                (VmmConfigurationOverride::NoOverride, None, plan_new_boot_requests(data))
            },
            VmConfiguration::RestoredFromSnapshot { load_snapshot: _, data } => {
                (VmmConfigurationOverride::NoOverride, None, plan_restore_boot_requests(data))
            },
        };
        Ok(VmStartPlan { config_override, config_write_path, socket_path, boot_requests, configuration })
    }

    /// Extracts the pipes of the VMM process: valid while the VM is running
    /// or paused, and only for an attached process whose pipes were neither
    /// dropped at spawn time nor already taken.
    pub fn take_pipes(
        &self,
        handle: &mut crate::executor::process_handle::ProcessHandle,
    ) -> (r: Result<(), VmError>)
        ensures
            ({
                let running_or_paused = self.state_spec() == VmState::Running || self.state_spec()
                    == VmState::Paused;
                if !running_or_paused {
                    &&& *final(handle) == *old(handle)
                    &&& r matches Err(e) && e matches VmError::ExpectedState { expected, actual }
                        && expected@ == seq![VmState::Running, VmState::Paused] && actual
                        == self.state_spec()
                } else {
                    let (updated, decision) = crate::executor::process_handle::pipes_decision(
                        *old(handle),
                    );
                    &&& *final(handle) == updated
                    &&& match decision {
                        Ok(()) => r is Ok,
                        Err(pipes_error) => r == Err::<(), _>(
                            VmError::ProcessPipesUnavailable(pipes_error),
                        ),
                    }
                }
            }),
    {
        match self.ensure_paused_or_running() {
            Ok(()) => {},
            Err(state_error) => {
                return Err(state_error);
            },
        }
        match handle.get_pipes() {
            Ok(()) => Ok(()),
            Err(pipes_error) => Err(VmError::ProcessPipesUnavailable(pipes_error)),
        }
    }

    /// Begins a shutdown: the VM must be running or paused and at least one
    /// method must be given. The returned walk tries the methods strictly in
    /// order.
    pub fn start_shutdown(&self, shutdown_methods: Vec<VmShutdownMethod>) -> (r: Result<
        VmShutdownState,
        VmError,
    >)
        ensures
            r is Ok <==> (self.state_spec() == VmState::Running || self.state_spec()
                == VmState::Paused) && shutdown_methods@.len() > 0,
            r matches Ok(walk) ==> walk == (VmShutdownState {
                methods: shutdown_methods,
                next_index: 0,
                succeeded: false,
            }),
            r matches Err(e) ==> if !(self.state_spec() == VmState::Running || self.state_spec()
                == VmState::Paused) {
                e matches VmError::ExpectedState { expected, actual } && expected@ == seq![
                    VmState::Running,
                    VmState::Paused,
                ] && actual == self.state_spec()
            } else {
                e is NoShutdownMethodsSpecified
            },
    {
        match self.ensure_paused_or_running() {
            Ok(()) => {},
            Err(state_error) => {
                return Err(state_error);
            },
        }
        if shutdown_methods.len() == 0 {
            return Err(VmError::NoShutdownMethodsSpecified);
        }
        Ok(VmShutdownState::new(shutdown_methods))
    }

    /// Plans the removals of a cleanup: the VM must have exited or crashed.
    /// The returned outer paths are removed after the executor's own
    /// cleanup; the log and metrics files when asked, and the vsock
    /// multiplexer socket with every recorded listener socket when asked.
    pub fn plan_cleanup(&self, cleanup_options: &VmCleanupOptions) -> (r: Result<
        Vec<String>,
        VmError,
    >)
        ensures
            r is Ok <==> self.state_spec() == VmState::Exited || self.state_spec() is Crashed,
            r matches Err(e) ==> e matches VmError::ExpectedExitedOrCrashed { actual } && actual
                == self.state_spec(),
            r matches Ok(removals) ==> removals.deep_view() == vm_cleanup_removals(
                self.standard_paths,
                *cleanup_options,
            ),
    {
        match self.ensure_exited_or_crashed() {
            Ok(()) => {},
            Err(state_error) => {
                return Err(state_error);
            },
        }
        let mut removals: Vec<String> = Vec::new();
        proof {
            assert(removals.deep_view() =~= Seq::<Seq<char>>::empty());
        }
        if cleanup_options.remove_logs {
            if let Some(log_path) = &self.standard_paths.log_path {
                push_string(&mut removals, log_path.clone());
            }
        }
        let ghost logs_part = log_removals(self.standard_paths, *cleanup_options);
        proof {
            assert(removals.deep_view() =~= logs_part);
        }
        if cleanup_options.remove_metrics {
            if let Some(metrics_path) = &self.standard_paths.metrics_path {
                push_string(&mut removals, metrics_path.clone());
            }
        }
        let ghost metrics_part = logs_part + metrics_removals(
            self.standard_paths,
            *cleanup_options,
        );
        proof {
            assert(removals.deep_view() =~= metrics_part);
        }
        if cleanup_options.remove_vsock {
            if let Some(multiplexer_path) = &self.standard_paths.vsock_multiplexer_path {
                push_string(&mut removals, multiplexer_path.clone());
                let listener_paths = clone_strings(&self.standard_paths.vsock_listener_paths);
                proof {
                    assert(listener_paths.deep_view() =~= self.standard_paths.vsock_listener_paths.deep_view());
                }
                append_strings(&mut removals, listener_paths);
            }
        }
        proof {
            assert(removals.deep_view() =~= vm_cleanup_removals(
                self.standard_paths,
                *cleanup_options,
            ));
        }
        Ok(removals)
    }
}

/// The start of a VM, as plain data: the configuration override for the
/// invocation, the JSON document to write beforehand (when booting through
/// one), the socket to await, and the ordered boot requests to send once it
/// is there. The requests' bodies point into the carried configuration.
#[derive(Debug)]
pub struct VmStartPlan {
    pub config_override: VmmConfigurationOverride,
    pub config_write_path: Option<String>,
    pub socket_path: String,
    pub boot_requests: Vec<ApiRequest>,
    pub configuration: VmConfiguration,
}

/// The log file that a VM's cleanup removes, when asked to and one exists.
pub open spec fn log_removals(paths: VmStandardPaths, options: VmCleanupOptions) -> Seq<Seq<char>> {
    if options.remove_logs {
        match paths.log_path {
            Some(p) => seq![p@],
            None => seq![],
        }
    } else {
        seq![]
    }
}

/// The metrics file that a VM's cleanup removes, when asked to and one
/// exists.
pub open spec fn metrics_removals(paths: VmStandardPaths, options: VmCleanupOptions) -> Seq<
    Seq<char>,
> {
    if options.remove_metrics {
        match paths.metrics_path {
            Some(p) => seq![p@],
            None => seq![],
        }
    } else {
        seq![]
    }
}

/// Every outer path that a VM's cleanup removes beside the executor's own
/// cleanup: the log file, the metrics file, and the vsock multiplexer
/// socket followed by every recorded listener socket — each group when its
/// option asks for it and the path exists.
pub open spec fn vm_cleanup_removals(paths: VmStandardPaths, options: VmCleanupOptions) -> Seq<
    Seq<char>,
> {
    log_removals(paths, options) + metrics_removals(paths, options) + (if options.remove_vsock {
        match paths.vsock_multiplexer_path {
            Some(p) => seq![p@] + paths.vsock_listener_paths.deep_view(),
            None => seq![],
        }
    } else {
        seq![]
    })
}

/// The drive-socket table of the standard paths: for every drive with a
/// socket, its ID and the socket's outer path, in drive order.
pub open spec fn drive_sockets_view<E: VmmExecutor>(
    executor: &E,
    installation: &VmmInstallation,
    drives: Seq<DriveView>,
) -> Seq<(Seq<char>, Seq<char>)>
    decreases drives.len(),
{
    if drives.len() == 0 {
        seq![]
    } else {
        drive_sockets_view(executor, installation, drives.drop_last()) + match drives.last().socket {
            Some(socket) => seq![
                (drives.last().drive_id, executor.inner_to_outer_spec(installation, socket)),
            ],
            None => seq![],
        }
    }
}

/// Pause/resume through the API: from Running a pause is allowed and a
/// successful pause leaves the VM Paused; from Paused a resume is allowed
/// and a successful resume leaves it Running. The same transition from the
/// wrong state is refused as a state error, which has no effect, so two
/// identical transitions in a row cannot both succeed.
pub proof fn lemma_pause_resume_idempotence<E: VmmExecutor>(vm: Vm<E>)
    requires
        vm.state_spec() == VmState::Running,
    ensures
        ({
            let paused = Vm { is_paused: pause_flag_after(VmApiOperation::Pause, vm.is_paused), ..vm };
            let resumed = Vm {
                is_paused: pause_flag_after(VmApiOperation::Resume, paused.is_paused),
                ..paused
            };
            &&& operation_allowed(VmApiOperation::Pause, vm.state_spec())
            &&& paused.state_spec() == VmState::Paused
            &&& !operation_allowed(VmApiOperation::Pause, paused.state_spec())
            &&& operation_allowed(VmApiOperation::Resume, paused.state_spec())
            &&& resumed.state_spec() == VmState::Running
            &&& !operation_allowed(VmApiOperation::Resume, resumed.state_spec())
        }),
{
    let paused = Vm { is_paused: pause_flag_after(VmApiOperation::Pause, vm.is_paused), ..vm };
    assert(expected_states_spec(VmApiOperation::Pause).contains(VmState::Running)) by {
        assert(expected_states_spec(VmApiOperation::Pause)[0] == VmState::Running);
    }
    assert(expected_states_spec(VmApiOperation::Resume).contains(VmState::Paused)) by {
        assert(expected_states_spec(VmApiOperation::Resume)[0] == VmState::Paused);
    }
    assert(!expected_states_spec(VmApiOperation::Pause).contains(VmState::Paused));
    assert(!expected_states_spec(VmApiOperation::Resume).contains(VmState::Running));
}

/// Options for what a VM's cleanup removes beside the executor's own
/// cleanup.
#[derive(Debug, Clone, Copy, PartialEq, Eq, Structural)]
pub struct VmCleanupOptions {
    pub remove_logs: bool,
    pub remove_metrics: bool,
    pub remove_vsock: bool,
}

impl VmCleanupOptions {
    pub fn new() -> (r: Self)
        ensures
            r == (VmCleanupOptions { remove_logs: false, remove_metrics: false, remove_vsock: false }),
    {
        VmCleanupOptions { remove_logs: false, remove_metrics: false, remove_vsock: false }
    }

    pub fn remove_all(self) -> (r: Self)
        ensures
            r == (VmCleanupOptions { remove_logs: true, remove_metrics: true, remove_vsock: true }),
    {
        VmCleanupOptions { remove_logs: true, remove_metrics: true, remove_vsock: true }
    }

    pub fn remove_logs(self) -> (r: Self)
        ensures
            r == (VmCleanupOptions { remove_logs: true, ..self }),
    {
        VmCleanupOptions { remove_logs: true, ..self }
    }

    pub fn remove_metrics(self) -> (r: Self)
        ensures
            r == (VmCleanupOptions { remove_metrics: true, ..self }),
    {
        VmCleanupOptions { remove_metrics: true, ..self }
    }

    pub fn remove_vsock(self) -> (r: Self)
        ensures
            r == (VmCleanupOptions { remove_vsock: true, ..self }),
    {
        VmCleanupOptions { remove_vsock: true, ..self }
    }
}

/// The outer host paths of the drives that have one, in drive order.
pub open spec fn drive_host_paths(drives: Seq<DriveView>) -> Seq<Seq<char>>
    decreases drives.len(),
{
    if drives.len() == 0 {
        seq![]
    } else {
        drive_host_paths(drives.drop_last()) + match drives.last().path_on_host {
            Some(p) => seq![p],
            None => seq![],
        }
    }
}

/// Every host path that the active configuration variant needs present
/// before preparation: for a new VM the kernel image, the initial ramdisk
/// when set, and every drive's host path; for a restored VM the snapshot
/// file and the memory backend's path.
pub open spec fn required_outer_paths(config: VmConfigurationView) -> Seq<Seq<char>> {
    match config {
        VmConfigurationView::New { init_method, data } => seq![data.boot_source.kernel_image_path]
            + (match data.boot_source.initrd_path {
            Some(p) => seq![p],
            None => seq![],
        }) + drive_host_paths(data.drives),
        VmConfigurationView::RestoredFromSnapshot { load_snapshot, data } => seq![
            load_snapshot.snapshot_path,
            load_snapshot.mem_backend.backend_path,
        ],
    }
}

/// The device data of either configuration variant.
pub open spec fn configuration_data_view(config: VmConfigurationView) -> VmConfigurationDataView {
    match config {
        VmConfigurationView::New { init_method, data } => data,
        VmConfigurationView::RestoredFromSnapshot { load_snapshot, data } => data,
    }
}

/// Enumerates the outer paths the configuration requires, in a fixed order.
pub fn enumerate_outer_paths(configuration: &VmConfiguration) -> (r: Vec<String>)
    ensures
        r.deep_view() == required_outer_paths(configuration.deep_view()),
{
    let mut outer_paths: Vec<String> = Vec::new();
    match configuration {
        VmConfiguration::New { init_method: _, data } => {
            push_string(&mut outer_paths, data.boot_source.kernel_image_path.clone());
            if let Some(initrd_path) = &data.boot_source.initrd_path {
                push_string(&mut outer_paths, initrd_path.clone());
            }
            let ghost base = seq![data.deep_view().boot_source.kernel_image_path] + (
            match data.deep_view().boot_source.initrd_path {
                Some(p) => seq![p],
                None => seq![],
            });
            proof {
                assert(outer_paths.deep_view() =~= base);
            }
            let mut i: usize = 0;
            while i < data.drives.len()
                invariant
                    0 <= i <= data.drives@.len(),
                    outer_paths.deep_view() == base + drive_host_paths(
                        data.deep_view().drives.subrange(0, i as int),
                    ),
                decreases data.drives@.len() - i,
            {
                proof {
                    let prefix = data.deep_view().drives.subrange(0, i as int + 1);
                    assert(prefix.drop_last() =~= data.deep_view().drives.subrange(0, i as int));
                    assert(prefix.last() == data.deep_view().drives[i as int]);
                }
                if let Some(path_on_host) = &data.drives[i].path_on_host {
                    push_string(&mut outer_paths, path_on_host.clone());
                }
                proof {
                    assert(outer_paths.deep_view() =~= base + drive_host_paths(
                        data.deep_view().drives.subrange(0, i as int + 1),
                    ));
                }
                i = i + 1;
            }
            proof {
                assert(data.deep_view().drives.subrange(
                    0,
                    data.drives@.len() as int,
                ) =~= data.deep_view().drives);
            }
        },
        VmConfiguration::RestoredFromSnapshot { load_snapshot, data: _ } => {
            push_string(&mut outer_paths, load_snapshot.snapshot_path.clone());
            push_string(&mut outer_paths, load_snapshot.mem_backend.backend_path.clone());
            proof {
                assert(outer_paths.deep_view() =~= required_outer_paths(
                    configuration.deep_view(),
                ));
            }
        },
    }
    outer_paths
}

/// Whether a path-mapping list assigns an inner path to the given outer
/// path.
fn is_mapped(path_mappings: &Vec<(String, String)>, outer: &String) -> (r: bool)
    ensures
        r == (mapping_lookup(path_mappings@, outer@) is Some),
{
    let mut i: usize = path_mappings.len();
    proof {
        assert(path_mappings@.subrange(0, path_mappings@.len() as int) =~= path_mappings@);
    }
    while i > 0
        invariant
            0 <= i <= path_mappings@.len(),
            mapping_lookup(path_mappings@.subrange(0, i as int), outer@) == mapping_lookup(
                path_mappings@,
                outer@,
            ),
        decreases i,
    {
        proof {
            let prefix = path_mappings@.subrange(0, i as int);
            assert(prefix.last() == path_mappings@[i - 1]);
            assert(prefix.drop_last() =~= path_mappings@.subrange(0, i - 1));
        }
        if path_mappings[i - 1].0 == *outer {
            return true;
        }
        i = i - 1;
    }
    proof {
        assert(path_mappings@.subrange(0, 0) =~= Seq::<(String, String)>::empty());
    }
    false
}

/// The inner path a path-mapping list assigns to the given outer path,
/// which must be mapped.
fn remap_path(path_mappings: &Vec<(String, String)>, outer: &String) -> (r: String)
    requires
        mapping_lookup(path_mappings@, outer@) is Some,
    ensures
        mapping_lookup(path_mappings@, outer@) == Some(r@),
{
    let mut i: usize = path_mappings.len();
    proof {
        assert(path_mappings@.subrange(0, path_mappings@.len() as int) =~= path_mappings@);
    }
    while i > 0
        invariant
            0 <= i <= path_mappings@.len(),
            mapping_lookup(path_mappings@.subrange(0, i as int), outer@) == mapping_lookup(
                path_mappings@,
                outer@,
            ),
        decreases i,
    {
        proof {
            let prefix = path_mappings@.subrange(0, i as int);
            assert(prefix.last() == path_mappings@[i - 1]);
            assert(prefix.drop_last() =~= path_mappings@.subrange(0, i - 1));
        }
        if path_mappings[i - 1].0 == *outer {
            return path_mappings[i - 1].1.clone();
        }
        i = i - 1;
    }
    proof {
        assert(path_mappings@.subrange(0, 0) =~= Seq::<(String, String)>::empty());
        assert(false);
    }
    unreached()
}

/// Whether the mapping covers every path the configuration requires.
pub open spec fn all_required_paths_mapped(
    config: VmConfigurationView,
    path_mappings: Seq<(String, String)>,
) -> bool {
    match config {
        VmConfigurationView::New { init_method, data } => {
            &&& mapping_lookup(path_mappings, data.boot_source.kernel_image_path) is Some
            &&& (data.boot_source.initrd_path matches Some(p) ==> mapping_lookup(
                path_mappings,
                p,
            ) is Some)
            &&& forall|i: int|
                0 <= i < data.drives.len() ==> ((#[trigger] data.drives[i]).path_on_host matches Some(
                    p,
                ) ==> mapping_lookup(path_mappings, p) is Some)
        },
        VmConfigurationView::RestoredFromSnapshot { load_snapshot, data } => {
            &&& mapping_lookup(path_mappings, load_snapshot.snapshot_path) is Some
            &&& mapping_lookup(path_mappings, load_snapshot.mem_backend.backend_path) is Some
        },
    }
}

proof fn lemma_drive_path_in_host_paths(drives: Seq<DriveView>, j: int)
    requires
        0 <= j < drives.len(),
        drives[j].path_on_host is Some,
    ensures
        exists|k: int|
            0 <= k < drive_host_paths(drives).len() && drive_host_paths(drives)[k]
                == drives[j].path_on_host.unwrap(),
    decreases drives.len(),
{
    let paths = drive_host_paths(drives);
    if j == drives.len() - 1 {
        assert(paths[paths.len() - 1] == drives[j].path_on_host.unwrap());
    } else {
        lemma_drive_path_in_host_paths(drives.drop_last(), j);
        let k = choose|k: int|
            0 <= k < drive_host_paths(drives.drop_last()).len() && drive_host_paths(
                drives.drop_last(),
            )[k] == drives.drop_last()[j].path_on_host.unwrap();
        assert(paths[k] == drives[j].path_on_host.unwrap());
    }
}

/// Prepare-mapping totality, composed with the rewrite: a mapping with one
/// entry per required outer path, in order — exactly what the executors'
/// preparation plans return for the outer paths that
/// [`Vm::prepare`] enumerates — covers every path the configuration
/// requires, so applying it through [`Vm::finish_prepare`] succeeds: no
/// input is lost.
pub proof fn lemma_total_mapping_covers_configuration(
    config: VmConfigurationView,
    path_mappings: Seq<(String, String)>,
)
    requires
        path_mappings.len() == required_outer_paths(config).len(),
        forall|i: int|
            0 <= i < path_mappings.len() ==> (#[trigger] path_mappings[i]).0@
                == required_outer_paths(config)[i],
    ensures
        all_required_paths_mapped(config, path_mappings),
{
    let required = required_outer_paths(config);
    match config {
        VmConfigurationView::New { init_method, data } => {
            assert(required[0] == data.boot_source.kernel_image_path);
            lemma_mapping_covers_inputs(path_mappings, 0);

            if data.boot_source.initrd_path is Some {
                assert(required[1] == data.boot_source.initrd_path.unwrap());
                lemma_mapping_covers_inputs(path_mappings, 1);
            }
            let prefix_len: int = 1 + (if data.boot_source.initrd_path is Some {
                1int
            } else {
                0int
            });
            assert forall|j: int|
                0 <= j < data.drives.len() && (#[trigger] data.drives[j]).path_on_host
                    is Some implies mapping_lookup(
                path_mappings,
                data.drives[j].path_on_host.unwrap(),
            ) is Some by {
                lemma_drive_path_in_host_paths(data.drives, j);
                let k = choose|k: int|
                    0 <= k < drive_host_paths(data.drives).len() && drive_host_paths(data.drives)[k]
                        == data.drives[j].path_on_host.unwrap();
                assert(required[prefix_len + k] == data.drives[j].path_on_host.unwrap());
                lemma_mapping_covers_inputs(path_mappings, prefix_len + k);
            }
        },
        VmConfigurationView::RestoredFromSnapshot { load_snapshot, data } => {
            assert(required[0] == load_snapshot.snapshot_path);
            assert(required[1] == load_snapshot.mem_backend.backend_path);
            lemma_mapping_covers_inputs(path_mappings, 0);
            lemma_mapping_covers_inputs(path_mappings, 1);
        },
    }
}

/// A boot source with its paths rewritten from outer to inner.
pub open spec fn rewritten_boot_source(
    b: BootSourceView,
    path_mappings: Seq<(String, String)>,
) -> BootSourceView {
    BootSourceView {
        kernel_image_path: mapping_lookup(path_mappings, b.kernel_image_path).unwrap(),
        initrd_path: match b.initrd_path {
            Some(p) => Some(mapping_lookup(path_mappings, p).unwrap()),
            None => None,
        },
        boot_args: b.boot_args,
    }
}

/// A drive with its host path rewritten from outer to inner.
pub open spec fn rewritten_drive(d: DriveView, path_mappings: Seq<(String, String)>) -> DriveView {
    DriveView {
        path_on_host: match d.path_on_host {
            Some(p) => Some(mapping_lookup(path_mappings, p).unwrap()),
            None => None,
        },
        ..d
    }
}

/// The device data with every staged path rewritten from outer to inner.
pub open spec fn rewritten_data(
    d: VmConfigurationDataView,
    path_mappings: Seq<(String, String)>,
) -> VmConfigurationDataView {
    VmConfigurationDataView {
        boot_source: rewritten_boot_source(d.boot_source, path_mappings),
        drives: Seq::new(d.drives.len(), |i: int| rewritten_drive(d.drives[i], path_mappings)),
        ..d
    }
}

/// The configuration with every staged path rewritten from outer to inner,
/// as the VMM must see it.
pub open spec fn rewritten_configuration(
    c: VmConfigurationView,
    path_mappings: Seq<(String, String)>,
) -> VmConfigurationView {
    match c {
        VmConfigurationView::New { init_method, data } => VmConfigurationView::New {
            init_method,
            data: rewritten_data(data, path_mappings),
        },
        VmConfigurationView::RestoredFromSnapshot { load_snapshot, data } => {
            VmConfigurationView::RestoredFromSnapshot {
                load_snapshot: LoadSnapshotView {
                    snapshot_path: mapping_lookup(
                        path_mappings,
                        load_snapshot.snapshot_path,
                    ).unwrap(),
                    mem_backend: MemoryBackendView {
                        backend_type: load_snapshot.mem_backend.backend_type,
                        backend_path: mapping_lookup(
                            path_mappings,
                            load_snapshot.mem_backend.backend_path,
                        ).unwrap(),
                    },
                    resume_vm: load_snapshot.resume_vm,
                    enable_diff_snapshots: load_snapshot.enable_diff_snapshots,
                },
                data,
            }
        },
    }
}

/// Whether a list of drive-socket pairs matches its view-level description.
pub open spec fn string_pairs_match(
    v: Seq<(String, String)>,
    s: Seq<(Seq<char>, Seq<char>)>,
) -> bool {
    v.len() == s.len() && forall|i: int|
        0 <= i < v.len() ==> (#[trigger] v[i]).0@ == s[i].0 && v[i].1@ == s[i].1
}

/// What the driver must create on the host after a VM's preparation: the
/// log and metrics files (with their parent trees), and the parent tree of
/// the vsock multiplexer socket, which the VMM itself binds.
#[derive(Debug)]
pub struct VmPrepareOutputs {
    pub log_file: Option<FileCreation>,
    pub metrics_file: Option<FileCreation>,
    pub vsock_dir: Option<FileCreation>,
}

/// The inner log path of the configuration's logging system, if any.
pub open spec fn configured_log_path(data: VmConfigurationDataView) -> Option<Seq<char>> {
    match data.logger_system {
        Some(logger_system) => logger_system.log_path,
        None => None,
    }
}

/// The inner path of the vsock multiplexer socket; only a new VM binds one.
pub open spec fn configured_vsock_path(config: VmConfigurationView) -> Option<Seq<char>> {
    match config {
        VmConfigurationView::New { init_method, data } => match data.vsock_device {
            Some(vsock_device) => Some(vsock_device.uds_path),
            None => None,
        },
        VmConfigurationView::RestoredFromSnapshot { load_snapshot, data } => None,
    }
}


/// Whether the executor's mapping covers every path the configuration
/// requires.
fn check_all_mapped(configuration: &VmConfiguration, path_mappings: &Vec<(String, String)>) -> (r:
    bool)
    ensures
        r == all_required_paths_mapped(configuration.deep_view(), path_mappings@),
{
    match configuration {
        VmConfiguration::New { init_method: _, data } => {
            let kernel_ok = is_mapped(path_mappings, &data.boot_source.kernel_image_path);
            let initrd_ok = match &data.boot_source.initrd_path {
                Some(initrd_path) => is_mapped(path_mappings, initrd_path),
                None => true,
            };
            let mut all_mapped = initrd_ok;
            let mut i: usize = 0;
            while i < data.drives.len()
                invariant
                    0 <= i <= data.drives@.len(),
                    all_mapped ==> (data.deep_view().boot_source.initrd_path matches Some(p)
                        ==> mapping_lookup(path_mappings@, p) is Some),
                    all_mapped ==> forall|j: int|
                        0 <= j < i ==> ((#[trigger] data.deep_view().drives[j]).path_on_host
                            matches Some(p) ==> mapping_lookup(path_mappings@, p) is Some),
                    !all_mapped ==> !((data.deep_view().boot_source.initrd_path matches Some(p)
                        ==> mapping_lookup(path_mappings@, p) is Some) && (forall|j: int|
                        0 <= j < data.deep_view().drives.len() ==> ((
                        #[trigger] data.deep_view().drives[j]).path_on_host matches Some(p)
                            ==> mapping_lookup(path_mappings@, p) is Some))),
                decreases data.drives@.len() - i,
            {
                if all_mapped {
                    if let Some(path_on_host) = &data.drives[i].path_on_host {
                        if !is_mapped(path_mappings, path_on_host) {
                            proof {
                                assert(data.deep_view().drives[i as int].path_on_host matches Some(
                                    p,
                                ) && !(mapping_lookup(path_mappings@, p) is Some));
                            }
                            all_mapped = false;
                        }
                    }
                }
                i = i + 1;
            }
            kernel_ok && all_mapped
        },
        VmConfiguration::RestoredFromSnapshot { load_snapshot, data: _ } => {
            is_mapped(path_mappings, &load_snapshot.snapshot_path) && is_mapped(
                path_mappings,
                &load_snapshot.mem_backend.backend_path,
            )
        },
    }
}

/// Rewrites the staged paths of the device data from outer to inner, per
/// the executor's mapping; everything else is kept as it is.
fn rewrite_data(data: VmConfigurationData, path_mappings: &Vec<(String, String)>) -> (r:
    VmConfigurationData)
    requires
        mapping_lookup(path_mappings@, data.boot_source.kernel_image_path@) is Some,
        data.deep_view().boot_source.initrd_path matches Some(p) ==> mapping_lookup(
            path_mappings@,
            p,
        ) is Some,
        forall|i: int|
            0 <= i < data.deep_view().drives.len() ==> ((#[trigger] data.deep_view().drives[i]).path_on_host
                matches Some(p) ==> mapping_lookup(path_mappings@, p) is Some),
    ensures
        r.deep_view() == rewritten_data(data.deep_view(), path_mappings@),
{
    let ghost data0 = data.deep_view();
    let VmConfigurationData {
        boot_source,
        drives: old_drives,
        machine_configuration,
        cpu_template,
        network_interfaces,
        balloon_device,
        vsock_device,
        logger_system,
        metrics_system,
        mmds_configuration,
        entropy_device,
    } = data;

    let kernel_image_path = remap_path(path_mappings, &boot_source.kernel_image_path);
    let initrd_path = match &boot_source.initrd_path {
        Some(initrd) => Some(remap_path(path_mappings, initrd)),
        None => None,
    };
    let boot_source = crate::vm::models::BootSource {
        kernel_image_path,
        initrd_path,
        boot_args: boot_source.boot_args,
    };
    proof {
        assert(boot_source.deep_view() == rewritten_boot_source(data0.boot_source, path_mappings@));
    }

    proof {
        assert(old_drives.deep_view() == data0.drives);
    }
    let mut drives: Vec<crate::vm::models::Drive> = Vec::new();
    let mut i: usize = 0;
    while i < old_drives.len()
        invariant
            0 <= i <= old_drives@.len(),
            old_drives.deep_view() == data0.drives,
            forall|j: int|
                0 <= j < data0.drives.len() ==> ((#[trigger] data0.drives[j]).path_on_host matches Some(
                    p,
                ) ==> mapping_lookup(path_mappings@, p) is Some),
            drives.deep_view().len() == i,
            forall|j: int|
                0 <= j < i ==> #[trigger] drives.deep_view()[j] == rewritten_drive(
                    data0.drives[j],
                    path_mappings@,
                ),
        decreases old_drives@.len() - i,
    {
        let drive = old_drives[i].clone();
        proof {
            assert(drive.deep_view() == data0.drives[i as int]);
        }
        let path_on_host = match &drive.path_on_host {
            Some(p) => Some(remap_path(path_mappings, p)),
            None => None,
        };
        let ghost previous = drives.deep_view();
        drives.push(crate::vm::models::Drive { path_on_host, ..drive });
        proof {
            assert(drives.deep_view() =~= previous.push(
                rewritten_drive(data0.drives[i as int], path_mappings@),
            ));
        }
        i = i + 1;
    }

    let r = VmConfigurationData {
        boot_source,
        drives,
        machine_configuration,
        cpu_template,
        network_interfaces,
        balloon_device,
        vsock_device,
        logger_system,
        metrics_system,
        mmds_configuration,
        entropy_device,
    };
    proof {
        assert(r.drives.deep_view() =~= rewritten_data(data0, path_mappings@).drives);
        assert(r.deep_view() =~= rewritten_data(data0, path_mappings@));
    }
    r
}

} // verus!
