use fctools::executor::jailed::{FlatJailRenamer, JailedVmmExecutor};
use fctools::executor::process_handle::{ProcessHandle, ProcessHandlePipesError};
use fctools::executor::unrestricted::UnrestrictedVmmExecutor;
use fctools::vm::api::{ApiRequestBody, VmActionType, VmApiOperation};
use fctools::vm::configuration::{InitMethod, VmConfiguration, VmConfigurationData};
use fctools::vm::models::{
    BootSource, Drive, LoggerSystem, MachineConfiguration, MemoryBackend, MemoryBackendType,
    MetricsSystem, NetworkInterface, VsockDevice,
};
use fctools::vm::shutdown::VmShutdownMethod;
use fctools::vm::snapshot::SnapshotData;
use fctools::vm::{
    check_api_response, check_empty_response, vsock_listener_path, Vm, VmCleanupOptions, VmError,
    VmState,
};
use fctools::vmm::arguments::{VmmApiSocket, VmmArguments, VmmConfigurationOverride};
use fctools::vmm::installation::VmmInstallation;
use fctools::vmm::jailer::JailerArguments;

fn installation() -> VmmInstallation {
    VmmInstallation::new(
        "/opt/fc".to_string(),
        "/opt/jailer".to_string(),
        "v0".to_string(),
    )
}

fn unrestricted() -> UnrestrictedVmmExecutor {
    UnrestrictedVmmExecutor::new(VmmArguments::new(VmmApiSocket::Enabled(
        "/run/api.sock".to_string(),
    )))
}

fn boot_data() -> VmConfigurationData {
    VmConfigurationData::new(
        BootSource::new("/opt/kernel.bin".to_string()),
        MachineConfiguration::new(2, 512),
    )
    .drive(Drive::new("d0".to_string(), true).path_on_host("/opt/rootfs.ext4".to_string()))
    .network_interface(NetworkInterface::new("n0".to_string(), "tap0".to_string()))
}

/// Drives an unrestricted VM through prepare and finish_prepare, up to the
/// point where it can be started.
fn prepared_vm(data: VmConfigurationData) -> Vm<UnrestrictedVmmExecutor> {
    let executor = unrestricted();
    let configuration = VmConfiguration::New {
        init_method: InitMethod::ViaApiCalls,
        data,
    };
    let (mut vm, outer_paths) =
        Vm::prepare(executor, installation(), configuration).unwrap();
    let plan = vm.executor.plan_prepare(&outer_paths);
    vm.finish_prepare(&plan.path_mappings).unwrap();
    vm
}

fn running_vm() -> Vm<UnrestrictedVmmExecutor> {
    let mut vm = prepared_vm(boot_data());
    let start_plan = vm.plan_start().unwrap();
    assert_eq!(start_plan.socket_path, "/run/api.sock".to_string());
    vm.mark_invoked();
    vm
}

#[test]
fn disabled_api_socket_is_rejected_before_any_io() {
    let executor = UnrestrictedVmmExecutor::new(VmmArguments::new(VmmApiSocket::Disabled));
    let configuration = VmConfiguration::New {
        init_method: InitMethod::ViaApiCalls,
        data: boot_data(),
    };
    assert!(matches!(
        Vm::prepare(executor, installation(), configuration),
        Err(VmError::DisabledApiSocketIsUnsupported)
    ));
}

#[test]
fn new_boot_requests_follow_the_declared_order() {
    let mut vm = prepared_vm(boot_data());
    let plan = vm.plan_start().unwrap();
    let routes: Vec<&str> = plan
        .boot_requests
        .iter()
        .map(|request| request.route.as_str())
        .collect();
    assert_eq!(
        routes,
        vec!["/boot-source", "/drives/d0", "/machine-config", "/network-interfaces/n0", "/actions"]
    );
    for request in &plan.boot_requests {
        assert_eq!(request.method, "PUT".to_string());
    }
    assert_eq!(
        plan.boot_requests.last().unwrap().body,
        ApiRequestBody::Action(VmActionType::InstanceStart)
    );
    assert_eq!(plan.boot_requests[1].body, ApiRequestBody::DriveAt(0));
}

#[test]
fn restore_requests_end_with_the_snapshot_load() {
    let executor = unrestricted();
    let load_snapshot = fctools::vm::models::LoadSnapshot::new(
        "/snap".to_string(),
        MemoryBackend::new(MemoryBackendType::File, "/mem".to_string()),
    );
    let data = boot_data().logger_system(LoggerSystem::new().log_path("/logs.txt".to_string()));
    let configuration = VmConfiguration::RestoredFromSnapshot { load_snapshot, data };
    let (mut vm, outer_paths) = Vm::prepare(executor, installation(), configuration).unwrap();
    assert_eq!(outer_paths, vec!["/snap".to_string(), "/mem".to_string()]);
    let plan = vm.executor.plan_prepare(&outer_paths);
    vm.finish_prepare(&plan.path_mappings).unwrap();
    let start_plan = vm.plan_start().unwrap();
    let routes: Vec<&str> = start_plan
        .boot_requests
        .iter()
        .map(|request| request.route.as_str())
        .collect();
    assert_eq!(routes, vec!["/logger", "/snapshot/load"]);
    assert_eq!(
        start_plan.boot_requests.last().unwrap().body,
        ApiRequestBody::LoadSnapshot
    );
}

#[test]
fn json_configuration_boot_skips_api_calls() {
    let executor = unrestricted();
    let configuration = VmConfiguration::New {
        init_method: InitMethod::ViaJsonConfiguration("/config.json".to_string()),
        data: boot_data(),
    };
    let (mut vm, outer_paths) = Vm::prepare(executor, installation(), configuration).unwrap();
    let plan = vm.executor.plan_prepare(&outer_paths);
    vm.finish_prepare(&plan.path_mappings).unwrap();
    let start_plan = vm.plan_start().unwrap();
    assert!(matches!(
        start_plan.config_override,
        VmmConfigurationOverride::Enable(ref p) if p == "/config.json"
    ));
    assert_eq!(start_plan.config_write_path, Some("/config.json".to_string()));
    assert!(start_plan.boot_requests.is_empty());
}

#[test]
fn operations_outside_their_precondition_set_fail_with_expected_state() {
    let vm = prepared_vm(boot_data());
    assert_eq!(vm.state(), VmState::NotStarted);

    match vm.check_api_operation(&VmApiOperation::Pause) {
        Err(VmError::ExpectedState { expected, actual }) => {
            assert_eq!(expected, vec![VmState::Running]);
            assert_eq!(actual, VmState::NotStarted);
        },
        other => panic!("expected a state error, got {:?}", other.map(|_| ())),
    }
    match vm.check_api_operation(&VmApiOperation::GetInfo) {
        Err(VmError::ExpectedState { expected, actual }) => {
            assert_eq!(expected, vec![VmState::Running, VmState::Paused]);
            assert_eq!(actual, VmState::NotStarted);
        },
        other => panic!("expected a state error, got {:?}", other.map(|_| ())),
    }
    // The refused operation had no effect.
    assert_eq!(vm.state(), VmState::NotStarted);
}

#[test]
fn pause_and_resume_flip_cleanly_and_only_from_the_right_state() {
    let mut vm = running_vm();
    assert_eq!(vm.state(), VmState::Running);

    // Resume from Running is refused.
    assert!(vm.check_api_operation(&VmApiOperation::Resume).is_err());

    vm.check_api_operation(&VmApiOperation::Pause).unwrap();
    vm.apply_api_success(&VmApiOperation::Pause);
    assert_eq!(vm.state(), VmState::Paused);

    // Pause from Paused is refused, with no effect.
    assert!(vm.check_api_operation(&VmApiOperation::Pause).is_err());
    assert_eq!(vm.state(), VmState::Paused);

    vm.check_api_operation(&VmApiOperation::Resume).unwrap();
    vm.apply_api_success(&VmApiOperation::Resume);
    assert_eq!(vm.state(), VmState::Running);

    // A read never changes the pause flag.
    vm.check_api_operation(&VmApiOperation::GetEffectiveConfiguration).unwrap();
    vm.apply_api_success(&VmApiOperation::GetEffectiveConfiguration);
    assert_eq!(vm.state(), VmState::Running);
}

#[test]
fn balloon_statistics_demand_a_running_vm() {
    let mut vm = running_vm();
    vm.check_api_operation(&VmApiOperation::GetBalloonStatistics).unwrap();
    vm.apply_api_success(&VmApiOperation::Pause);
    assert!(vm.check_api_operation(&VmApiOperation::GetBalloonStatistics).is_err());
}

#[test]
fn shutdown_methods_are_attempted_strictly_in_order() {
    let vm = running_vm();
    let mut walk = vm
        .start_shutdown(vec![VmShutdownMethod::CtrlAltDel, VmShutdownMethod::Kill])
        .unwrap();
    assert_eq!(walk.current_method(), Some(VmShutdownMethod::CtrlAltDel));
    walk.record_attempt(false);
    assert_eq!(walk.current_method(), Some(VmShutdownMethod::Kill));
    walk.record_attempt(true);
    assert!(walk.has_succeeded());
    assert!(walk.is_finished());
    assert_eq!(walk.current_method(), None);
}

#[test]
fn shutdown_stops_at_the_first_success() {
    let vm = running_vm();
    let mut walk = vm
        .start_shutdown(vec![VmShutdownMethod::CtrlAltDel, VmShutdownMethod::Kill])
        .unwrap();
    walk.record_attempt(true);
    assert_eq!(walk.current_method(), None);
    assert!(walk.has_succeeded());
}

#[test]
fn shutdown_without_methods_is_invalid() {
    let vm = running_vm();
    assert!(matches!(
        vm.start_shutdown(vec![]),
        Err(VmError::NoShutdownMethodsSpecified)
    ));
    let idle = prepared_vm(boot_data());
    assert!(matches!(
        idle.start_shutdown(vec![VmShutdownMethod::Kill]),
        Err(VmError::ExpectedState { .. })
    ));
}

#[test]
fn shutdown_method_actions_are_fixed() {
    let request = VmShutdownMethod::CtrlAltDel.api_request().unwrap();
    assert_eq!(request.route, "/actions".to_string());
    assert_eq!(request.body, ApiRequestBody::Action(VmActionType::SendCtrlAltDel));
    assert_eq!(VmShutdownMethod::WriteRebootToStdin.stdin_payload(), Some("reboot\n"));
    assert!(VmShutdownMethod::Kill.kills_process());
    assert!(!VmShutdownMethod::CtrlAltDel.kills_process());
}

#[test]
fn cleanup_demands_a_terminal_state_and_lists_exact_removals() {
    let data = boot_data()
        .logger_system(LoggerSystem::new().log_path("/logs.txt".to_string()))
        .metrics_system(MetricsSystem::new("/metrics.txt".to_string()))
        .vsock_device(VsockDevice::new(3, "/v.sock".to_string()));
    let mut vm = prepared_vm(data);
    let start_plan = vm.plan_start().unwrap();
    assert!(!start_plan.boot_requests.is_empty());
    vm.mark_invoked();

    assert!(matches!(
        vm.plan_cleanup(&VmCleanupOptions::new().remove_all()),
        Err(VmError::ExpectedExitedOrCrashed { actual: VmState::Running })
    ));

    let listener = vsock_listener_path("/v.sock", 8000);
    assert_eq!(listener, "/v.sock_8000".to_string());
    vm.add_vsock_listener_path(listener);

    vm.observe_exit(0);
    assert_eq!(vm.state(), VmState::Exited);

    let removals = vm.plan_cleanup(&VmCleanupOptions::new().remove_all()).unwrap();
    assert_eq!(
        removals,
        vec![
            "/logs.txt".to_string(),
            "/metrics.txt".to_string(),
            "/v.sock".to_string(),
            "/v.sock_8000".to_string(),
        ]
    );
    assert!(vm.plan_cleanup(&VmCleanupOptions::new()).unwrap().is_empty());
}

#[test]
fn crash_records_the_raw_wait_status() {
    let mut vm = running_vm();
    vm.observe_exit(256);
    assert_eq!(vm.state(), VmState::Crashed(256));
}

#[test]
fn standard_paths_record_prepared_locations() {
    let data = boot_data()
        .drive(Drive::new("d1".to_string(), false).socket("/drive.sock".to_string()))
        .logger_system(LoggerSystem::new().log_path("/logs.txt".to_string()));
    let vm = prepared_vm(data);
    let paths = vm.standard_paths();
    assert_eq!(paths.get_drive_socket("d1"), Some(&"/drive.sock".to_string()));
    assert_eq!(paths.get_drive_socket("d0"), None);
    assert_eq!(paths.get_log_path(), Some(&"/logs.txt".to_string()));
    assert_eq!(paths.get_metrics_path(), None);
}

#[test]
fn jailed_preparation_rewrites_the_configuration_into_the_jail() {
    let executor = JailedVmmExecutor::new(
        VmmArguments::new(VmmApiSocket::Enabled("/run/api.sock".to_string())),
        JailerArguments::new(1000, 1000, "abc".to_string()),
        FlatJailRenamer::default(),
    );
    let configuration = VmConfiguration::New {
        init_method: InitMethod::ViaApiCalls,
        data: boot_data(),
    };
    let (mut vm, outer_paths) = Vm::prepare(executor, installation(), configuration).unwrap();
    assert_eq!(
        outer_paths,
        vec!["/opt/kernel.bin".to_string(), "/opt/rootfs.ext4".to_string()]
    );
    let plan = vm.executor.plan_prepare(&installation(), &outer_paths).unwrap();
    let path_mappings: Vec<(String, String)> = plan
        .resources
        .iter()
        .map(|resource| (resource.outer_path.clone(), resource.inner_path.clone()))
        .collect();

    // An incomplete mapping is rejected without touching the VM.
    assert!(matches!(
        vm.finish_prepare(&vec![]),
        Err(VmError::MissingPathMapping)
    ));

    vm.finish_prepare(&path_mappings).unwrap();
    let rewritten = vm.configuration.as_ref().unwrap().data();
    assert_eq!(rewritten.boot_source.kernel_image_path, "/kernel.bin".to_string());
    assert_eq!(
        rewritten.drives[0].path_on_host,
        Some("/rootfs.ext4".to_string())
    );
    // The staged location on the host is where the inner path resolves back
    // to: the path round-trip.
    assert_eq!(
        plan.resources[0].expanded_inner_path,
        vm.inner_to_outer_path(&rewritten.boot_source.kernel_image_path)
    );
}

#[test]
fn snapshots_detach_with_outer_paths_and_restore_as_configurations() {
    let mut vm = running_vm();
    vm.apply_api_success(&VmApiOperation::Pause);
    vm.check_api_operation(&VmApiOperation::CreateSnapshot(
        fctools::vm::models::CreateSnapshot::new("/snap".to_string(), "/mem".to_string()),
    ))
    .unwrap();
    let snapshot = vm.api_create_snapshot_success("/snap", "/mem");
    assert_eq!(snapshot.snapshot_path(), &"/snap".to_string());
    assert_eq!(snapshot.mem_file_path(), &"/mem".to_string());
    // The unrestricted executor leaves traces, so the files are recorded.
    assert_eq!(
        vm.snapshot_traces(),
        &vec!["/snap".to_string(), "/mem".to_string()]
    );

    let configuration = snapshot.into_configuration(Some(true), None);
    match configuration {
        VmConfiguration::RestoredFromSnapshot { load_snapshot, data } => {
            assert_eq!(load_snapshot.snapshot_path, "/snap".to_string());
            assert_eq!(load_snapshot.mem_backend.backend_type, MemoryBackendType::File);
            assert_eq!(load_snapshot.mem_backend.backend_path, "/mem".to_string());
            assert!(load_snapshot.resume_vm);
            assert!(!load_snapshot.enable_diff_snapshots);
            assert_eq!(data.boot_source.kernel_image_path, "/opt/kernel.bin".to_string());
        },
        VmConfiguration::New { .. } => panic!("expected a restored configuration"),
    }
}

#[test]
fn snapshot_files_can_be_moved_and_removed() {
    let mut snapshot = SnapshotData::new(
        "/snap".to_string(),
        "/mem".to_string(),
        boot_data(),
    );
    let copies = snapshot.copy_plan("/snap2", "/mem2");
    assert_eq!(copies[0], ("/snap".to_string(), "/snap2".to_string()));
    assert_eq!(copies[1], ("/mem".to_string(), "/mem2".to_string()));
    snapshot.set_destinations("/snap2".to_string(), "/mem2".to_string());
    assert_eq!(snapshot.snapshot_path(), &"/snap2".to_string());
    let (snapshot_file, mem_file) = snapshot.remove_plan();
    assert_eq!(snapshot_file, "/snap2".to_string());
    assert_eq!(mem_file, "/mem2".to_string());
}

#[test]
fn api_responses_divide_by_status_code() {
    assert!(check_api_response(200, String::new()).is_ok());
    assert!(check_api_response(204, String::new()).is_ok());
    match check_api_response(400, "bad body".to_string()) {
        Err(VmError::ApiRespondedWithFault { status_code, fault_message }) => {
            assert_eq!(status_code, 400);
            assert_eq!(fault_message, "bad body".to_string());
        },
        other => panic!("expected a fault, got {:?}", other.map(|_| ())),
    }
    assert!(check_empty_response(" \n".to_string()).is_ok());
    assert!(matches!(
        check_empty_response("{}".to_string()),
        Err(VmError::ApiResponseExpectedEmpty(body)) if body == "{}"
    ));
}

#[test]
fn pipes_are_extracted_through_the_vm_only_while_it_lives() {
    let mut handle = ProcessHandle::with_child(false);

    let idle = prepared_vm(boot_data());
    assert!(matches!(
        idle.take_pipes(&mut handle),
        Err(VmError::ExpectedState { .. })
    ));

    let vm = running_vm();
    vm.take_pipes(&mut handle).unwrap();
    assert!(matches!(
        vm.take_pipes(&mut handle),
        Err(VmError::ProcessPipesUnavailable(ProcessHandlePipesError::PipesWereAlreadyTaken))
    ));
}
