use fctools::executor::unrestricted::{UnrestrictedVmmExecutor, VmmId, VmmIdParseError};
use fctools::executor::{check_invoke_exit_status, check_resource_exists, VmmExecutor};
use fctools::vmm::arguments::{CommandModifier, VmmApiSocket, VmmArguments, VmmConfigurationOverride};
use fctools::vmm::installation::VmmInstallation;
use fctools::vmm::jailer::JailerArguments;
use fctools::vmm::ownership::{upgrade_owner_command, ChangeOwnerError, VmmOwnershipModel, interpret_chown_status};

#[test]
fn vmm_id_rejects_when_too_short() {
    for l in 0..5 {
        let str = (0..l).map(|_| "l").collect::<String>();
        assert_eq!(VmmId::new(str), Err(VmmIdParseError::TooShort));
    }
}

#[test]
fn vmm_id_rejects_when_too_long() {
    for l in 61..100 {
        let str = (0..l).map(|_| "L").collect::<String>();
        assert_eq!(VmmId::new(str), Err(VmmIdParseError::TooLong));
    }
}

#[test]
fn vmm_id_rejects_when_invalid_character() {
    for c in ['~', '_', '$', '#', '+'] {
        let str = (0..10).map(|_| c).collect::<String>();
        assert_eq!(VmmId::new(str), Err(VmmIdParseError::ContainsInvalidCharacter));
    }
}

#[test]
fn vmm_id_accepts_valid() {
    for str in ["vmm-id", "longer-id", "L1Nda74-", "very-loNg-ID"] {
        VmmId::new(str.to_string()).unwrap();
    }
}

fn test_installation() -> VmmInstallation {
    VmmInstallation::new(
        "/opt/fc".to_string(),
        "/opt/jailer".to_string(),
        "v0".to_string(),
    )
}

fn arguments() -> VmmArguments {
    VmmArguments::new(VmmApiSocket::Enabled("/run/api.sock".to_string()))
        .log_path("/logs.txt".to_string())
        .metrics_path("/metrics.txt".to_string())
}

#[test]
fn unrestricted_executor_returns_paths_verbatim() {
    let executor = UnrestrictedVmmExecutor::new(arguments());
    let installation = test_installation();
    assert_eq!(
        executor.get_socket_path(&installation),
        Some("/run/api.sock".to_string())
    );
    assert_eq!(
        executor.inner_to_outer_path(&installation, "/opt/kernel.bin"),
        "/opt/kernel.bin".to_string()
    );
    assert!(!executor.is_traceless());
}

#[test]
fn unrestricted_prepare_plan_is_identity_mapping() {
    let executor = UnrestrictedVmmExecutor::new(arguments());
    let outer_paths = vec!["/opt/kernel.bin".to_string(), "/data/rootfs.ext4".to_string()];
    let plan = executor.plan_prepare(&outer_paths);
    assert_eq!(plan.path_mappings.len(), outer_paths.len());
    for (mapping, outer_path) in plan.path_mappings.iter().zip(outer_paths.iter()) {
        assert_eq!(&mapping.0, outer_path);
        assert_eq!(&mapping.1, outer_path);
    }
    assert_eq!(plan.stale_socket_path, Some("/run/api.sock".to_string()));
    assert_eq!(plan.log_file.unwrap().path, "/logs.txt".to_string());
    assert_eq!(plan.metrics_file.unwrap().path, "/metrics.txt".to_string());
}

#[test]
fn unrestricted_invoke_plan_appends_id_after_modifiers() {
    let executor = UnrestrictedVmmExecutor::new(arguments())
        .command_modifier(CommandModifier::Wrap {
            wrapper_path: "/usr/bin/sudo".to_string(),
            wrapper_arguments: vec!["-E".to_string()],
        })
        .id(VmmId::new("vmm-id".to_string()).unwrap())
        .pipes_to_null();
    let plan = executor.plan_invoke(&test_installation(), VmmConfigurationOverride::NoOverride);
    assert_eq!(plan.binary_path, "/usr/bin/sudo".to_string());
    assert_eq!(plan.arguments[0], "-E".to_string());
    assert_eq!(plan.arguments[1], "/opt/fc".to_string());
    assert!(plan.pipes_to_null);
    assert_eq!(plan.pid_file_path, None);
    let len = plan.arguments.len();
    assert_eq!(plan.arguments[len - 2], "--id".to_string());
    assert_eq!(plan.arguments[len - 1], "vmm-id".to_string());
}

#[test]
fn unrestricted_cleanup_plan_honours_removal_flags() {
    let executor = UnrestrictedVmmExecutor::new(arguments())
        .remove_logs_on_cleanup()
        .remove_metrics_on_cleanup();
    let plan = executor.plan_cleanup();
    assert_eq!(plan.stale_socket_path, Some("/run/api.sock".to_string()));
    assert_eq!(
        plan.files_to_remove,
        vec!["/logs.txt".to_string(), "/metrics.txt".to_string()]
    );

    let quiet_executor = UnrestrictedVmmExecutor::new(arguments());
    assert!(quiet_executor.plan_cleanup().files_to_remove.is_empty());
}

#[test]
fn jailer_arguments_join_produces_exact_list() {
    let arguments = JailerArguments::new(123, 456, "jail-id".to_string())
        .daemonize()
        .cgroup("cpu.weight".to_string(), "20".to_string());
    let joined = arguments.join("/opt/fc");
    assert_eq!(
        joined,
        vec![
            "--exec-file".to_string(),
            "/opt/fc".to_string(),
            "--uid".to_string(),
            "123".to_string(),
            "--gid".to_string(),
            "456".to_string(),
            "--id".to_string(),
            "jail-id".to_string(),
            "--cgroup".to_string(),
            "cpu.weight=20".to_string(),
            "--daemonize".to_string(),
        ]
    );
}

#[test]
fn ownership_upgrade_spawns_forced_recursive_chown() {
    assert!(upgrade_owner_command("/srv/jailer", &VmmOwnershipModel::Shared).is_none());
    assert!(
        upgrade_owner_command("/srv/jailer", &VmmOwnershipModel::Downgraded { uid: 1, gid: 1 })
            .is_none()
    );
    let command = upgrade_owner_command("/srv/jailer", &VmmOwnershipModel::Upgraded).unwrap();
    assert_eq!(command.binary, "chown".to_string());
    assert_eq!(command.arguments.len(), 4);
    assert_eq!(command.arguments[0], "-f".to_string());
    assert_eq!(command.arguments[1], "-R".to_string());
    assert_eq!(command.arguments[3], "/srv/jailer".to_string());
}

#[test]
fn ownership_downgrade_names_its_target() {
    assert_eq!(
        VmmOwnershipModel::Downgraded { uid: 7, gid: 9 }.as_downgrade(),
        Some((7, 9))
    );
    assert_eq!(VmmOwnershipModel::Upgraded.as_downgrade(), None);
    assert_eq!(VmmOwnershipModel::Shared.as_downgrade(), None);
}

#[test]
fn chown_status_tolerates_concurrent_chown() {
    assert!(interpret_chown_status(0).is_ok());
    assert!(interpret_chown_status(256).is_ok());
    assert_eq!(
        interpret_chown_status(512),
        Err(ChangeOwnerError::ProcessExitedWithWrongStatus(512))
    );
}

#[test]
fn executor_checks_report_exact_causes() {
    assert!(check_resource_exists("/opt/kernel.bin", true).is_ok());
    assert!(matches!(
        check_resource_exists("/opt/kernel.bin", false),
        Err(fctools::executor::VmmExecutorError::ExpectedResourceMissing(p)) if p == "/opt/kernel.bin"
    ));
    assert!(check_invoke_exit_status(0).is_ok());
    assert!(matches!(
        check_invoke_exit_status(256),
        Err(fctools::executor::VmmExecutorError::ProcessExitedWithIncorrectStatus(256))
    ));
}
