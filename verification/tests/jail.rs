use fctools::executor::jailed::{
    FlatJailRenamer, JailMoveMethod, JailRenamer, JailRenamerError, JailedVmmExecutor,
    MappingJailRenamer,
};
use fctools::executor::VmmExecutor;
use fctools::path::jail_join;
use fctools::vmm::arguments::{VmmApiSocket, VmmArguments};
use fctools::vmm::installation::VmmInstallation;
use fctools::vmm::jailer::JailerArguments;

fn assert_renamer(renamer: &impl JailRenamer, path: &str, expectation: &str) {
    assert_eq!(
        renamer.rename_for_jail(path).unwrap().as_str(),
        expectation
    );
}

#[test]
fn jail_join_performs_correctly() {
    assert_eq!(jail_join("/jail", "/inner"), "/jail/inner".to_string());
}

#[test]
fn jailed_jail_join_performs_correctly() {
    assert_eq!(jail_join("/jail", "/inner"), "/jail/inner".to_string());
}

#[test]
fn flat_jail_renamer_moves_correctly() {
    let renamer = FlatJailRenamer::default();
    assert_renamer(&renamer, "/opt/file", "/file");
    assert_renamer(&renamer, "/tmp/some_path.txt", "/some_path.txt");
    assert_renamer(&renamer, "/some/complex/outside/path/filename.ext4", "/filename.ext4");
}

#[test]
fn jailed_flat_jail_renamer_moves_correctly() {
    let renamer = FlatJailRenamer::default();
    assert_renamer(&renamer, "/opt/file", "/file");
    assert_renamer(&renamer, "/tmp/some_path.txt", "/some_path.txt");
    assert_renamer(&renamer, "/some/complex/outside/path/filename.ext4", "/filename.ext4");
}

#[test]
fn mapping_jail_renamer_moves_correctly() {
    let mut renamer = MappingJailRenamer::new();
    renamer.map("/etc/a".to_string(), "/tmp/a".to_string());
    renamer.map("/opt/b".to_string(), "/etc/b".to_string());
    renamer.map("/tmp/c".to_string(), "/c".to_string());
    assert_renamer(&renamer, "/etc/a", "/tmp/a");
    assert_renamer(&renamer, "/opt/b", "/etc/b");
    assert_renamer(&renamer, "/tmp/c", "/c");
    assert!(matches!(
        renamer.rename_for_jail("/tmp/unknown"),
        Err(JailRenamerError::PathIsUnmapped(_))
    ));
}

#[test]
fn flat_jail_renamer_rejects_paths_without_filename() {
    let renamer = FlatJailRenamer::default();
    assert!(matches!(
        renamer.rename_for_jail("/"),
        Err(JailRenamerError::PathHasNoFilename(_))
    ));
}

#[test]
fn jail_join_composes_absolute_paths() {
    assert_eq!(
        jail_join("/srv/jailer/fc/abc/root", "/dev/kvm"),
        "/srv/jailer/fc/abc/root/dev/kvm".to_string()
    );
}

fn test_installation() -> VmmInstallation {
    VmmInstallation::new(
        "/opt/fc".to_string(),
        "/opt/jailer".to_string(),
        "v0".to_string(),
    )
}

fn test_executor() -> JailedVmmExecutor<FlatJailRenamer> {
    JailedVmmExecutor::new(
        VmmArguments::new(VmmApiSocket::Enabled("/run/api.sock".to_string())),
        JailerArguments::new(1000, 1000, "abc".to_string()),
        FlatJailRenamer::default(),
    )
}

#[test]
fn jailed_executor_resolves_jail_paths() {
    let executor = test_executor();
    let installation = test_installation();
    let (chroot_base_dir, jail_path) = executor.get_paths(&installation);
    assert_eq!(chroot_base_dir, "/srv/jailer".to_string());
    assert_eq!(jail_path, "/srv/jailer/fc/abc/root".to_string());
    assert_eq!(
        executor.inner_to_outer_path(&installation, "/kernel.bin"),
        "/srv/jailer/fc/abc/root/kernel.bin".to_string()
    );
    assert_eq!(
        executor.get_socket_path(&installation),
        Some("/srv/jailer/fc/abc/root/run/api.sock".to_string())
    );
    assert!(executor.is_traceless());
}

#[test]
fn jailed_executor_prepare_plan_maps_every_input() {
    let executor = test_executor().jail_move_method(JailMoveMethod::HardLinkWithCopyFallback);
    let installation = test_installation();
    let outer_paths = vec!["/opt/kernel.bin".to_string(), "/data/rootfs.ext4".to_string()];
    let plan = executor.plan_prepare(&installation, &outer_paths).unwrap();

    assert_eq!(plan.jail_path, "/srv/jailer/fc/abc/root".to_string());
    assert_eq!(plan.move_method, JailMoveMethod::HardLinkWithCopyFallback);
    assert_eq!(plan.resources.len(), outer_paths.len());
    for (resource, outer_path) in plan.resources.iter().zip(outer_paths.iter()) {
        assert_eq!(&resource.outer_path, outer_path);
    }
    assert_eq!(plan.resources[0].inner_path, "/kernel.bin".to_string());
    assert_eq!(
        plan.resources[0].expanded_inner_path,
        "/srv/jailer/fc/abc/root/kernel.bin".to_string()
    );
    assert_eq!(plan.resources[1].inner_path, "/rootfs.ext4".to_string());
    assert_eq!(
        plan.resources[1].expanded_inner_path,
        executor.inner_to_outer_path(&installation, &plan.resources[1].inner_path)
    );
    assert_eq!(
        plan.socket_parent_dir,
        Some("/srv/jailer/fc/abc/root/run".to_string())
    );
}

#[test]
fn jailed_executor_prepare_plan_rejects_unrenamable_path() {
    let executor = test_executor();
    let installation = test_installation();
    let outer_paths = vec!["/".to_string()];
    assert!(executor.plan_prepare(&installation, &outer_paths).is_err());
}

#[test]
fn jailed_executor_cleanup_removes_jail_parent() {
    let executor = test_executor();
    let installation = test_installation();
    let plan = executor.plan_cleanup(&installation).unwrap();
    assert_eq!(plan.upgrade_path, "/srv/jailer/fc/abc/root".to_string());
    assert_eq!(plan.remove_dir, "/srv/jailer/fc/abc".to_string());
}

#[test]
fn jailed_executor_daemonizing_invoke_names_pid_file() {
    let executor = JailedVmmExecutor::new(
        VmmArguments::new(VmmApiSocket::Enabled("/run/api.sock".to_string())),
        JailerArguments::new(1000, 1000, "abc".to_string()).daemonize(),
        FlatJailRenamer::default(),
    );
    let installation = test_installation();
    let plan = executor.plan_invoke(
        &installation,
        fctools::vmm::arguments::VmmConfigurationOverride::NoOverride,
        fctools::vmm::ownership::VmmOwnershipModel::Downgraded { uid: 1234, gid: 1000 },
    );
    assert_eq!(plan.binary_path, "/opt/jailer".to_string());
    assert_eq!(
        plan.pid_file_path,
        Some("/srv/jailer/fc/abc/root/fc.pid".to_string())
    );
    let separator_position = plan.arguments.iter().position(|a| a == "--").unwrap();
    assert!(plan.arguments[..separator_position].contains(&"--daemonize".to_string()));
    assert!(plan.arguments[separator_position..].contains(&"--api-sock".to_string()));
    // The jail's user was resolved through the ownership model's downgrade.
    let uid_position = plan.arguments.iter().position(|a| a == "--uid").unwrap();
    assert_eq!(plan.arguments[uid_position + 1], "1234".to_string());
}
