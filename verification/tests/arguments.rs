use fctools::vmm::arguments::{
    VmmApiSocket, VmmArguments, VmmConfigurationOverride, VmmLogLevel,
};

fn new() -> VmmArguments {
    VmmArguments::new(VmmApiSocket::Enabled("/tmp/api.sock".to_string()))
}

fn check_with_override(
    args: VmmArguments,
    config_override: VmmConfigurationOverride,
    matchers: &[&str],
) {
    let joined_args = args.join(config_override);

    for matcher in matchers {
        if let Some(matcher) = matcher.strip_prefix("!") {
            assert!(!joined_args.contains(&matcher.to_string()));
        } else {
            assert!(joined_args.contains(&matcher.to_string()));
        }
    }
}

fn check_without_override(args: VmmArguments, matchers: &[&str]) {
    check_with_override(args, VmmConfigurationOverride::NoOverride, matchers);
}

#[test]
fn api_sock_can_be_disabled() {
    check_without_override(VmmArguments::new(VmmApiSocket::Disabled), &["--no-api"]);
}

#[test]
fn api_sock_can_be_enabled() {
    check_without_override(new(), &["--api-sock", "/tmp/api.sock"]);
}

#[test]
fn log_level_can_be_set() {
    check_without_override(new().log_level(VmmLogLevel::Error), &["--level", "Error"]);
}

#[test]
fn log_path_can_be_set() {
    check_without_override(
        new().log_path("/tmp/some_logs.txt".to_string()),
        &["--log-path", "/tmp/some_logs.txt"],
    );
}

#[test]
fn show_log_origin_can_be_enabled() {
    check_without_override(new().show_log_origin(), &["--show-log-origin"]);
}

#[test]
fn module_can_be_set() {
    check_without_override(
        new().log_module("some_module".to_string()),
        &["--module", "some_module"],
    );
}

#[test]
fn show_log_level_can_be_enabled() {
    check_without_override(new().show_log_level(), &["--show-level"]);
}

#[test]
fn boot_timer_can_be_enabled() {
    check_without_override(new().enable_boot_timer(), &["--boot-timer"]);
}

#[test]
fn max_payload_can_be_set() {
    check_without_override(
        new().api_max_payload_bytes(1000),
        &["--http-api-max-payload-size", "1000"],
    );
}

#[test]
fn metadata_path_can_be_set() {
    check_without_override(
        new().metadata_path("/tmp/metadata.txt".to_string()),
        &["--metadata", "/tmp/metadata.txt"],
    );
}

#[test]
fn metrics_path_can_be_set() {
    check_without_override(
        new().metrics_path("/tmp/metrics.txt".to_string()),
        &["--metrics-path", "/tmp/metrics.txt"],
    );
}

#[test]
fn mmds_size_limit_can_be_set() {
    check_without_override(new().mmds_size_limit(1000), &["--mmds-size-limit", "1000"]);
}

#[test]
fn seccomp_can_be_disabled() {
    check_without_override(new().disable_seccomp(), &["--no-seccomp"]);
}

#[test]
fn seccomp_path_can_be_set() {
    check_without_override(
        new().seccomp_path("/tmp/seccomp".to_string()),
        &["--seccomp-filter", "/tmp/seccomp"],
    );
}

#[test]
fn config_path_persists_without_override() {
    check_with_override(
        new().config_path("/tmp/config.json".to_string()),
        VmmConfigurationOverride::NoOverride,
        &["--config-file", "/tmp/config.json"],
    );
}

#[test]
fn config_path_gets_added_with_enable_override() {
    for args in [new(), new().config_path("/tmp/config.json".to_string())] {
        check_with_override(
            args,
            VmmConfigurationOverride::Enable("/tmp/override_config.json".to_string()),
            &["--config-file", "/tmp/override_config.json"],
        );
    }
}

#[test]
fn config_path_gets_removed_with_disable_override() {
    check_with_override(
        new().config_path("/tmp/config.json".to_string()),
        VmmConfigurationOverride::Disable,
        &["!--config-file", "!/tmp/config.json"],
    );
}

#[test]
fn argument_order_is_fixed() {
    let args = VmmArguments::new(VmmApiSocket::Enabled("/run/api.sock".to_string()))
        .log_level(VmmLogLevel::Warn)
        .enable_boot_timer()
        .mmds_size_limit(2048);
    let joined = args.join(VmmConfigurationOverride::NoOverride);
    assert_eq!(
        joined,
        vec![
            "--api-sock".to_string(),
            "/run/api.sock".to_string(),
            "--level".to_string(),
            "Warn".to_string(),
            "--boot-timer".to_string(),
            "--mmds-size-limit".to_string(),
            "2048".to_string(),
        ]
    );
}
