use cozyboot::errors::LaunchError;
use cozyboot::launch::{guest_outcome, program_name};
use cozyboot::paths::{config_path, resolve_config_path};

#[test]
fn override_taken_verbatim() {
    let r = resolve_config_path(Some("/tmp/alt.toml".to_string()), Some("/home/u".to_string()));
    assert_eq!(r.unwrap(), "/tmp/alt.toml");
    let r = config_path(Some("/tmp/alt.toml".to_string()));
    assert_eq!(r.unwrap(), "/tmp/alt.toml");
}

#[test]
fn default_path_under_home() {
    let r = resolve_config_path(None, Some("/home/u".to_string()));
    assert_eq!(r.unwrap(), "/home/u/.config/cozyboot/cozyboot.toml");
}

#[test]
fn no_home_is_fatal() {
    let e = resolve_config_path(None, None).unwrap_err();
    assert!(matches!(e, LaunchError::PathResolutionError));
    assert_eq!(e.exit_code(), 1);
    assert_eq!(e.message(), "Error: Could not find home directory");
}

#[test]
fn looked_up_default_ends_with_suffix() {
    match config_path(None) {
        Ok(p) => assert!(p.ends_with("/.config/cozyboot/cozyboot.toml")),
        Err(e) => assert!(matches!(e, LaunchError::PathResolutionError)),
    }
}

#[test]
fn guest_success_is_ok() {
    assert!(guest_outcome(true, Some(0)).is_ok());
}

#[test]
fn guest_failure_code_relayed() {
    let e = guest_outcome(false, Some(42)).unwrap_err();
    match &e {
        LaunchError::GuestFailure { code } => assert_eq!(*code, 42),
        _ => panic!("wrong error variant"),
    }
    assert_eq!(e.exit_code(), 42);
}

#[test]
fn guest_failure_without_code_exits_one() {
    let e = guest_outcome(false, None).unwrap_err();
    assert_eq!(e.exit_code(), 1);
    assert_eq!(e.message(), "Error: CozyOS failed to start");
}

#[test]
fn guest_binary_name() {
    assert_eq!(program_name(), "cozy-os");
}

#[test]
fn missing_config_message_names_path() {
    let e = LaunchError::ConfigNotFound { path: "/home/u/.config/cozyboot/cozyboot.toml".to_string() };
    assert_eq!(
        e.message(),
        "Error: Configuration file not found at /home/u/.config/cozyboot/cozyboot.toml"
    );
    assert_eq!(e.exit_code(), 1);
}

#[test]
fn path_validation_message_names_both_forms() {
    let e = LaunchError::PathValidationError {
        expanded: "./kern".to_string(),
        original: "$(devroot)/kern".to_string(),
    };
    assert_eq!(
        e.message(),
        "Error: OS path './kern' does not exist (expanded from '$(devroot)/kern')"
    );
    assert_eq!(e.exit_code(), 1);
}

#[test]
fn parse_error_message_carries_detail() {
    let e = LaunchError::ConfigParseError { detail: "expected newline".to_string() };
    assert_eq!(e.message(), "Failed to parse config file: expected newline");
    assert_eq!(e.exit_code(), 1);
}

#[test]
fn spawn_error_message_carries_detail() {
    let e = LaunchError::SpawnError { detail: "no such file".to_string() };
    assert_eq!(e.message(), "Error: CozyOS failed to start: no such file");
    assert_eq!(e.exit_code(), 1);
}
