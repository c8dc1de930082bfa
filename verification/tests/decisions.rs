use start_init::disk::{
    identifier_is_unencrypted, resolve_repair_strategy, resolve_secret, trim_token, RepairStrategy,
};
use start_init::error::{exit_code, ErrorKind};
use start_init::mode::{detect_mode, BootMode};
use start_init::shutdown::{coordinate, Effect, ExportArgs, Outcome, ShutdownDirective};

#[test]
fn live_marker_always_wins() {
    assert_eq!(detect_mode(true, true), BootMode::LiveInstall);
    assert_eq!(detect_mode(true, false), BootMode::LiveInstall);
}

#[test]
fn absent_identifier_always_needs_setup() {
    assert_eq!(detect_mode(false, false), BootMode::NeedsSetup);
}

#[test]
fn present_identifier_without_live_medium_imports() {
    assert_eq!(detect_mode(false, true), BootMode::ReadyToImport);
}

#[test]
fn unencrypted_marker_detection() {
    assert!(identifier_is_unencrypted("abc123_UNENC"));
    assert!(identifier_is_unencrypted("_UNENC"));
    assert!(!identifier_is_unencrypted("abc123"));
    assert!(!identifier_is_unencrypted("UNENC"));
    assert!(!identifier_is_unencrypted("abc123_UNENc"));
    assert!(!identifier_is_unencrypted(""));
    assert!(!identifier_is_unencrypted("abc_UNENC_x"));
}

#[test]
fn secret_is_default_for_encrypted_identifiers() {
    assert_eq!(resolve_secret("abc123").as_deref(), Some("password"));
    assert_eq!(resolve_secret("").as_deref(), Some("password"));
}

#[test]
fn secret_is_absent_for_unencrypted_identifiers() {
    assert_eq!(resolve_secret("abc123_UNENC"), None);
    assert_eq!(resolve_secret("_UNENC"), None);
}

#[test]
fn repair_marker_selects_aggressive() {
    assert_eq!(resolve_repair_strategy(true), RepairStrategy::Aggressive);
    assert_eq!(resolve_repair_strategy(false), RepairStrategy::Preen);
}

#[test]
fn trim_strips_surrounding_whitespace() {
    assert_eq!(trim_token("abc123\n"), "abc123");
    assert_eq!(trim_token("  abc123"), "abc123");
    assert_eq!(trim_token("\t a b \r\n"), "a b");
    assert_eq!(trim_token("abc123"), "abc123");
    assert_eq!(trim_token(""), "");
    assert_eq!(trim_token(" \n\t\r "), "");
}

#[test]
fn exit_codes_are_fixed_and_nonzero() {
    assert_eq!(exit_code(ErrorKind::Filesystem), 1);
    assert_eq!(exit_code(ErrorKind::Subprocess), 2);
    assert_eq!(exit_code(ErrorKind::Tls), 3);
    assert_eq!(exit_code(ErrorKind::Ssh), 4);
    assert_eq!(exit_code(ErrorKind::Disk), 5);
    assert_eq!(exit_code(ErrorKind::NotFound), 6);
    assert_eq!(exit_code(ErrorKind::Unknown), 7);
}

#[test]
fn restart_directive_coordinates_to_restart() {
    let d = ShutdownDirective { export_args: None, restart: true };
    let f = coordinate(Outcome::Directive(d));
    assert!(f.export_args.is_none());
    assert_eq!(f.effect, Effect::Restart);
}

#[test]
fn non_restart_directive_coordinates_to_clean_exit() {
    let d = ShutdownDirective {
        export_args: Some(ExportArgs {
            identifier: "abc123".to_string(),
            data_dir: "/embassy-data".to_string(),
        }),
        restart: false,
    };
    let f = coordinate(Outcome::Directive(d));
    let args = f.export_args.expect("export payload kept");
    assert_eq!(args.identifier, "abc123");
    assert_eq!(args.data_dir, "/embassy-data");
    assert_eq!(f.effect, Effect::Exit(0));
}

#[test]
fn clean_outcome_exits_zero() {
    let f = coordinate(Outcome::Clean);
    assert!(f.export_args.is_none());
    assert_eq!(f.effect, Effect::Exit(0));
}

#[test]
fn fault_outcome_exits_with_mapped_code() {
    let f = coordinate(Outcome::Fault(ErrorKind::Disk));
    assert!(f.export_args.is_none());
    assert_eq!(f.effect, Effect::Exit(5));
}
