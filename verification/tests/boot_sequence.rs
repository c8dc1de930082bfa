use start_init::disk::{ImportOutcome, RepairStrategy};
use start_init::error::ErrorKind;
use start_init::sequence::{
    action_of, initial_state, step, Action, BootState, Cue, Event, HookPoint, SurfaceKind,
};
use start_init::shutdown::{coordinate, Effect, ExportArgs, Outcome, ShutdownDirective};

#[test]
fn setup_path_completes_cleanly() {
    // Identifier file absent, no live-install marker: the setup surface is
    // started; a completion signal without restart ends the run with no
    // directive at all.
    let mut s = initial_state();
    assert!(matches!(action_of(&s), Action::CheckStandby));
    s = step(s, Event::StandbyChecked { designated_platform: true, marker_present: false });
    assert!(matches!(action_of(&s), Action::PlayCue(Cue::Boot)));
    s = step(s, Event::Done(Ok(())));
    assert!(matches!(action_of(&s), Action::RunHook(HookPoint::Pre)));
    s = step(s, Event::HookFinished(Ok(())));
    assert!(matches!(action_of(&s), Action::RunFirmwareUpdate));
    s = step(s, Event::FirmwareChecked(Ok(false)));
    assert!(matches!(action_of(&s), Action::GatherEvidence));
    s = step(s, Event::Evidence { live_marker_present: false, identifier_file_present: false });
    assert!(matches!(action_of(&s), Action::StartSurface(SurfaceKind::Setup)));
    s = step(s, Event::Done(Ok(())));
    assert!(matches!(action_of(&s), Action::PlayCue(Cue::Ready)));
    s = step(s, Event::Done(Ok(())));
    assert!(matches!(action_of(&s), Action::AwaitCompletion));
    s = step(s, Event::Completed);
    assert!(matches!(action_of(&s), Action::StopSurface));
    s = step(s, Event::Done(Ok(())));
    assert!(matches!(action_of(&s), Action::KillKiosk));
    // The kiosk browser is already gone: best effort, failure is absorbed.
    s = step(s, Event::KioskKillFinished(Err(ErrorKind::NotFound)));
    assert!(matches!(action_of(&s), Action::RunHook(HookPoint::Post)));
    s = step(s, Event::HookFinished(Ok(())));
    let outcome = match action_of(&s) {
        Action::Halt(o) => o,
        a => panic!("expected halt, got {:?}", a),
    };
    assert!(matches!(outcome, Outcome::Clean));
    let f = coordinate(outcome);
    assert!(f.export_args.is_none());
    assert_eq!(f.effect, Effect::Exit(0));
}

#[test]
fn repair_marker_escalates_and_is_consumed_on_failure() {
    // Identifier file "abc123", repair marker present: import runs with the
    // aggressive strategy and the default secret, and the marker is deleted
    // even though the import attempt fails.
    let mut s = BootState::DetectingMode;
    s = step(s, Event::Evidence { live_marker_present: false, identifier_file_present: true });
    assert!(matches!(action_of(&s), Action::LoadConfig));
    s = step(s, Event::ConfigLoaded(Ok("/embassy-data".to_string())));
    assert!(matches!(action_of(&s), Action::ReadIdentifier));
    s = step(s, Event::IdentifierRead(Ok("abc123\n".to_string())));
    assert!(matches!(action_of(&s), Action::CheckRepairMarker));
    s = step(s, Event::RepairMarkerChecked { present: true });
    match action_of(&s) {
        Action::ImportDisk { identifier, data_dir, strategy, secret } => {
            assert_eq!(identifier, "abc123");
            assert_eq!(data_dir, "/embassy-data");
            assert_eq!(strategy, RepairStrategy::Aggressive);
            assert_eq!(secret.as_deref(), Some("password"));
        }
        a => panic!("expected import, got {:?}", a),
    }
    s = step(s, Event::Imported(Err(ErrorKind::Disk)));
    assert!(matches!(action_of(&s), Action::DeleteRepairMarker));
    s = step(s, Event::Done(Ok(())));
    // The original import error, not the deletion's success, drives what
    // follows: diagnostic recovery starts.
    assert!(matches!(action_of(&s), Action::PlayCue(Cue::Failure)));
}

#[test]
fn repair_marker_is_consumed_on_success_too() {
    let mut s = BootState::DetectingMode;
    s = step(s, Event::Evidence { live_marker_present: false, identifier_file_present: true });
    s = step(s, Event::ConfigLoaded(Ok("/embassy-data".to_string())));
    s = step(s, Event::IdentifierRead(Ok("abc123\n".to_string())));
    s = step(s, Event::RepairMarkerChecked { present: true });
    s = step(s, Event::Imported(Ok(ImportOutcome { requires_reboot: false })));
    assert!(matches!(action_of(&s), Action::DeleteRepairMarker));
    s = step(s, Event::Done(Ok(())));
    assert!(matches!(action_of(&s), Action::InitServices));
}

#[test]
fn unencrypted_identifier_imports_without_secret() {
    // Identifier file "abc123_UNENC": import is invoked with no secret.
    let mut s = BootState::DetectingMode;
    s = step(s, Event::Evidence { live_marker_present: false, identifier_file_present: true });
    s = step(s, Event::ConfigLoaded(Ok("/embassy-data".to_string())));
    s = step(s, Event::IdentifierRead(Ok("abc123_UNENC\n".to_string())));
    s = step(s, Event::RepairMarkerChecked { present: false });
    match action_of(&s) {
        Action::ImportDisk { identifier, strategy, secret, .. } => {
            assert_eq!(identifier, "abc123_UNENC");
            assert_eq!(strategy, RepairStrategy::Preen);
            assert_eq!(secret, None);
        }
        a => panic!("expected import, got {:?}", a),
    }
}

#[test]
fn reboot_requiring_import_exports_first() {
    // An import whose outcome requires a reboot exports the same volume
    // first, then reboots, exactly once.
    let mut s = BootState::DetectingMode;
    s = step(s, Event::Evidence { live_marker_present: false, identifier_file_present: true });
    s = step(s, Event::ConfigLoaded(Ok("/embassy-data".to_string())));
    s = step(s, Event::IdentifierRead(Ok("abc123\n".to_string())));
    s = step(s, Event::RepairMarkerChecked { present: false });
    s = step(s, Event::Imported(Ok(ImportOutcome { requires_reboot: true })));
    match action_of(&s) {
        Action::ExportDisk { identifier, data_dir } => {
            assert_eq!(identifier, "abc123");
            assert_eq!(data_dir, "/embassy-data");
        }
        a => panic!("expected export, got {:?}", a),
    }
    s = step(s, Event::Done(Ok(())));
    assert!(matches!(action_of(&s), Action::Reboot));
    s = step(s, Event::Done(Ok(())));
    assert!(matches!(action_of(&s), Action::RunHook(HookPoint::Post)));
    s = step(s, Event::HookFinished(Ok(())));
    assert!(matches!(action_of(&s), Action::Halt(Outcome::Clean)));
}

#[test]
fn firmware_update_short_circuits_boot() {
    // Firmware reports applied: the run returns a restart directive with no
    // further steps (no mode detection, no disk touch) beyond the post-hook.
    let mut s = BootState::FirmwareGate;
    s = step(s, Event::FirmwareChecked(Ok(true)));
    assert!(matches!(action_of(&s), Action::RunHook(HookPoint::Post)));
    s = step(s, Event::HookFinished(Ok(())));
    let outcome = match action_of(&s) {
        Action::Halt(o) => o,
        a => panic!("expected halt, got {:?}", a),
    };
    let d = match outcome {
        Outcome::Directive(d) => d,
        o => panic!("expected directive, got {:?}", o),
    };
    assert!(d.restart);
    assert!(d.export_args.is_none());
    let f = coordinate(Outcome::Directive(d));
    assert_eq!(f.effect, Effect::Restart);
}

#[test]
fn failed_import_reaches_diagnostics_with_original_error() {
    // A filesystem error during import starts the diagnostic recovery
    // controller carrying that very error, and the operator's directive is
    // returned unchanged by the outer sequence.
    let mut s = BootState::DetectingMode;
    s = step(s, Event::Evidence { live_marker_present: false, identifier_file_present: true });
    s = step(s, Event::ConfigLoaded(Ok("/embassy-data".to_string())));
    s = step(s, Event::IdentifierRead(Ok("abc123\n".to_string())));
    s = step(s, Event::RepairMarkerChecked { present: false });
    s = step(s, Event::Imported(Err(ErrorKind::Filesystem)));
    assert!(matches!(action_of(&s), Action::PlayCue(Cue::Failure)));
    s = step(s, Event::Done(Ok(())));
    assert!(matches!(action_of(&s), Action::ProbeIdentifier));
    s = step(s, Event::IdentifierProbed(Ok(Some("abc123\n".to_string()))));
    match action_of(&s) {
        Action::StartDiagnosticSurface { error, identifier } => {
            assert_eq!(error, ErrorKind::Filesystem);
            assert_eq!(identifier.as_deref(), Some("abc123"));
        }
        a => panic!("expected diagnostic surface, got {:?}", a),
    }
    s = step(s, Event::Done(Ok(())));
    assert!(matches!(action_of(&s), Action::AwaitDirective));
    let directive = ShutdownDirective {
        export_args: Some(ExportArgs {
            identifier: "abc123".to_string(),
            data_dir: "/embassy-data".to_string(),
        }),
        restart: false,
    };
    s = step(s, Event::DirectiveReceived(directive));
    assert!(matches!(action_of(&s), Action::StopSurface));
    s = step(s, Event::Done(Ok(())));
    assert!(matches!(action_of(&s), Action::RunHook(HookPoint::Post)));
    s = step(s, Event::HookFinished(Err(ErrorKind::Subprocess)));
    let outcome = match action_of(&s) {
        Action::Halt(o) => o,
        a => panic!("expected halt, got {:?}", a),
    };
    let d = match outcome {
        Outcome::Directive(d) => d,
        o => panic!("expected the operator directive, got {:?}", o),
    };
    assert!(!d.restart);
    let args = d.export_args.expect("export payload passed through");
    assert_eq!(args.identifier, "abc123");
    assert_eq!(args.data_dir, "/embassy-data");
}

#[test]
fn live_install_path_ends_in_reboot() {
    let mut s = BootState::DetectingMode;
    // The live medium wins even though the identifier file exists.
    s = step(s, Event::Evidence { live_marker_present: true, identifier_file_present: true });
    assert!(matches!(action_of(&s), Action::RelinkPackageManagers));
    s = step(s, Event::Done(Ok(())));
    assert!(matches!(action_of(&s), Action::RegenerateTlsCert));
    s = step(s, Event::Done(Ok(())));
    assert!(matches!(action_of(&s), Action::EnableSshPasswordAuth));
    s = step(s, Event::Done(Ok(())));
    assert!(matches!(action_of(&s), Action::StartSurface(SurfaceKind::Install)));
    s = step(s, Event::Done(Ok(())));
    assert!(matches!(action_of(&s), Action::PlayCue(Cue::Ready)));
    s = step(s, Event::Done(Ok(())));
    assert!(matches!(action_of(&s), Action::AwaitCompletion));
    s = step(s, Event::Completed);
    assert!(matches!(action_of(&s), Action::StopSurface));
    s = step(s, Event::Done(Ok(())));
    assert!(matches!(action_of(&s), Action::Reboot));
    s = step(s, Event::Done(Ok(())));
    assert!(matches!(action_of(&s), Action::RunHook(HookPoint::Post)));
    s = step(s, Event::HookFinished(Ok(())));
    assert!(matches!(action_of(&s), Action::Halt(Outcome::Clean)));
}

#[test]
fn standby_marker_parks_the_machine() {
    let mut s = initial_state();
    s = step(s, Event::StandbyChecked { designated_platform: true, marker_present: true });
    assert!(matches!(action_of(&s), Action::DeleteStandbyMarker));
    s = step(s, Event::Done(Ok(())));
    assert!(matches!(action_of(&s), Action::SyncDisks));
    s = step(s, Event::Done(Ok(())));
    assert!(matches!(action_of(&s), Action::PlayCue(Cue::Shutdown)));
    s = step(s, Event::Done(Ok(())));
    assert!(matches!(action_of(&s), Action::Park));
}

#[test]
fn standby_marker_ignored_off_platform() {
    let mut s = initial_state();
    s = step(s, Event::StandbyChecked { designated_platform: false, marker_present: true });
    assert!(matches!(action_of(&s), Action::PlayCue(Cue::Boot)));
}

#[test]
fn early_cue_failure_skips_recovery_and_hooks() {
    // A failure before the main sequence (here: the boot cue) ends the run
    // directly with the mapped exit code; no diagnostics, no hooks.
    let mut s = initial_state();
    s = step(s, Event::StandbyChecked { designated_platform: false, marker_present: false });
    s = step(s, Event::Done(Err(ErrorKind::Subprocess)));
    let outcome = match action_of(&s) {
        Action::Halt(o) => o,
        a => panic!("expected halt, got {:?}", a),
    };
    assert!(matches!(outcome, Outcome::Fault(ErrorKind::Subprocess)));
    let f = coordinate(outcome);
    assert_eq!(f.effect, Effect::Exit(2));
}

#[test]
fn diagnostic_cue_failure_propagates_uncaught() {
    // If even the failure cue fails, that secondary error leaves the whole
    // sequence; the post-hook still runs.
    let mut s = BootState::DiagAnnouncing { error: ErrorKind::Disk };
    s = step(s, Event::Done(Err(ErrorKind::Unknown)));
    assert!(matches!(action_of(&s), Action::RunHook(HookPoint::Post)));
    s = step(s, Event::HookFinished(Ok(())));
    let outcome = match action_of(&s) {
        Action::Halt(o) => o,
        a => panic!("expected halt, got {:?}", a),
    };
    assert!(matches!(outcome, Outcome::Fault(ErrorKind::Unknown)));
}

#[test]
fn identifier_absent_during_diagnostics_is_tolerated() {
    let mut s = BootState::DiagAnnouncing { error: ErrorKind::Tls };
    s = step(s, Event::Done(Ok(())));
    s = step(s, Event::IdentifierProbed(Ok(None)));
    match action_of(&s) {
        Action::StartDiagnosticSurface { error, identifier } => {
            assert_eq!(error, ErrorKind::Tls);
            assert_eq!(identifier, None);
        }
        a => panic!("expected diagnostic surface, got {:?}", a),
    }
}
