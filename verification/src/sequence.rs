//! The boot sequence as an explicit state machine.
//!
//! Every boot is one run of this machine.  The machine never performs a side
//! effect itself: each state designates one [`Action`] for the driver to
//! perform (probe a marker file, run the firmware update, import the data
//! volume, start a web surface, ...), and the driver reports what happened
//! as an [`Event`].  [`step`] then decides the next state.  The driver loops
//! until it reaches a state whose action is [`Action::Halt`] (hand the
//! outcome to the shutdown coordinator) or [`Action::Park`] (suspend
//! forever: the device is powering off).
//!
//! Control flow: standby guard, pre-hook, firmware gate, mode detection, the
//! selected mode runner (live-install, setup, or volume import), on any
//! fatal error the diagnostic recovery controller, then the post-hook and
//! one final outcome.

use vstd::prelude::*;
use crate::disk::{
    default_secret,
    ends_with_unenc,
    resolve_repair_strategy,
    resolve_secret,
    spec_strategy,
    spec_trim,
    trim_token,
    ImportOutcome,
    RepairStrategy,
};
use crate::error::ErrorKind;
use crate::mode::{detect_mode, BootMode};
use crate::shutdown::{Outcome, ShutdownDirective};

verus! {

/// The audible cues the appliance can play.
#[derive(Clone, Copy, Debug, PartialEq, Eq, Structural)]
pub enum Cue {
    /// Boot has begun.
    Boot,
    /// A mode's web surface is up and ready for the operator.
    Ready,
    /// Boot failed; diagnostic recovery is starting.
    Failure,
    /// The device is powering down.
    Shutdown,
}

/// The two points at which the optional operator shell hooks run.
#[derive(Clone, Copy, Debug, PartialEq, Eq, Structural)]
pub enum HookPoint {
    /// Before the main sequence.
    Pre,
    /// After the main sequence, whether it succeeded or failed.
    Post,
}

/// The web surfaces without a dedicated payload (the diagnostic surface
/// carries one and has its own action).
#[derive(Clone, Copy, Debug, PartialEq, Eq, Structural)]
pub enum SurfaceKind {
    Install,
    Setup,
}

/// What the driver must do next.  Exactly one action is pending per
/// non-final state; the driver performs it and feeds the result back as an
/// [`Event`].
#[derive(Debug)]
#[allow(inconsistent_fields)]
pub enum Action {
    /// Probe whether this is the designated hardware platform and whether
    /// the standby-mode marker file exists.
    CheckStandby,
    /// Delete the standby-mode marker file.
    DeleteStandbyMarker,
    /// Force a filesystem sync.
    SyncDisks,
    /// Play an audible cue (for [`Cue::Ready`]: after the fixed settle
    /// delay).
    PlayCue(Cue),
    /// Suspend forever: the device is physically powering off.
    Park,
    /// Run the operator shell hook at the given point, best effort.
    RunHook(HookPoint),
    /// Invoke the external firmware-update check/apply routine.
    RunFirmwareUpdate,
    /// Probe the live-install-medium marker and the volume-identifier file.
    GatherEvidence,
    /// Relink the package-manager command names to a no-op shim.
    RelinkPackageManagers,
    /// Regenerate the self-signed TLS certificate.
    RegenerateTlsCert,
    /// Enable SSH password authentication and reload the SSH service.
    EnableSshPasswordAuth,
    /// Start the given mode's web surface on port 80, all interfaces.
    StartSurface(SurfaceKind),
    /// Start the diagnostic web surface, carrying the original error and
    /// the volume identifier if one could be read.
    StartDiagnosticSurface { error: ErrorKind, identifier: Option<String> },
    /// Block until the active web surface signals completion.
    AwaitCompletion,
    /// Block until the diagnostic surface signals a shutdown directive.
    AwaitDirective,
    /// Tear the active web surface down, draining in-flight work.
    StopSurface,
    /// Reboot the machine.
    Reboot,
    /// Load the appliance configuration; report its data directory.
    LoadConfig,
    /// Read the volume-identifier file.
    ReadIdentifier,
    /// Probe whether the repair-request marker file exists.
    CheckRepairMarker,
    /// Import the data volume.
    ImportDisk {
        identifier: String,
        data_dir: String,
        strategy: RepairStrategy,
        secret: Option<String>,
    },
    /// Delete the repair-request marker file.
    DeleteRepairMarker,
    /// Export (unmount, flush) the data volume.
    ExportDisk { identifier: String, data_dir: String },
    /// Hand control to the main service runtime.
    InitServices,
    /// Terminate the kiosk browser process, best effort.
    KillKiosk,
    /// Best-effort probe of the volume-identifier file: absent is not an
    /// error here.
    ProbeIdentifier,
    /// The run is over; hand the outcome to the shutdown coordinator.
    Halt(Outcome),
}

/// What the driver reports back after performing the pending action.
#[derive(Debug)]
pub enum Event {
    /// Outcome of [`Action::CheckStandby`].
    StandbyChecked { designated_platform: bool, marker_present: bool },
    /// Outcome of a plain fallible action (delete, sync, cue, command,
    /// surface start, surface stop, reboot, export, service handoff).
    Done(Result<(), ErrorKind>),
    /// Outcome of [`Action::RunHook`]; the machine ignores it (best
    /// effort), the driver only logs it.
    HookFinished(Result<(), ErrorKind>),
    /// Outcome of [`Action::RunFirmwareUpdate`]: whether an update was
    /// applied.
    FirmwareChecked(Result<bool, ErrorKind>),
    /// Outcome of [`Action::GatherEvidence`].
    Evidence { live_marker_present: bool, identifier_file_present: bool },
    /// Outcome of [`Action::LoadConfig`]: the data directory.
    ConfigLoaded(Result<String, ErrorKind>),
    /// Outcome of [`Action::ReadIdentifier`]: the raw file content.
    IdentifierRead(Result<String, ErrorKind>),
    /// Outcome of [`Action::CheckRepairMarker`].
    RepairMarkerChecked { present: bool },
    /// Outcome of [`Action::ImportDisk`].
    Imported(Result<ImportOutcome, ErrorKind>),
    /// Outcome of [`Action::KillKiosk`]; the machine ignores it (best
    /// effort), the driver only logs it.
    KioskKillFinished(Result<(), ErrorKind>),
    /// Outcome of [`Action::ProbeIdentifier`]: the raw content if the file
    /// exists, `None` if it does not, an error only if it exists but could
    /// not be read.
    IdentifierProbed(Result<Option<String>, ErrorKind>),
    /// The active install or setup surface signalled completion.
    Completed,
    /// The diagnostic surface signalled a shutdown directive.
    DirectiveReceived(ShutdownDirective),
}

/// The states of one boot run.  States carry exactly the data that later
/// steps still need.
#[derive(Debug)]
#[allow(inconsistent_fields)]
pub enum BootState {
    /// Checking the standby guard.
    StandbyProbe,
    /// Standby: deleting the standby marker.
    StandbyClearing,
    /// Standby: syncing filesystems.
    StandbySyncing,
    /// Standby: playing the powering-down cue.
    StandbyAnnouncing,
    /// Standby: suspended forever; the run never proceeds.
    Parked,
    /// Playing the boot cue.
    Announcing,
    /// Running the pre-boot hook.
    RunningPreHook,
    /// Running the firmware-update gate.
    FirmwareGate,
    /// Gathering mode evidence.
    DetectingMode,
    /// Live install: relinking package managers.
    InstallRelinking,
    /// Live install: regenerating the TLS certificate.
    InstallCert,
    /// Live install: enabling SSH password authentication.
    InstallSshEnable,
    /// Live install: starting the install surface.
    InstallStartingSurface,
    /// Live install: playing the ready cue.
    InstallAnnouncingReady,
    /// Live install: waiting for the install flow to complete.
    InstallWaiting,
    /// Live install: tearing the surface down.
    InstallStoppingSurface,
    /// Live install: rebooting unconditionally.
    InstallRebooting,
    /// Setup: starting the setup surface.
    SetupStartingSurface,
    /// Setup: playing the ready cue.
    SetupAnnouncingReady,
    /// Setup: waiting for the setup flow to complete.
    SetupWaiting,
    /// Setup: tearing the surface down.
    SetupStoppingSurface,
    /// Setup: best-effort kiosk-browser termination.
    SetupKioskKill,
    /// Import: loading the configuration.
    LoadingConfig,
    /// Import: reading the volume-identifier file.
    ReadingIdentifier { data_dir: String },
    /// Import: probing the repair-request marker.
    CheckingRepairMarker { data_dir: String, identifier: String },
    /// Import: the import call is in flight; `repair_marker` records
    /// whether the repair-request marker was present.
    Importing { data_dir: String, identifier: String, repair_marker: bool },
    /// Import: consuming the repair-request marker, whatever the import
    /// attempt returned.
    ClearingRepairMarker {
        data_dir: String,
        identifier: String,
        imported: Result<ImportOutcome, ErrorKind>,
    },
    /// Import: the outcome requires a reboot; exporting the volume first.
    Exporting { data_dir: String, identifier: String },
    /// Import: the volume is exported; rebooting.
    RebootingAfterExport,
    /// Import: handing control to the service runtime.
    StartingServices,
    /// Diagnostic: playing the failure cue.
    DiagAnnouncing { error: ErrorKind },
    /// Diagnostic: best-effort read of the volume identifier.
    DiagReadingIdentifier { error: ErrorKind },
    /// Diagnostic: starting the diagnostic surface.
    DiagStartingSurface { error: ErrorKind, identifier: Option<String> },
    /// Diagnostic: waiting for the operator's shutdown directive.
    DiagWaiting,
    /// Diagnostic: tearing the surface down, keeping the directive.
    DiagStoppingSurface { directive: ShutdownDirective },
    /// Running the post-boot hook; `result` is how the main sequence ended.
    RunningPostHook { result: Result<Option<ShutdownDirective>, ErrorKind> },
    /// The run is over.
    Finished { outcome: Outcome },
}

/// How the main sequence's result folds into the run's outcome.
pub open spec fn spec_outcome_of(r: Result<Option<ShutdownDirective>, ErrorKind>) -> Outcome {
    match r {
        Result::Ok(Option::Some(d)) => Outcome::Directive(d),
        Result::Ok(Option::None) => Outcome::Clean,
        Result::Err(k) => Outcome::Fault(k),
    }
}

fn outcome_of(r: Result<Option<ShutdownDirective>, ErrorKind>) -> (o: Outcome)
    ensures
        o == spec_outcome_of(r),
{
    match r {
        Result::Ok(Option::Some(d)) => Outcome::Directive(d),
        Result::Ok(Option::None) => Outcome::Clean,
        Result::Err(k) => Outcome::Fault(k),
    }
}

/// What follows a finished import attempt (after the repair marker, if any,
/// was consumed): a reboot-requiring outcome exports first, a plain success
/// hands over to the services, a failure enters diagnostic recovery.
pub open spec fn import_follow_up(
    data_dir: String,
    identifier: String,
    r: Result<ImportOutcome, ErrorKind>,
    n: BootState,
) -> bool {
    match r {
        Result::Ok(o) => if o.requires_reboot {
            n matches BootState::Exporting { data_dir: dd, identifier: id } && dd == data_dir
                && id == identifier
        } else {
            n == BootState::StartingServices
        },
        Result::Err(k) => n == (BootState::DiagAnnouncing { error: k }),
    }
}

fn follow_import(data_dir: String, identifier: String, r: Result<ImportOutcome, ErrorKind>) -> (n:
    BootState)
    ensures
        import_follow_up(data_dir, identifier, r, n),
{
    match r {
        Result::Ok(o) => if o.requires_reboot {
            BootState::Exporting { data_dir, identifier }
        } else {
            BootState::StartingServices
        },
        Result::Err(k) => BootState::DiagAnnouncing { error: k },
    }
}

/// The transition relation of the boot machine: from state `s`, on event
/// `e`, the machine may move to `n`.  [`step`] realises this relation; it
/// pins `n` up to the content of freshly computed strings.  An event that
/// the current state does not await leaves the state unchanged (the pending
/// action is simply re-issued).
pub open spec fn next_of(s: BootState, e: Event, n: BootState) -> bool {
    match s {
        BootState::StandbyProbe => match e {
            Event::StandbyChecked { designated_platform, marker_present } => if designated_platform
                && marker_present {
                n == BootState::StandbyClearing
            } else {
                n == BootState::Announcing
            },
            _ => n == s,
        },
        BootState::StandbyClearing => match e {
            Event::Done(r) => match r {
                Result::Ok(_) => n == BootState::StandbySyncing,
                Result::Err(k) => n == (BootState::Finished { outcome: Outcome::Fault(k) }),
            },
            _ => n == s,
        },
        BootState::StandbySyncing => match e {
            Event::Done(r) => match r {
                Result::Ok(_) => n == BootState::StandbyAnnouncing,
                Result::Err(k) => n == (BootState::Finished { outcome: Outcome::Fault(k) }),
            },
            _ => n == s,
        },
        BootState::StandbyAnnouncing => match e {
            Event::Done(r) => match r {
                Result::Ok(_) => n == BootState::Parked,
                Result::Err(k) => n == (BootState::Finished { outcome: Outcome::Fault(k) }),
            },
            _ => n == s,
        },
        BootState::Parked => n == s,
        BootState::Announcing => match e {
            Event::Done(r) => match r {
                Result::Ok(_) => n == BootState::RunningPreHook,
                Result::Err(k) => n == (BootState::Finished { outcome: Outcome::Fault(k) }),
            },
            _ => n == s,
        },
        BootState::RunningPreHook => match e {
            Event::HookFinished(_) => n == BootState::FirmwareGate,
            _ => n == s,
        },
        BootState::FirmwareGate => match e {
            Event::FirmwareChecked(r) => match r {
                Result::Ok(applied) => if applied {
                    n == (BootState::RunningPostHook {
                        result: Result::Ok(
                            Option::Some(
                                ShutdownDirective { export_args: Option::None, restart: true },
                            ),
                        ),
                    })
                } else {
                    n == BootState::DetectingMode
                },
                Result::Err(k) => n == (BootState::DiagAnnouncing { error: k }),
            },
            _ => n == s,
        },
        BootState::DetectingMode => match e {
            Event::Evidence { live_marker_present, identifier_file_present } => match crate::mode::spec_detect(
                live_marker_present,
                identifier_file_present,
            ) {
                BootMode::LiveInstall => n == BootState::InstallRelinking,
                BootMode::NeedsSetup => n == BootState::SetupStartingSurface,
                BootMode::ReadyToImport => n == BootState::LoadingConfig,
            },
            _ => n == s,
        },
        BootState::InstallRelinking => match e {
            Event::Done(r) => match r {
                Result::Ok(_) => n == BootState::InstallCert,
                Result::Err(k) => n == (BootState::DiagAnnouncing { error: k }),
            },
            _ => n == s,
        },
        BootState::InstallCert => match e {
            Event::Done(r) => match r {
                Result::Ok(_) => n == BootState::InstallSshEnable,
                Result::Err(k) => n == (BootState::DiagAnnouncing { error: k }),
            },
            _ => n == s,
        },
        BootState::InstallSshEnable => match e {
            Event::Done(r) => match r {
                Result::Ok(_) => n == BootState::InstallStartingSurface,
                Result::Err(k) => n == (BootState::DiagAnnouncing { error: k }),
            },
            _ => n == s,
        },
        BootState::InstallStartingSurface => match e {
            Event::Done(r) => match r {
                Result::Ok(_) => n == BootState::InstallAnnouncingReady,
                Result::Err(k) => n == (BootState::DiagAnnouncing { error: k }),
            },
            _ => n == s,
        },
        BootState::InstallAnnouncingReady => match e {
            Event::Done(r) => match r {
                Result::Ok(_) => n == BootState::InstallWaiting,
                Result::Err(k) => n == (BootState::DiagAnnouncing { error: k }),
            },
            _ => n == s,
        },
        BootState::InstallWaiting => match e {
            Event::Completed => n == BootState::InstallStoppingSurface,
            _ => n == s,
        },
        BootState::InstallStoppingSurface => match e {
            Event::Done(r) => match r {
                Result::Ok(_) => n == BootState::InstallRebooting,
                Result::Err(k) => n == (BootState::DiagAnnouncing { error: k }),
            },
            _ => n == s,
        },
        BootState::InstallRebooting => match e {
            Event::Done(r) => match r {
                Result::Ok(_) => n == (BootState::RunningPostHook {
                    result: Result::Ok(Option::None),
                }),
                Result::Err(k) => n == (BootState::DiagAnnouncing { error: k }),
            },
            _ => n == s,
        },
        BootState::SetupStartingSurface => match e {
            Event::Done(r) => match r {
                Result::Ok(_) => n == BootState::SetupAnnouncingReady,
                Result::Err(k) => n == (BootState::DiagAnnouncing { error: k }),
            },
            _ => n == s,
        },
        BootState::SetupAnnouncingReady => match e {
            Event::Done(r) => match r {
                Result::Ok(_) => n == BootState::SetupWaiting,
                Result::Err(k) => n == (BootState::DiagAnnouncing { error: k }),
            },
            _ => n == s,
        },
        BootState::SetupWaiting => match e {
            Event::Completed => n == BootState::SetupStoppingSurface,
            _ => n == s,
        },
        BootState::SetupStoppingSurface => match e {
            Event::Done(r) => match r {
                Result::Ok(_) => n == BootState::SetupKioskKill,
                Result::Err(k) => n == (BootState::DiagAnnouncing { error: k }),
            },
            _ => n == s,
        },
        BootState::SetupKioskKill => match e {
            Event::KioskKillFinished(_) => n == (BootState::RunningPostHook {
                result: Result::Ok(Option::None),
            }),
            _ => n == s,
        },
        BootState::LoadingConfig => match e {
            Event::ConfigLoaded(r) => match r {
                Result::Ok(dd) => n matches BootState::ReadingIdentifier { data_dir } && data_dir
                    == dd,
                Result::Err(k) => n == (BootState::DiagAnnouncing { error: k }),
            },
            _ => n == s,
        },
        BootState::ReadingIdentifier { data_dir } => match e {
            Event::IdentifierRead(r) => match r {
                Result::Ok(raw) => n matches BootState::CheckingRepairMarker {
                    data_dir: dd,
                    identifier,
                } && dd == data_dir && identifier@ == spec_trim(raw@),
                Result::Err(k) => n == (BootState::DiagAnnouncing { error: k }),
            },
            _ => n == s,
        },
        BootState::CheckingRepairMarker { data_dir, identifier } => match e {
            Event::RepairMarkerChecked { present } => n matches BootState::Importing {
                data_dir: dd,
                identifier: id,
                repair_marker,
            } && dd == data_dir && id == identifier && repair_marker == present,
            _ => n == s,
        },
        BootState::Importing { data_dir, identifier, repair_marker } => match e {
            Event::Imported(r) => if repair_marker {
                n matches BootState::ClearingRepairMarker {
                    data_dir: dd,
                    identifier: id,
                    imported,
                } && dd == data_dir && id == identifier && imported == r
            } else {
                import_follow_up(data_dir, identifier, r, n)
            },
            _ => n == s,
        },
        BootState::ClearingRepairMarker { data_dir, identifier, imported } => match e {
            Event::Done(del) => match imported {
                Result::Err(k) => n == (BootState::DiagAnnouncing { error: k }),
                Result::Ok(_) => match del {
                    Result::Err(k2) => n == (BootState::DiagAnnouncing { error: k2 }),
                    Result::Ok(_) => import_follow_up(data_dir, identifier, imported, n),
                },
            },
            _ => n == s,
        },
        BootState::Exporting { data_dir, identifier } => match e {
            Event::Done(r) => match r {
                Result::Ok(_) => n == BootState::RebootingAfterExport,
                Result::Err(k) => n == (BootState::DiagAnnouncing { error: k }),
            },
            _ => n == s,
        },
        BootState::RebootingAfterExport => match e {
            Event::Done(r) => match r {
                Result::Ok(_) => n == (BootState::RunningPostHook {
                    result: Result::Ok(Option::None),
                }),
                Result::Err(k) => n == (BootState::DiagAnnouncing { error: k }),
            },
            _ => n == s,
        },
        BootState::StartingServices => match e {
            Event::Done(r) => match r {
                Result::Ok(_) => n == (BootState::RunningPostHook {
                    result: Result::Ok(Option::None),
                }),
                Result::Err(k) => n == (BootState::DiagAnnouncing { error: k }),
            },
            _ => n == s,
        },
        BootState::DiagAnnouncing { error } => match e {
            Event::Done(r) => match r {
                Result::Ok(_) => n == (BootState::DiagReadingIdentifier { error }),
                Result::Err(k2) => n == (BootState::RunningPostHook { result: Result::Err(k2) }),
            },
            _ => n == s,
        },
        BootState::DiagReadingIdentifier { error } => match e {
            Event::IdentifierProbed(r) => match r {
                Result::Ok(Option::Some(raw)) => {
                    &&& n matches BootState::DiagStartingSurface { error: err, identifier }
                    &&& err == error
                    &&& identifier matches Option::Some(id)
                    &&& id@ == spec_trim(raw@)
                },
                Result::Ok(Option::None) => n == (BootState::DiagStartingSurface {
                    error,
                    identifier: Option::None,
                }),
                Result::Err(k2) => n == (BootState::RunningPostHook { result: Result::Err(k2) }),
            },
            _ => n == s,
        },
        BootState::DiagStartingSurface { error, identifier } => match e {
            Event::Done(r) => match r {
                Result::Ok(_) => n == BootState::DiagWaiting,
                Result::Err(k2) => n == (BootState::RunningPostHook { result: Result::Err(k2) }),
            },
            _ => n == s,
        },
        BootState::DiagWaiting => match e {
            Event::DirectiveReceived(d) => n == (BootState::DiagStoppingSurface { directive: d }),
            _ => n == s,
        },
        BootState::DiagStoppingSurface { directive } => match e {
            Event::Done(r) => match r {
                Result::Ok(_) => n == (BootState::RunningPostHook {
                    result: Result::Ok(Option::Some(directive)),
                }),
                Result::Err(k2) => n == (BootState::RunningPostHook { result: Result::Err(k2) }),
            },
            _ => n == s,
        },
        BootState::RunningPostHook { result } => match e {
            Event::HookFinished(_) => n == (BootState::Finished {
                outcome: spec_outcome_of(result),
            }),
            _ => n == s,
        },
        BootState::Finished { outcome } => n == s,
    }
}

/// The state a fresh boot run starts in.
pub fn initial_state() -> (s: BootState)
    ensures
        s == BootState::StandbyProbe,
{
    BootState::StandbyProbe
}

/// Advances the machine by one transition.
pub fn step(s: BootState, e: Event) -> (n: BootState)
    ensures
        next_of(s, e, n),
{
    match s {
        BootState::StandbyProbe => match e {
            Event::StandbyChecked { designated_platform, marker_present } => if designated_platform
                && marker_present {
                BootState::StandbyClearing
            } else {
                BootState::Announcing
            },
            _ => BootState::StandbyProbe,
        },
        BootState::StandbyClearing => match e {
            Event::Done(r) => match r {
                Result::Ok(_) => BootState::StandbySyncing,
                Result::Err(k) => BootState::Finished { outcome: Outcome::Fault(k) },
            },
            _ => BootState::StandbyClearing,
        },
        BootState::StandbySyncing => match e {
            Event::Done(r) => match r {
                Result::Ok(_) => BootState::StandbyAnnouncing,
                Result::Err(k) => BootState::Finished { outcome: Outcome::Fault(k) },
            },
            _ => BootState::StandbySyncing,
        },
        BootState::StandbyAnnouncing => match e {
            Event::Done(r) => match r {
                Result::Ok(_) => BootState::Parked,
                Result::Err(k) => BootState::Finished { outcome: Outcome::Fault(k) },
            },
            _ => BootState::StandbyAnnouncing,
        },
        BootState::Parked => BootState::Parked,
        BootState::Announcing => match e {
            Event::Done(r) => match r {
                Result::Ok(_) => BootState::RunningPreHook,
                Result::Err(k) => BootState::Finished { outcome: Outcome::Fault(k) },
            },
            _ => BootState::Announcing,
        },
        BootState::RunningPreHook => match e {
            Event::HookFinished(_) => BootState::FirmwareGate,
            _ => BootState::RunningPreHook,
        },
        BootState::FirmwareGate => match e {
            Event::FirmwareChecked(r) => match r {
                Result::Ok(applied) => if applied {
                    BootState::RunningPostHook {
                        result: Result::Ok(
                            Option::Some(
                                ShutdownDirective { export_args: Option::None, restart: true },
                            ),
                        ),
                    }
                } else {
                    BootState::DetectingMode
                },
                Result::Err(k) => BootState::DiagAnnouncing { error: k },
            },
            _ => BootState::FirmwareGate,
        },
        BootState::DetectingMode => match e {
            Event::Evidence { live_marker_present, identifier_file_present } => match detect_mode(
                live_marker_present,
                identifier_file_present,
            ) {
                BootMode::LiveInstall => BootState::InstallRelinking,
                BootMode::NeedsSetup => BootState::SetupStartingSurface,
                BootMode::ReadyToImport => BootState::LoadingConfig,
            },
            _ => BootState::DetectingMode,
        },
        BootState::InstallRelinking => match e {
            Event::Done(r) => match r {
                Result::Ok(_) => BootState::InstallCert,
                Result::Err(k) => BootState::DiagAnnouncing { error: k },
            },
            _ => BootState::InstallRelinking,
        },
        BootState::InstallCert => match e {
            Event::Done(r) => match r {
                Result::Ok(_) => BootState::InstallSshEnable,
                Result::Err(k) => BootState::DiagAnnouncing { error: k },
            },
            _ => BootState::InstallCert,
        },
        BootState::InstallSshEnable => match e {
            Event::Done(r) => match r {
                Result::Ok(_) => BootState::InstallStartingSurface,
                Result::Err(k) => BootState::DiagAnnouncing { error: k },
            },
            _ => BootState::InstallSshEnable,
        },
        BootState::InstallStartingSurface => match e {
            Event::Done(r) => match r {
                Result::Ok(_) => BootState::InstallAnnouncingReady,
                Result::Err(k) => BootState::DiagAnnouncing { error: k },
            },
            _ => BootState::InstallStartingSurface,
        },
        BootState::InstallAnnouncingReady => match e {
            Event::Done(r) => match r {
                Result::Ok(_) => BootState::InstallWaiting,
                Result::Err(k) => BootState::DiagAnnouncing { error: k },
            },
            _ => BootState::InstallAnnouncingReady,
        },
        BootState::InstallWaiting => match e {
            Event::Completed => BootState::InstallStoppingSurface,
            _ => BootState::InstallWaiting,
        },
        BootState::InstallStoppingSurface => match e {
            Event::Done(r) => match r {
                Result::Ok(_) => BootState::InstallRebooting,
                Result::Err(k) => BootState::DiagAnnouncing { error: k },
            },
            _ => BootState::InstallStoppingSurface,
        },
        BootState::InstallRebooting => match e {
            Event::Done(r) => match r {
                Result::Ok(_) => BootState::RunningPostHook { result: Result::Ok(Option::None) },
                Result::Err(k) => BootState::DiagAnnouncing { error: k },
            },
            _ => BootState::InstallRebooting,
        },
        BootState::SetupStartingSurface => match e {
            Event::Done(r) => match r {
                Result::Ok(_) => BootState::SetupAnnouncingReady,
                Result::Err(k) => BootState::DiagAnnouncing { error: k },
            },
            _ => BootState::SetupStartingSurface,
        },
        BootState::SetupAnnouncingReady => match e {
            Event::Done(r) => match r {
                Result::Ok(_) => BootState::SetupWaiting,
                Result::Err(k) => BootState::DiagAnnouncing { error: k },
            },
            _ => BootState::SetupAnnouncingReady,
        },
        BootState::SetupWaiting => match e {
            Event::Completed => BootState::SetupStoppingSurface,
            _ => BootState::SetupWaiting,
        },
        BootState::SetupStoppingSurface => match e {
            Event::Done(r) => match r {
                Result::Ok(_) => BootState::SetupKioskKill,
                Result::Err(k) => BootState::DiagAnnouncing { error: k },
            },
            _ => BootState::SetupStoppingSurface,
        },
        BootState::SetupKioskKill => match e {
            Event::KioskKillFinished(_) => BootState::RunningPostHook {
                result: Result::Ok(Option::None),
            },
            _ => BootState::SetupKioskKill,
        },
        BootState::LoadingConfig => match e {
            Event::ConfigLoaded(r) => match r {
                Result::Ok(dd) => BootState::ReadingIdentifier { data_dir: dd },
                Result::Err(k) => BootState::DiagAnnouncing { error: k },
            },
            _ => BootState::LoadingConfig,
        },
        BootState::ReadingIdentifier { data_dir } => match e {
            Event::IdentifierRead(r) => match r {
                Result::Ok(raw) => BootState::CheckingRepairMarker {
                    data_dir,
                    identifier: trim_token(raw.as_str()),
                },
                Result::Err(k) => BootState::DiagAnnouncing { error: k },
            },
            _ => BootState::ReadingIdentifier { data_dir },
        },
        BootState::CheckingRepairMarker { data_dir, identifier } => match e {
            Event::RepairMarkerChecked { present } => BootState::Importing {
                data_dir,
                identifier,
                repair_marker: present,
            },
            _ => BootState::CheckingRepairMarker { data_dir, identifier },
        },
        BootState::Importing { data_dir, identifier, repair_marker } => match e {
            Event::Imported(r) => if repair_marker {
                BootState::ClearingRepairMarker { data_dir, identifier, imported: r }
            } else {
                follow_import(data_dir, identifier, r)
            },
            _ => BootState::Importing { data_dir, identifier, repair_marker },
        },
        BootState::ClearingRepairMarker { data_dir, identifier, imported } => match e {
            Event::Done(del) => match imported {
                Result::Err(k) => BootState::DiagAnnouncing { error: k },
                Result::Ok(o) => match del {
                    Result::Err(k2) => BootState::DiagAnnouncing { error: k2 },
                    Result::Ok(_) => follow_import(data_dir, identifier, Result::Ok(o)),
                },
            },
            _ => BootState::ClearingRepairMarker { data_dir, identifier, imported },
        },
        BootState::Exporting { data_dir, identifier } => match e {
            Event::Done(r) => match r {
                Result::Ok(_) => BootState::RebootingAfterExport,
                Result::Err(k) => BootState::DiagAnnouncing { error: k },
            },
            _ => BootState::Exporting { data_dir, identifier },
        },
        BootState::RebootingAfterExport => match e {
            Event::Done(r) => match r {
                Result::Ok(_) => BootState::RunningPostHook { result: Result::Ok(Option::None) },
                Result::Err(k) => BootState::DiagAnnouncing { error: k },
            },
            _ => BootState::RebootingAfterExport,
        },
        BootState::StartingServices => match e {
            Event::Done(r) => match r {
                Result::Ok(_) => BootState::RunningPostHook { result: Result::Ok(Option::None) },
                Result::Err(k) => BootState::DiagAnnouncing { error: k },
            },
            _ => BootState::StartingServices,
        },
        BootState::DiagAnnouncing { error } => match e {
            Event::Done(r) => match r {
                Result::Ok(_) => BootState::DiagReadingIdentifier { error },
                Result::Err(k2) => BootState::RunningPostHook { result: Result::Err(k2) },
            },
            _ => BootState::DiagAnnouncing { error },
        },
        BootState::DiagReadingIdentifier { error } => match e {
            Event::IdentifierProbed(r) => match r {
                Result::Ok(Option::Some(raw)) => BootState::DiagStartingSurface {
                    error,
                    identifier: Option::Some(trim_token(raw.as_str())),
                },
                Result::Ok(Option::None) => BootState::DiagStartingSurface {
                    error,
                    identifier: Option::None,
                },
                Result::Err(k2) => BootState::RunningPostHook { result: Result::Err(k2) },
            },
            _ => BootState::DiagReadingIdentifier { error },
        },
        BootState::DiagStartingSurface { error, identifier } => match e {
            Event::Done(r) => match r {
                Result::Ok(_) => BootState::DiagWaiting,
                Result::Err(k2) => BootState::RunningPostHook { result: Result::Err(k2) },
            },
            _ => BootState::DiagStartingSurface { error, identifier },
        },
        BootState::DiagWaiting => match e {
            Event::DirectiveReceived(d) => BootState::DiagStoppingSurface { directive: d },
            _ => BootState::DiagWaiting,
        },
        BootState::DiagStoppingSurface { directive } => match e {
            Event::Done(r) => match r {
                Result::Ok(_) => BootState::RunningPostHook {
                    result: Result::Ok(Option::Some(directive)),
                },
                Result::Err(k2) => BootState::RunningPostHook { result: Result::Err(k2) },
            },
            _ => BootState::DiagStoppingSurface { directive },
        },
        BootState::RunningPostHook { result } => match e {
            Event::HookFinished(_) => BootState::Finished { outcome: outcome_of(result) },
            _ => BootState::RunningPostHook { result },
        },
        BootState::Finished { outcome } => BootState::Finished { outcome },
    }
}

fn clone_opt_string(o: &Option<String>) -> (r: Option<String>)
    ensures
        r == *o,
{
    match o {
        Option::Some(s) => Option::Some(s.clone()),
        Option::None => Option::None,
    }
}

/// The one action pending in state `s`: what the driver must perform before
/// the machine can move on.  [`action_of`] realises this relation.
pub open spec fn action_spec(s: BootState, a: Action) -> bool {
    match s {
        BootState::StandbyProbe => a == Action::CheckStandby,
        BootState::StandbyClearing => a == Action::DeleteStandbyMarker,
        BootState::StandbySyncing => a == Action::SyncDisks,
        BootState::StandbyAnnouncing => a == Action::PlayCue(Cue::Shutdown),
        BootState::Parked => a == Action::Park,
        BootState::Announcing => a == Action::PlayCue(Cue::Boot),
        BootState::RunningPreHook => a == Action::RunHook(HookPoint::Pre),
        BootState::FirmwareGate => a == Action::RunFirmwareUpdate,
        BootState::DetectingMode => a == Action::GatherEvidence,
        BootState::InstallRelinking => a == Action::RelinkPackageManagers,
        BootState::InstallCert => a == Action::RegenerateTlsCert,
        BootState::InstallSshEnable => a == Action::EnableSshPasswordAuth,
        BootState::InstallStartingSurface => a == Action::StartSurface(SurfaceKind::Install),
        BootState::InstallAnnouncingReady => a == Action::PlayCue(Cue::Ready),
        BootState::InstallWaiting => a == Action::AwaitCompletion,
        BootState::InstallStoppingSurface => a == Action::StopSurface,
        BootState::InstallRebooting => a == Action::Reboot,
        BootState::SetupStartingSurface => a == Action::StartSurface(SurfaceKind::Setup),
        BootState::SetupAnnouncingReady => a == Action::PlayCue(Cue::Ready),
        BootState::SetupWaiting => a == Action::AwaitCompletion,
        BootState::SetupStoppingSurface => a == Action::StopSurface,
        BootState::SetupKioskKill => a == Action::KillKiosk,
        BootState::LoadingConfig => a == Action::LoadConfig,
        BootState::ReadingIdentifier { data_dir } => a == Action::ReadIdentifier,
        BootState::CheckingRepairMarker { data_dir, identifier } => a == Action::CheckRepairMarker,
        BootState::Importing { data_dir, identifier, repair_marker } => {
            &&& a matches Action::ImportDisk {
                identifier: id,
                data_dir: dd,
                strategy,
                secret,
            }
            &&& id == identifier
            &&& dd == data_dir
            &&& strategy == spec_strategy(repair_marker)
            &&& secret is Some <==> !ends_with_unenc(identifier@)
            &&& (secret matches Option::Some(p) ==> p@ == default_secret())
        },
        BootState::ClearingRepairMarker { data_dir, identifier, imported } => a
            == Action::DeleteRepairMarker,
        BootState::Exporting { data_dir, identifier } => {
            &&& a matches Action::ExportDisk { identifier: id, data_dir: dd }
            &&& id == identifier
            &&& dd == data_dir
        },
        BootState::RebootingAfterExport => a == Action::Reboot,
        BootState::StartingServices => a == Action::InitServices,
        BootState::DiagAnnouncing { error } => a == Action::PlayCue(Cue::Failure),
        BootState::DiagReadingIdentifier { error } => a == Action::ProbeIdentifier,
        BootState::DiagStartingSurface { error, identifier } => a
            == (Action::StartDiagnosticSurface { error, identifier }),
        BootState::DiagWaiting => a == Action::AwaitDirective,
        BootState::DiagStoppingSurface { directive } => a == Action::StopSurface,
        BootState::RunningPostHook { result } => a == Action::RunHook(HookPoint::Post),
        BootState::Finished { outcome } => a == Action::Halt(outcome),
    }
}

/// Computes the action pending in state `s`.
pub fn action_of(s: &BootState) -> (a: Action)
    ensures
        action_spec(*s, a),
{
    match s {
        BootState::StandbyProbe => Action::CheckStandby,
        BootState::StandbyClearing => Action::DeleteStandbyMarker,
        BootState::StandbySyncing => Action::SyncDisks,
        BootState::StandbyAnnouncing => Action::PlayCue(Cue::Shutdown),
        BootState::Parked => Action::Park,
        BootState::Announcing => Action::PlayCue(Cue::Boot),
        BootState::RunningPreHook => Action::RunHook(HookPoint::Pre),
        BootState::FirmwareGate => Action::RunFirmwareUpdate,
        BootState::DetectingMode => Action::GatherEvidence,
        BootState::InstallRelinking => Action::RelinkPackageManagers,
        BootState::InstallCert => Action::RegenerateTlsCert,
        BootState::InstallSshEnable => Action::EnableSshPasswordAuth,
        BootState::InstallStartingSurface => Action::StartSurface(SurfaceKind::Install),
        BootState::InstallAnnouncingReady => Action::PlayCue(Cue::Ready),
        BootState::InstallWaiting => Action::AwaitCompletion,
        BootState::InstallStoppingSurface => Action::StopSurface,
        BootState::InstallRebooting => Action::Reboot,
        BootState::SetupStartingSurface => Action::StartSurface(SurfaceKind::Setup),
        BootState::SetupAnnouncingReady => Action::PlayCue(Cue::Ready),
        BootState::SetupWaiting => Action::AwaitCompletion,
        BootState::SetupStoppingSurface => Action::StopSurface,
        BootState::SetupKioskKill => Action::KillKiosk,
        BootState::LoadingConfig => Action::LoadConfig,
        BootState::ReadingIdentifier { .. } => Action::ReadIdentifier,
        BootState::CheckingRepairMarker { .. } => Action::CheckRepairMarker,
        BootState::Importing { data_dir, identifier, repair_marker } => Action::ImportDisk {
            identifier: identifier.clone(),
            data_dir: data_dir.clone(),
            strategy: resolve_repair_strategy(*repair_marker),
            secret: resolve_secret(identifier.as_str()),
        },
        BootState::ClearingRepairMarker { .. } => Action::DeleteRepairMarker,
        BootState::Exporting { data_dir, identifier } => Action::ExportDisk {
            identifier: identifier.clone(),
            data_dir: data_dir.clone(),
        },
        BootState::RebootingAfterExport => Action::Reboot,
        BootState::StartingServices => Action::InitServices,
        BootState::DiagAnnouncing { .. } => Action::PlayCue(Cue::Failure),
        BootState::DiagReadingIdentifier { .. } => Action::ProbeIdentifier,
        BootState::DiagStartingSurface { error, identifier } => Action::StartDiagnosticSurface {
            error: *error,
            identifier: clone_opt_string(identifier),
        },
        BootState::DiagWaiting => Action::AwaitDirective,
        BootState::DiagStoppingSurface { .. } => Action::StopSurface,
        BootState::RunningPostHook { .. } => Action::RunHook(HookPoint::Post),
        BootState::Finished { outcome } => Action::Halt(outcome.clone()),
    }
}

// ---------------------------------------------------------------------------
// Laws of the machine.
// ---------------------------------------------------------------------------

/// A present live-install medium always wins the mode dispatch: whatever the
/// identifier file's state, the machine enters the live-install runner.
pub proof fn lemma_live_medium_dispatch(identifier_file_present: bool, n: BootState)
    requires
        next_of(
            BootState::DetectingMode,
            Event::Evidence { live_marker_present: true, identifier_file_present },
            n,
        ),
    ensures
        n == BootState::InstallRelinking,
{
}

/// Without a live medium, an absent volume-identifier file always sends the
/// machine into the setup runner, never towards an import.
pub proof fn lemma_missing_identifier_dispatch(n: BootState)
    requires
        next_of(
            BootState::DetectingMode,
            Event::Evidence { live_marker_present: false, identifier_file_present: false },
            n,
        ),
    ensures
        n == BootState::SetupStartingSurface,
{
}

/// When the firmware gate reports that an update was applied, the machine
/// short-circuits: no mode detection and no disk step follows, only the
/// post-hook and then a restart directive with no export payload.
pub proof fn lemma_firmware_short_circuit(n: BootState)
    requires
        next_of(BootState::FirmwareGate, Event::FirmwareChecked(Result::Ok(true)), n),
    ensures
        n == (BootState::RunningPostHook {
            result: Result::Ok(
                Option::Some(ShutdownDirective { export_args: Option::None, restart: true }),
            ),
        }),
{
}

/// The import path is entered only on the full evidence for it: no live
/// medium, and the volume-identifier file present.  An absent identifier
/// can never lead to an import.
pub proof fn lemma_import_only_with_identifier(e: Event, n: BootState)
    requires
        next_of(BootState::DetectingMode, e, n),
        n == BootState::LoadingConfig,
    ensures
        e matches Event::Evidence { live_marker_present, identifier_file_present } && {
            &&& !live_marker_present
            &&& identifier_file_present
        },
{
}

/// A parked machine stays parked: once the standby guard has powered the
/// device down, no event resumes the boot sequence.
pub proof fn lemma_parked_absorbing(e: Event, n: BootState)
    requires
        next_of(BootState::Parked, e, n),
    ensures
        n == BootState::Parked,
{
}

/// The install-path reboot comes only after the install surface was torn
/// down: no in-flight request is abandoned by the reboot.
pub proof fn lemma_install_reboot_only_after_teardown(s: BootState, e: Event, n: BootState)
    requires
        next_of(s, e, n),
        n is InstallRebooting,
        !(s is InstallRebooting),
    ensures
        s is InstallStoppingSurface,
        e matches Event::Done(r) && r is Ok,
{
}

/// A repair-request marker that was present at import time is consumed right
/// after the one import attempt, regardless of whether that attempt
/// succeeded, failed, or requires a reboot: the importing state's successor
/// is always the marker-clearing state, whose pending action deletes the
/// marker.
pub proof fn lemma_repair_marker_consumed(
    s: BootState,
    r: Result<ImportOutcome, ErrorKind>,
    n: BootState,
    a: Action,
)
    requires
        s matches BootState::Importing { repair_marker: true, .. },
        next_of(s, Event::Imported(r), n),
        action_spec(n, a),
    ensures
        n matches BootState::ClearingRepairMarker { imported, .. } && imported == r,
        a == Action::DeleteRepairMarker,
{
}

/// The repair-request marker is deleted only there: the marker-clearing
/// state is entered exactly once, straight from an import attempt that ran
/// with the marker present.  Repair escalation can therefore never silently
/// repeat within a boot.
pub proof fn lemma_marker_cleared_only_after_import(s: BootState, e: Event, n: BootState)
    requires
        next_of(s, e, n),
        n is ClearingRepairMarker,
        !(s is ClearingRepairMarker),
    ensures
        s matches BootState::Importing { repair_marker: true, .. },
        e is Imported,
{
}

/// An identifier ending in the unencrypted-volume marker never causes a
/// secret to be passed to the import; any other identifier always gets the
/// default secret.
pub proof fn lemma_import_secret_policy(s: BootState, a: Action)
    requires
        s is Importing,
        action_spec(s, a),
    ensures
        a matches Action::ImportDisk { identifier, secret, .. } && {
            &&& secret is None <==> ends_with_unenc(identifier@)
            &&& (secret matches Option::Some(p) ==> p@ == default_secret())
        },
{
}

/// The import-path reboot is reached only through a completed export: the
/// only transition into the rebooting-after-export state comes from the
/// exporting state with a successful export.
pub proof fn lemma_reboot_only_after_export(s: BootState, e: Event, n: BootState)
    requires
        next_of(s, e, n),
        n is RebootingAfterExport,
        !(s is RebootingAfterExport),
    ensures
        s is Exporting,
        e matches Event::Done(r) && r is Ok,
{
}

/// Conversely, the export is performed only because the import outcome
/// demanded a reboot.
pub proof fn lemma_export_only_when_reboot_required(s: BootState, e: Event, n: BootState)
    requires
        next_of(s, e, n),
        n is Exporting,
        !(s is Exporting),
    ensures
        ({
            ||| {
                &&& s matches BootState::Importing { repair_marker: false, .. }
                &&& e matches Event::Imported(r)
                &&& r matches Result::Ok(o)
                &&& o.requires_reboot
            }
            ||| {
                &&& s matches BootState::ClearingRepairMarker { imported, .. }
                &&& imported matches Result::Ok(o)
                &&& o.requires_reboot
            }
        }),
{
}

/// One recorded transition of a boot run.
pub struct Trans {
    pub pre: BootState,
    pub event: Event,
    pub post: BootState,
}

/// A trace is valid when every recorded transition is allowed by
/// [`next_of`] and consecutive transitions chain together.
pub open spec fn valid_trace(t: Seq<Trans>) -> bool {
    &&& forall|i: int|
        0 <= i < t.len() ==> next_of(#[trigger] t[i].pre, t[i].event, t[i].post)
    &&& forall|i: int| 0 < i < t.len() ==> (#[trigger] t[i].pre) == t[i - 1].post
}

/// The states in which a reboot is the pending action.
pub open spec fn reboot_pending(s: BootState) -> bool {
    s is InstallRebooting || s is RebootingAfterExport
}

/// The states a run can occupy after a reboot request was answered: the
/// epilogue (post-hook, finished) and the diagnostic controller.  None of
/// them ever issues a reboot again.
pub open spec fn after_reboot_region(s: BootState) -> bool {
    ||| s is RunningPostHook
    ||| s is Finished
    ||| s is DiagAnnouncing
    ||| s is DiagReadingIdentifier
    ||| s is DiagStartingSurface
    ||| s is DiagWaiting
    ||| s is DiagStoppingSurface
}

/// The after-reboot region is closed under transitions.
pub proof fn lemma_after_reboot_region_closed(s: BootState, e: Event, n: BootState)
    requires
        next_of(s, e, n),
        after_reboot_region(s),
    ensures
        after_reboot_region(n),
{
}

/// Leaving a reboot state lands in the after-reboot region.
pub proof fn lemma_reboot_exit_enters_region(s: BootState, e: Event, n: BootState)
    requires
        next_of(s, e, n),
        reboot_pending(s),
        !reboot_pending(n),
    ensures
        after_reboot_region(n),
{
}

proof fn lemma_region_persists(t: Seq<Trans>, i: int, j: int)
    requires
        valid_trace(t),
        0 <= i <= j < t.len(),
        after_reboot_region(t[i].post),
    ensures
        after_reboot_region(t[j].post),
    decreases j - i,
{
    if j > i {
        lemma_region_persists(t, i, j - 1);
        lemma_after_reboot_region_closed(t[j].pre, t[j].event, t[j].post);
    }
}

/// Reboot is invoked at most once per run: once a reboot request has been
/// answered (the machine left the state that was pending on it), no later
/// state of the trace pends on a reboot again.
pub proof fn lemma_reboot_issued_at_most_once(t: Seq<Trans>, i: int, j: int)
    requires
        valid_trace(t),
        0 <= i < j < t.len(),
        reboot_pending(t[i].pre),
        !reboot_pending(t[i].post),
    ensures
        !reboot_pending(t[j].pre),
{
    lemma_reboot_exit_enters_region(t[i].pre, t[i].event, t[i].post);
    lemma_region_persists(t, i, j - 1);
}

/// A finished run is final: no event moves the machine away from its
/// outcome, so at most one outcome flows out of a run.
pub proof fn lemma_finished_absorbing(o: Outcome, e: Event, n: BootState)
    requires
        next_of(BootState::Finished { outcome: o }, e, n),
    ensures
        n == (BootState::Finished { outcome: o }),
{
}

/// Exactly one outcome (and so at most one shutdown directive) is produced
/// per run: whenever a trace reaches a finished state twice, it is the same
/// outcome both times.
pub proof fn lemma_outcome_unique(t: Seq<Trans>, i: int, j: int, o1: Outcome, o2: Outcome)
    requires
        valid_trace(t),
        0 <= i <= j < t.len(),
        t[i].post == (BootState::Finished { outcome: o1 }),
        t[j].post == (BootState::Finished { outcome: o2 }),
    ensures
        o1 == o2,
    decreases j - i,
{
    if j > i {
        assert(t[i + 1].pre == t[i].post);
        assert(next_of(t[i + 1].pre, t[i + 1].event, t[i + 1].post));
        lemma_finished_absorbing(o1, t[i + 1].event, t[i + 1].post);
        lemma_outcome_unique(t, i + 1, j, o1, o2);
    }
}

/// The shutdown directive has exactly two producers, and they are mutually
/// exclusive in a run: the firmware gate (a restart directive with no
/// export payload) or the diagnostic recovery controller (the operator's
/// directive, passed through unchanged).  The mode runners themselves never
/// produce one.
pub proof fn lemma_directive_producers(s: BootState, e: Event, n: BootState, d: ShutdownDirective)
    requires
        next_of(s, e, n),
        !(s is RunningPostHook),
        n == (BootState::RunningPostHook { result: Result::Ok(Option::Some(d)) }),
    ensures
        ({
            ||| {
                &&& s is FirmwareGate
                &&& e matches Event::FirmwareChecked(r)
                &&& r == Result::<bool, ErrorKind>::Ok(true)
                &&& d.restart
                &&& d.export_args is None
            }
            ||| {
                &&& s matches BootState::DiagStoppingSurface { directive }
                &&& directive == d
            }
        }),
{
}

/// The post-hook runs after the main sequence no matter how it ended: the
/// post-hook state pends on the post hook for every result, success or
/// fatal error alike.
pub proof fn lemma_post_hook_always_runs(
    result: Result<Option<ShutdownDirective>, ErrorKind>,
    a: Action,
)
    requires
        action_spec(BootState::RunningPostHook { result }, a),
    ensures
        a == Action::RunHook(HookPoint::Post),
{
}

/// The hook's own result never masks or replaces the main sequence's: the
/// run finishes with the outcome folded from the main result alone,
/// whatever the post-hook reported.
pub proof fn lemma_post_hook_never_masks(
    result: Result<Option<ShutdownDirective>, ErrorKind>,
    hook_result: Result<(), ErrorKind>,
    n: BootState,
)
    requires
        next_of(BootState::RunningPostHook { result }, Event::HookFinished(hook_result), n),
    ensures
        n == (BootState::Finished { outcome: spec_outcome_of(result) }),
{
}

/// The states that precede the main sequence; a fatal error in one of them
/// ends the run directly, below even diagnostic recovery.
pub open spec fn before_main(s: BootState) -> bool {
    s is StandbyClearing || s is StandbySyncing || s is StandbyAnnouncing || s is Announcing
}

/// A run finishes only through the post-hook, except when a pre-main step
/// failed (and then the outcome is that fault): the main sequence can never
/// bypass the post-hook.
pub proof fn lemma_finish_only_after_post_hook(s: BootState, e: Event, n: BootState)
    requires
        next_of(s, e, n),
        n is Finished,
        !(s is Finished),
    ensures
        s is RunningPostHook || before_main(s),
        before_main(s) ==> ({
            &&& n matches BootState::Finished { outcome }
            &&& outcome is Fault
        }),
{
}

} // verus!
