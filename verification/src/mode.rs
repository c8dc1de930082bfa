//! Boot-mode classification from on-disk evidence.

use vstd::prelude::*;

verus! {

/// The mutually exclusive boot modes, derived once per boot from filesystem
/// evidence, never persisted, and immutable once computed.
#[derive(Clone, Copy, Debug, PartialEq, Eq, Structural)]
pub enum BootMode {
    /// A live-installer medium is present: someone is actively installing.
    LiveInstall,
    /// No volume identifier has ever been persisted: setup has not completed.
    NeedsSetup,
    /// Identity is present and no live medium: import the data volume.
    ReadyToImport,
}

/// Classification precedence, first match wins:
/// 1. live-install medium marker present => `LiveInstall`;
/// 2. volume-identifier file absent      => `NeedsSetup`;
/// 3. otherwise                          => `ReadyToImport`.
pub open spec fn spec_detect(live_marker_present: bool, identifier_file_present: bool) -> BootMode {
    if live_marker_present {
        BootMode::LiveInstall
    } else if !identifier_file_present {
        BootMode::NeedsSetup
    } else {
        BootMode::ReadyToImport
    }
}

/// Classifies the boot from the two pieces of filesystem evidence.  Pure:
/// the caller performs the metadata probes and passes their outcome in.
pub fn detect_mode(live_marker_present: bool, identifier_file_present: bool) -> (m: BootMode)
    ensures
        m == spec_detect(live_marker_present, identifier_file_present),
{
    if live_marker_present {
        BootMode::LiveInstall
    } else if !identifier_file_present {
        BootMode::NeedsSetup
    } else {
        BootMode::ReadyToImport
    }
}

/// A present live-install marker always wins: the boot is classified as
/// `LiveInstall` regardless of the identifier file's state.
pub proof fn lemma_live_marker_wins(identifier_file_present: bool)
    ensures
        spec_detect(true, identifier_file_present) == BootMode::LiveInstall,
{
}

/// An absent volume-identifier file never yields `ReadyToImport`: without a
/// live medium it always yields `NeedsSetup`, even if other install
/// artifacts exist.
pub proof fn lemma_absent_identifier_never_imports(live_marker_present: bool)
    ensures
        spec_detect(live_marker_present, false) != BootMode::ReadyToImport,
        !live_marker_present ==> spec_detect(live_marker_present, false) == BootMode::NeedsSetup,
{
}

} // verus!
