//! Failure kinds raised during boot, and the process exit code each maps to.

use vstd::prelude::*;

verus! {

/// The kind of a fatal boot error.  Each kind maps one-to-one onto a numeric
/// process exit code, used when no recovery surface could be started.
#[derive(Clone, Copy, Debug, PartialEq, Eq, Structural)]
pub enum ErrorKind {
    /// Filesystem I/O failed (read, delete, sync).
    Filesystem,
    /// A subprocess could not be spawned or exited unsuccessfully.
    Subprocess,
    /// TLS certificate tooling failed.
    Tls,
    /// SSH daemon tooling failed.
    Ssh,
    /// Importing or exporting the data volume failed.
    Disk,
    /// An expected file or process was not found.
    NotFound,
    /// Anything else.
    Unknown,
}

/// The exit code that a boot failing with kind `k` terminates with.
/// Zero is reserved for a clean shutdown and is never produced here.
pub open spec fn spec_exit_code(k: ErrorKind) -> i32 {
    match k {
        ErrorKind::Filesystem => 1,
        ErrorKind::Subprocess => 2,
        ErrorKind::Tls => 3,
        ErrorKind::Ssh => 4,
        ErrorKind::Disk => 5,
        ErrorKind::NotFound => 6,
        ErrorKind::Unknown => 7,
    }
}

/// Returns the process exit code for a boot error of kind `k`.
pub fn exit_code(k: ErrorKind) -> (c: i32)
    ensures
        c == spec_exit_code(k),
{
    match k {
        ErrorKind::Filesystem => 1,
        ErrorKind::Subprocess => 2,
        ErrorKind::Tls => 3,
        ErrorKind::Ssh => 4,
        ErrorKind::Disk => 5,
        ErrorKind::NotFound => 6,
        ErrorKind::Unknown => 7,
    }
}

/// Exit codes are a faithful tag of the error kind: they are never zero (so a
/// failed boot is always distinguishable from a clean shutdown) and no two
/// kinds share a code.
pub proof fn lemma_exit_codes_distinct(k1: ErrorKind, k2: ErrorKind)
    ensures
        spec_exit_code(k1) != 0,
        spec_exit_code(k1) == spec_exit_code(k2) ==> k1 == k2,
{
}

} // verus!
