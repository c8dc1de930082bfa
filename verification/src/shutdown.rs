//! The shutdown directive and the final decision it is turned into.

use vstd::prelude::*;
use crate::error::{spec_exit_code, exit_code, ErrorKind};

verus! {

/// The payload of a clean volume export requested as part of shutting down:
/// which volume, and where its data directory is.
#[derive(Debug)]
pub struct ExportArgs {
    pub identifier: String,
    pub data_dir: String,
}

impl Clone for ExportArgs {
    fn clone(&self) -> (r: Self)
        ensures
            r == *self,
    {
        ExportArgs { identifier: self.identifier.clone(), data_dir: self.data_dir.clone() }
    }
}

/// The one decision object that flows out of a boot sequence: optionally
/// export a volume, then either restart the machine or not.  Produced by the
/// firmware gate or by the diagnostic recovery controller; at most one
/// instance flows out of the whole state machine per boot.
#[derive(Debug)]
pub struct ShutdownDirective {
    pub export_args: Option<ExportArgs>,
    pub restart: bool,
}

impl Clone for ShutdownDirective {
    fn clone(&self) -> (r: Self)
        ensures
            r == *self,
    {
        ShutdownDirective {
            export_args: match &self.export_args {
                Option::Some(a) => Option::Some(a.clone()),
                Option::None => Option::None,
            },
            restart: self.restart,
        }
    }
}

/// How a full boot sequence run ended.
#[derive(Debug)]
pub enum Outcome {
    /// A shutdown directive was produced, by the firmware gate or by the
    /// diagnostic recovery controller.
    Directive(ShutdownDirective),
    /// The sequence fell through to normal service handoff: no directive.
    Clean,
    /// An error that not even diagnostic recovery could absorb.
    Fault(ErrorKind),
}

impl Clone for Outcome {
    fn clone(&self) -> (r: Self)
        ensures
            r == *self,
    {
        match self {
            Outcome::Directive(d) => Outcome::Directive(d.clone()),
            Outcome::Clean => Outcome::Clean,
            Outcome::Fault(k) => Outcome::Fault(*k),
        }
    }
}

/// What the process does after the boot sequence has ended.
#[derive(Clone, Copy, Debug, PartialEq, Eq, Structural)]
pub enum Effect {
    /// Execute the platform restart action.
    Restart,
    /// Exit the process with the given status code.
    Exit(i32),
}

/// The final, fully resolved decision: an optional clean volume export,
/// followed by a restart or a process exit.
#[derive(Debug)]
pub struct FinalAction {
    pub export_args: Option<ExportArgs>,
    pub effect: Effect,
}

/// The coordination rule, one case per outcome:
/// a directive with `restart` set leads to a restart, one without leads to a
/// clean exit, both after its export payload (if any) is honoured; a clean
/// fall-through exits with code zero; an unrecovered fault exits with the
/// code of its error kind.
pub open spec fn spec_coordinate(o: Outcome, f: FinalAction) -> bool {
    match o {
        Outcome::Directive(d) => {
            &&& f.export_args == d.export_args
            &&& f.effect == (if d.restart {
                Effect::Restart
            } else {
                Effect::Exit(0)
            })
        },
        Outcome::Clean => f.export_args is None && f.effect == Effect::Exit(0),
        Outcome::Fault(k) => f.export_args is None && f.effect == Effect::Exit(spec_exit_code(k)),
    }
}

/// Turns the outcome of a boot sequence into the final process action.
pub fn coordinate(o: Outcome) -> (f: FinalAction)
    ensures
        spec_coordinate(o, f),
{
    match o {
        Outcome::Directive(d) => FinalAction {
            export_args: d.export_args,
            effect: if d.restart {
                Effect::Restart
            } else {
                Effect::Exit(0)
            },
        },
        Outcome::Clean => FinalAction { export_args: Option::None, effect: Effect::Exit(0) },
        Outcome::Fault(k) => FinalAction {
            export_args: Option::None,
            effect: Effect::Exit(exit_code(k)),
        },
    }
}

/// A failed boot is never mistaken for a clean one: a fault always exits
/// with a nonzero code, and never restarts the machine.
pub proof fn lemma_fault_exits_nonzero(k: ErrorKind, f: FinalAction)
    requires
        spec_coordinate(Outcome::Fault(k), f),
    ensures
        f.effect matches Effect::Exit(c) && c != 0,
{
    crate::error::lemma_exit_codes_distinct(k, k);
}

} // verus!
