//! Boot-mode resolution and recovery logic for a single-purpose home-server
//! appliance.
//!
//! On every boot the appliance must decide, from on-disk evidence alone, which
//! mode it is in (pending firmware flash, live-installer medium, first-time
//! setup, or normal startup requiring an encrypted-volume import) and drive
//! itself through exactly one path to a stable end state.  This crate holds
//! that decision logic as a pure, verified state machine: a driver performs
//! each requested [`sequence::Action`], feeds the result back as a
//! [`sequence::Event`], and the machine decides what happens next.  All side
//! effects (filesystem probes, subprocesses, web surfaces, disk import) live
//! in the driver; none are performed here.

pub mod disk;
pub mod error;
pub mod mode;
pub mod sequence;
pub mod shutdown;
