//! The error taxonomy of the stream plumbing.
use vstd::prelude::*;

verus! {

/// The failure conditions a queue or pipe operation can surface.
///
/// `BrokenPipe` is terminal: a pump has died or the queue was killed.
/// `WouldBlock` is transient: a non-blocking attempt found nothing ready.
/// `TimedOut` is non-fatal: a configured or internal wait bound elapsed.
/// `Transport` carries an unrecognized transport-level error code through
/// unchanged from the underlying connection.
#[derive(Clone, Copy, Debug, PartialEq, Eq, Structural)]
pub enum ErrKind {
    BrokenPipe,
    WouldBlock,
    TimedOut,
    Transport(u64),
}

/// The terminal error of a dead direction: what its pump recorded, or a
/// broken pipe when the pump ended without recording anything.
pub open spec fn spec_recorded_or_broken(cur: Option<ErrKind>) -> ErrKind {
    match cur {
        Some(e) => e,
        None => ErrKind::BrokenPipe,
    }
}

/// Executable twin of `spec_recorded_or_broken`.
pub fn recorded_or_broken(cur: Option<ErrKind>) -> (r: ErrKind)
    ensures
        r == spec_recorded_or_broken(cur),
{
    match cur {
        Some(e) => e,
        None => ErrKind::BrokenPipe,
    }
}

} // verus!
