//! The session gate: whether a data session is currently active.

use vstd::prelude::*;

verus! {

/// The one piece of state that the workers share. While it is inactive the
/// public connection is in handshake mode and its lines are read as
/// directives; while it is active the public connection is in forwarding mode
/// and its lines are opaque payload. The caller guards it with a lock and
/// holds that lock for one check or one update at a time.
#[derive(Clone, Copy, Debug, PartialEq, Eq, Structural)]
pub struct SessionGate {
    pub active: bool,
}

impl SessionGate {
    /// The session gate as it is at startup: inactive.
    pub fn new() -> (gate: SessionGate)
        ensures
            !gate.active,
    {
        SessionGate { active: false }
    }

    /// Whether a data session is active.
    pub fn is_active(&self) -> (active: bool)
        ensures
            active == self.active,
    {
        self.active
    }

    /// Marks the session active.
    pub fn activate(&mut self)
        ensures
            final(self).active,
    {
        self.active = true;
    }

    /// Marks the session ended, so that a new handshake is accepted.
    pub fn clear(&mut self)
        ensures
            !final(self).active,
    {
        self.active = false;
    }
}

} // verus!
