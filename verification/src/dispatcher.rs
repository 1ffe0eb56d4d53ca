//! The session dispatcher: the worker that starts data sessions.

use crate::address::Address;
use crate::command::{Command, CommandView};
use crate::gate::SessionGate;
use vstd::prelude::*;

verus! {

/// The address to start a data session for, if `command` calls for one: a
/// connect directive does while no session is active. A directive that
/// arrives while a session is active is ignored; it is neither queued nor
/// answered.
pub open spec fn session_to_start(gate: bool, command: CommandView) -> Option<Address> {
    match command {
        CommandView::Connect { addr } => if gate {
            None
        } else {
            Some(addr)
        },
        _ => None,
    }
}

/// The session gate after the dispatcher has seen `command`: a disconnect clears it,
/// and nothing else touches it. Starting a session does not activate it.
pub open spec fn gate_after_dispatch(gate: bool, command: CommandView) -> bool {
    if command is Disconnect {
        false
    } else {
        gate
    }
}

/// Handles one command received from the bus. The result is the address for
/// which the caller must start a data session, or `None` where it must start
/// none.
pub fn dispatch(gate: &mut SessionGate, command: &Command) -> (start: Option<Address>)
    ensures
        start == session_to_start(old(gate).active, command@),
        final(gate).active == gate_after_dispatch(old(gate).active, command@),
{
    match command {
        Command::Connect { addr } => {
            if gate.is_active() {
                None
            } else {
                Some(*addr)
            }
        },
        Command::Disconnect => {
            gate.clear();
            None
        },
        _ => None,
    }
}

} // verus!
