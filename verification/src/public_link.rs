//! The public connection manager: the relay's persistent outbound link to
//! the public endpoint.
//!
//! The link is either connecting or linked. While it is linked, the session
//! gate tells its two modes apart: with the session gate inactive a line is read as a
//! handshake directive, with the session gate active it is payload. The caller
//! connects, reads, writes and sleeps; each method here says what a given
//! event leads to.

use crate::address::Address;
use crate::command::{Command, CommandView, Effect, EffectView};
use crate::gate::SessionGate;
use crate::handshake::{ack_line, acknowledgment, connect_target, is_connect_request};
use vstd::prelude::*;

verus! {

/// How long the link waits after a failed connect before it tries again, in
/// milliseconds. The wait is the same after every failure.
pub const RETRY_DELAY_MS: u64 = 5000;

/// The state of the link to the public endpoint at `addr`.
#[derive(Clone, Copy, Debug, PartialEq, Eq, Structural)]
pub struct PublicLink {
    /// The fixed address of the public endpoint. Payload read on this link is
    /// tagged with it.
    pub addr: Address,
    /// Whether the connection stands. While it does not, the link is
    /// connecting and no line or command reaches it.
    pub linked: bool,
}

impl PublicLink {
    /// The link after a connect attempt: linked if it succeeded, connecting
    /// still if it failed.
    pub open spec fn after_connect_result(self, connected: bool) -> PublicLink {
        PublicLink { addr: self.addr, linked: connected }
    }

    /// The wait that a connect attempt's outcome calls for before the next
    /// attempt: none after a success, the fixed delay after a failure.
    pub open spec fn retry_after(connected: bool) -> Option<u64> {
        if connected {
            None
        } else {
            Some(RETRY_DELAY_MS)
        }
    }

    /// What a line read from the public peer leads to. `target` is the
    /// address that the line's address text denotes, if it denotes one.
    ///
    /// In forwarding mode the line is published as payload, whole and tagged
    /// with this link's address. In handshake mode a request whose address
    /// text denotes an address is published as a connect directive, and any
    /// other line is dropped.
    pub open spec fn line_effect(
        self,
        gate: bool,
        line: Seq<u8>,
        target: Option<Address>,
    ) -> EffectView {
        if !self.linked {
            EffectView::Nothing
        } else if gate {
            EffectView::Publish(CommandView::Data { data: line, from_addr: self.addr })
        } else if is_connect_request(line) && target is Some {
            EffectView::Publish(CommandView::Connect { addr: target->Some_0 })
        } else {
            EffectView::Nothing
        }
    }

    /// What a command from the bus leads to on the socket: the
    /// acknowledgment once a session is established, and payload that
    /// arrived on another connection. Payload tagged with this link's own
    /// address is never written back.
    pub open spec fn command_effect(self, command: CommandView) -> EffectView {
        if !self.linked {
            EffectView::Nothing
        } else {
            match command {
                CommandView::Connected => EffectView::Write(ack_line()),
                CommandView::Data { data, from_addr } => if from_addr != self.addr {
                    EffectView::Write(data)
                } else {
                    EffectView::Nothing
                },
                CommandView::Connect { .. } => EffectView::Nothing,
                CommandView::Disconnect => EffectView::Nothing,
            }
        }
    }

    /// The link after a command from the bus: a disconnect ends the
    /// connection, everything else leaves it as it is.
    pub open spec fn after_command(self, command: CommandView) -> PublicLink {
        if self.linked && command is Disconnect {
            PublicLink { addr: self.addr, linked: false }
        } else {
            self
        }
    }

    /// The session gate after this link has seen a command from the bus: active
    /// once a session is established, inactive once it has ended.
    pub open spec fn gate_after_command(self, gate: bool, command: CommandView) -> bool {
        if !self.linked {
            gate
        } else {
            match command {
                CommandView::Connected => true,
                CommandView::Disconnect => false,
                _ => gate,
            }
        }
    }

    /// The link after the public peer has closed the connection: connecting
    /// again.
    pub open spec fn after_end_of_stream(self) -> PublicLink {
        PublicLink { addr: self.addr, linked: false }
    }

    /// What a failed read or write leads to: the session is declared ended,
    /// so that every worker returns to its starting point.
    pub open spec fn failure_effect(self) -> EffectView {
        if self.linked {
            EffectView::Publish(CommandView::Disconnect)
        } else {
            EffectView::Nothing
        }
    }

    /// A link to the public endpoint at `addr`, not yet connected.
    pub fn new(addr: Address) -> (link: PublicLink)
        ensures
            link == (PublicLink { addr, linked: false }),
    {
        PublicLink { addr, linked: false }
    }

    /// The address of the public endpoint.
    pub fn address(&self) -> (addr: Address)
        ensures
            addr == self.addr,
    {
        self.addr
    }

    /// Whether the connection stands.
    pub fn is_linked(&self) -> (linked: bool)
        ensures
            linked == self.linked,
    {
        self.linked
    }

    /// Records the outcome of a connect attempt. After a failure the link
    /// stays connecting and the result is the number of milliseconds to wait
    /// before the next attempt; there is no last attempt. After a success
    /// the link is linked and there is nothing to wait for.
    pub fn on_connect_result(&mut self, connected: bool) -> (wait: Option<u64>)
        ensures
            *final(self) == old(self).after_connect_result(connected),
            wait == Self::retry_after(connected),
    {
        self.linked = connected;
        if connected {
            None
        } else {
            Some(RETRY_DELAY_MS)
        }
    }

    /// Handles one line read from the public peer, terminator included.
    ///
    /// `target` is the address that the text given by
    /// [`connect_target`] for this line denotes; it is `None` where that text
    /// denotes no address, and is not looked at where the line is no
    /// request or the session gate is active. The link and the session gate stay as they
    /// are.
    pub fn on_line(&self, gate: &SessionGate, line: Vec<u8>, target: Option<Address>) -> (effect:
        Effect)
        ensures
            effect@ == self.line_effect(gate.active, line@, target),
    {
        if !self.linked {
            Effect::Nothing
        } else if gate.is_active() {
            Effect::Publish(Command::Data { data: line, from_addr: self.addr })
        } else {
            match (connect_target(line.as_slice()), target) {
                (Some(_), Some(addr)) => Effect::Publish(Command::Connect { addr }),
                _ => Effect::Nothing,
            }
        }
    }

    /// Handles the end of the public peer's stream: the link goes back to
    /// connecting. Nothing is published and the session gate is not touched.
    pub fn on_end_of_stream(&mut self)
        ensures
            *final(self) == old(self).after_end_of_stream(),
    {
        self.linked = false;
    }

    /// Handles a failed read or write on the public connection: the link
    /// goes back to connecting, and where it was linked a disconnect is
    /// published so that the failure ends this connection's session and
    /// nothing else.
    pub fn on_failure(&mut self) -> (effect: Effect)
        ensures
            *final(self) == old(self).after_end_of_stream(),
            effect@ == old(self).failure_effect(),
    {
        let was_linked = self.linked;
        self.linked = false;
        if was_linked {
            Effect::Publish(Command::Disconnect)
        } else {
            Effect::Nothing
        }
    }

    /// Handles one command received from the bus while linked.
    ///
    /// A `Connected` activates the session gate and has the acknowledgment written
    /// to the public peer. A `Data` that arrived on another connection is
    /// written to the public peer as it is; one that arrived on this
    /// connection is not. A `Disconnect` clears the session gate and sends the link
    /// back to connecting. A `Connect` is for the dispatcher and changes
    /// nothing here.
    pub fn on_command(&mut self, gate: &mut SessionGate, command: Command) -> (effect: Effect)
        ensures
            *final(self) == old(self).after_command(command@),
            final(gate).active == old(self).gate_after_command(old(gate).active, command@),
            effect@ == old(self).command_effect(command@),
    {
        if !self.linked {
            return Effect::Nothing;
        }
        match command {
            Command::Connected => {
                gate.activate();
                Effect::Write(acknowledgment())
            },
            Command::Data { data, from_addr } => {
                if from_addr != self.addr {
                    Effect::Write(data)
                } else {
                    Effect::Nothing
                }
            },
            Command::Disconnect => {
                gate.clear();
                self.linked = false;
                Effect::Nothing
            },
            Command::Connect { .. } => Effect::Nothing,
        }
    }
}

} // verus!
