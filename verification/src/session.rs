//! The data connection handler: one short-lived outbound link to the
//! address that a handshake named.
//!
//! A session makes a single connect attempt. If that succeeds it announces
//! itself, forwards lines both ways until its stream ends, and announces its
//! end. It is never reused.

use crate::address::Address;
use crate::command::{Command, CommandView, Effect, EffectView};
use vstd::prelude::*;

verus! {

/// Where a session stands in its life.
#[derive(Clone, Copy, Debug, PartialEq, Eq, Structural)]
pub enum Phase {
    /// Created, the connect attempt not yet answered.
    Pending,
    /// Connected: lines are forwarded both ways.
    Forwarding,
    /// Over, because the connect failed or the stream ended.
    Closed,
}

/// One data session to the endpoint at `addr`.
#[derive(Clone, Copy, Debug, PartialEq, Eq, Structural)]
pub struct DataSession {
    /// The address of the data endpoint. Payload read on this session is
    /// tagged with it.
    pub addr: Address,
    pub phase: Phase,
}

impl DataSession {
    /// The session after its connect attempt: forwarding if it succeeded,
    /// closed if it failed. There is no second attempt.
    pub open spec fn after_connect_result(self, connected: bool) -> DataSession {
        if self.phase is Pending {
            DataSession {
                addr: self.addr,
                phase: if connected {
                    Phase::Forwarding
                } else {
                    Phase::Closed
                },
            }
        } else {
            self
        }
    }

    /// What the connect attempt's outcome leads to: a success is announced,
    /// a failure is not.
    pub open spec fn connect_effect(self, connected: bool) -> EffectView {
        if self.phase is Pending && connected {
            EffectView::Publish(CommandView::Connected)
        } else {
            EffectView::Nothing
        }
    }

    /// What a line read from the data endpoint leads to: it is published as
    /// payload, whole and tagged with this session's address.
    pub open spec fn line_effect(self, line: Seq<u8>) -> EffectView {
        if self.phase is Forwarding {
            EffectView::Publish(CommandView::Data { data: line, from_addr: self.addr })
        } else {
            EffectView::Nothing
        }
    }

    /// What a command from the bus leads to: payload that arrived on
    /// another connection is written to the data endpoint as it is. Payload
    /// tagged with this session's own address is never written back, and no
    /// other command concerns a session.
    pub open spec fn command_effect(self, command: CommandView) -> EffectView {
        match command {
            CommandView::Data { data, from_addr } => if self.phase is Forwarding && from_addr
                != self.addr {
                EffectView::Write(data)
            } else {
                EffectView::Nothing
            },
            _ => EffectView::Nothing,
        }
    }

    /// The session once it is over.
    pub open spec fn after_finish(self) -> DataSession {
        DataSession { addr: self.addr, phase: Phase::Closed }
    }

    /// What the end of a session leads to: a session that was forwarding
    /// announces its end.
    pub open spec fn finish_effect(self) -> EffectView {
        if self.phase is Forwarding {
            EffectView::Publish(CommandView::Disconnect)
        } else {
            EffectView::Nothing
        }
    }

    /// A session to the endpoint at `addr`, its connect attempt still open.
    pub fn new(addr: Address) -> (session: DataSession)
        ensures
            session == (DataSession { addr, phase: Phase::Pending }),
    {
        DataSession { addr, phase: Phase::Pending }
    }

    /// The address of the data endpoint.
    pub fn address(&self) -> (addr: Address)
        ensures
            addr == self.addr,
    {
        self.addr
    }

    /// Whether the session is connected and not yet over.
    pub fn is_forwarding(&self) -> (forwarding: bool)
        ensures
            forwarding == (self.phase is Forwarding),
    {
        self.phase == Phase::Forwarding
    }

    /// Whether the session is over.
    pub fn is_closed(&self) -> (closed: bool)
        ensures
            closed == (self.phase is Closed),
    {
        self.phase == Phase::Closed
    }

    /// Records the outcome of the one connect attempt. A success starts
    /// forwarding and publishes `Connected`; a failure closes the session and
    /// publishes nothing.
    pub fn on_connect_result(&mut self, connected: bool) -> (effect: Effect)
        ensures
            *final(self) == old(self).after_connect_result(connected),
            effect@ == old(self).connect_effect(connected),
    {
        if self.phase != Phase::Pending {
            Effect::Nothing
        } else if connected {
            self.phase = Phase::Forwarding;
            Effect::Publish(Command::Connected)
        } else {
            self.phase = Phase::Closed;
            Effect::Nothing
        }
    }

    /// Handles one line read from the data endpoint, terminator included.
    pub fn on_line(&self, line: Vec<u8>) -> (effect: Effect)
        ensures
            effect@ == self.line_effect(line@),
    {
        if self.phase == Phase::Forwarding {
            Effect::Publish(Command::Data { data: line, from_addr: self.addr })
        } else {
            Effect::Nothing
        }
    }

    /// Handles one command received from the bus.
    pub fn on_command(&self, command: Command) -> (effect: Effect)
        ensures
            effect@ == self.command_effect(command@),
    {
        match command {
            Command::Data { data, from_addr } => {
                if self.phase == Phase::Forwarding && from_addr != self.addr {
                    Effect::Write(data)
                } else {
                    Effect::Nothing
                }
            },
            _ => Effect::Nothing,
        }
    }

    /// Ends the session, whether its stream ended or a read or write failed.
    /// A session that was forwarding publishes `Disconnect`, which is what
    /// lets the dispatcher clear the session gate; the session is closed either way.
    pub fn finish(&mut self) -> (effect: Effect)
        ensures
            *final(self) == old(self).after_finish(),
            effect@ == old(self).finish_effect(),
    {
        let was_forwarding = self.phase == Phase::Forwarding;
        self.phase = Phase::Closed;
        if was_forwarding {
            Effect::Publish(Command::Disconnect)
        } else {
            Effect::Nothing
        }
    }
}

} // verus!
