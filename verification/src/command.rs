//! The messages that the relay's workers exchange over the bus.

use crate::address::Address;
use vstd::prelude::*;

verus! {

/// One message on the bus. Every worker sees every message published after
/// it subscribed; these four are the whole vocabulary.
#[derive(Clone, Debug, PartialEq, Eq)]
pub enum Command {
    /// Open a data session to `addr`.
    Connect { addr: Address },
    /// One line of payload, terminator included, tagged with the address of
    /// the connection it arrived on.
    Data { data: Vec<u8>, from_addr: Address },
    /// A data session has been established.
    Connected,
    /// The active session, or the public link, has ended.
    Disconnect,
}

/// A [`Command`] as a mathematical value: the payload is a sequence of bytes.
pub enum CommandView {
    Connect { addr: Address },
    Data { data: Seq<u8>, from_addr: Address },
    Connected,
    Disconnect,
}

impl View for Command {
    type V = CommandView;

    open spec fn view(&self) -> CommandView {
        match *self {
            Command::Connect { addr } => CommandView::Connect { addr },
            Command::Data { data, from_addr } => CommandView::Data { data: data@, from_addr },
            Command::Connected => CommandView::Connected,
            Command::Disconnect => CommandView::Disconnect,
        }
    }
}

/// What a worker must do after an event: nothing, publish one command on the
/// bus, or write bytes to its own socket. A worker writes to no socket but
/// its own.
#[derive(Clone, Debug, PartialEq, Eq)]
pub enum Effect {
    /// Nothing is published and nothing is written.
    Nothing,
    /// Publish this command on the bus.
    Publish(Command),
    /// Write these bytes, as they are, to the worker's own socket.
    Write(Vec<u8>),
}

/// An [`Effect`] as a mathematical value.
pub enum EffectView {
    Nothing,
    Publish(CommandView),
    Write(Seq<u8>),
}

impl View for Effect {
    type V = EffectView;

    open spec fn view(&self) -> EffectView {
        match *self {
            Effect::Nothing => EffectView::Nothing,
            Effect::Publish(command) => EffectView::Publish(command@),
            Effect::Write(bytes) => EffectView::Write(bytes@),
        }
    }
}

} // verus!
