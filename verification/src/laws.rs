//! What holds of the relay as a whole: statements that relate the public
//! link, the dispatcher and a data session to one another, each proved from
//! the definitions that the workers' contracts use.

use crate::address::Address;
use crate::command::{CommandView, EffectView};
use crate::dispatcher::{gate_after_dispatch, session_to_start};
use crate::handshake::{ack_line, is_connect_request};
use crate::public_link::{PublicLink, RETRY_DELAY_MS};
use crate::session::DataSession;
use vstd::prelude::*;

verus! {

/// The link after `failures` connect attempts in a row have failed.
pub open spec fn after_failed_attempts(link: PublicLink, failures: nat) -> PublicLink
    decreases failures,
{
    if failures == 0 {
        link
    } else {
        after_failed_attempts(link, (failures - 1) as nat).after_connect_result(false)
    }
}

/// A request received in handshake mode starts exactly one session, to the
/// address it names: the link publishes one connect directive for that
/// address and the dispatcher answers that directive with that address,
/// leaving the session gate as it was. While a session is active the same line is
/// payload, and a connect directive starts nothing.
pub proof fn law_request_starts_one_session(
    link: PublicLink,
    line: Seq<u8>,
    target: Address,
    other: Address,
)
    requires
        link.linked,
        is_connect_request(line),
    ensures
        link.line_effect(false, line, Some(target)) == EffectView::Publish(
            CommandView::Connect { addr: target },
        ),
        session_to_start(false, CommandView::Connect { addr: target }) == Some(target),
        gate_after_dispatch(false, CommandView::Connect { addr: target }) == false,
        link.line_effect(true, line, Some(target)) == EffectView::Publish(
            CommandView::Data { data: line, from_addr: link.addr },
        ),
        session_to_start(true, CommandView::Connect { addr: other }) is None,
        session_to_start(true, link.line_effect(true, line, Some(target))->Publish_0) is None,
{
}

/// Only a connect directive seen while no session is active starts a
/// session.
pub proof fn law_only_requests_start_sessions(gate: bool, command: CommandView)
    ensures
        session_to_start(gate, command) is Some <==> !gate && command is Connect,
        session_to_start(gate, command) is Some ==> session_to_start(gate, command)
            == Some(command->Connect_addr),
{
}

/// A request whose address text denotes no address is dropped: the link
/// publishes nothing, whatever the text is.
pub proof fn law_unreadable_address_is_dropped(link: PublicLink, gate: bool, line: Seq<u8>)
    requires
        !gate,
    ensures
        link.line_effect(gate, line, None) == EffectView::Nothing,
{
}

/// In handshake mode a line that is no request is dropped, whatever address
/// the caller hands in with it.
pub proof fn law_other_lines_are_dropped(link: PublicLink, line: Seq<u8>, target: Option<Address>)
    requires
        !is_connect_request(line),
    ensures
        link.line_effect(false, line, target) == EffectView::Nothing,
{
}

/// Once a session is established the public peer is told so, once: the
/// link answers `Connected` with the acknowledgment line and an active gate,
/// and the session publishes `Connected` for a successful connect only.
pub proof fn law_established_session_is_acknowledged(
    link: PublicLink,
    session: DataSession,
    gate: bool,
)
    requires
        link.linked,
        session.phase is Pending,
    ensures
        session.connect_effect(true) == EffectView::Publish(CommandView::Connected),
        session.after_connect_result(true).phase is Forwarding,
        session.connect_effect(false) == EffectView::Nothing,
        session.after_connect_result(false).phase is Closed,
        link.command_effect(CommandView::Connected) == EffectView::Write(ack_line()),
        link.gate_after_command(gate, CommandView::Connected) == true,
        link.after_command(CommandView::Connected) == link,
{
}

/// In forwarding mode every line crosses to the other connection byte for
/// byte, terminator included, in both directions. The two connections must
/// have different addresses: a session to the public endpoint's own address
/// cannot be told from the public link, and nothing crosses.
pub proof fn law_payload_crosses_verbatim(
    link: PublicLink,
    session: DataSession,
    line: Seq<u8>,
    target: Option<Address>,
)
    requires
        link.linked,
        session.phase is Forwarding,
        link.addr != session.addr,
    ensures
        link.line_effect(true, line, target) matches EffectView::Publish(command)
            && session.command_effect(command) == EffectView::Write(line),
        session.line_effect(line) matches EffectView::Publish(command) && link.command_effect(
            command,
        ) == EffectView::Write(line),
{
}

/// A line is never written back to the connection it arrived on: neither
/// worker writes anything for payload that carries its own address.
pub proof fn law_payload_never_echoes(
    link: PublicLink,
    session: DataSession,
    gate: bool,
    line: Seq<u8>,
    target: Option<Address>,
)
    ensures
        link.line_effect(gate, line, target) matches EffectView::Publish(command)
            ==> link.command_effect(command) == EffectView::Nothing,
        session.line_effect(line) matches EffectView::Publish(command) ==> session.command_effect(
            command,
        ) == EffectView::Nothing,
        link.command_effect(CommandView::Data { data: line, from_addr: link.addr })
            == EffectView::Nothing,
        session.command_effect(CommandView::Data { data: line, from_addr: session.addr })
            == EffectView::Nothing,
{
}

/// What a worker writes for payload is that payload, unchanged.
pub proof fn law_written_payload_is_unchanged(
    link: PublicLink,
    session: DataSession,
    data: Seq<u8>,
    from_addr: Address,
)
    ensures
        link.command_effect(CommandView::Data { data, from_addr }) matches EffectView::Write(bytes)
            ==> bytes == data,
        session.command_effect(CommandView::Data { data, from_addr }) matches EffectView::Write(
            bytes,
        ) ==> bytes == data,
{
}

/// The end of a session reopens the handshake. A forwarding session that
/// ends publishes `Disconnect`; the dispatcher and the link each answer it
/// with an inactive gate, whatever the session gate was; and once the link stands
/// again a request is accepted as at the start.
pub proof fn law_disconnect_reopens_handshake(
    link: PublicLink,
    session: DataSession,
    gate: bool,
    line: Seq<u8>,
    target: Address,
)
    requires
        link.linked,
        session.phase is Forwarding,
        is_connect_request(line),
    ensures
        session.finish_effect() == EffectView::Publish(CommandView::Disconnect),
        session.after_finish().phase is Closed,
        gate_after_dispatch(gate, CommandView::Disconnect) == false,
        link.gate_after_command(gate, CommandView::Disconnect) == false,
        !link.after_command(CommandView::Disconnect).linked,
        ({
            let relinked = link.after_command(CommandView::Disconnect).after_connect_result(true);
            let cleared = gate_after_dispatch(gate, CommandView::Disconnect);
            &&& relinked == link
            &&& relinked.line_effect(cleared, line, Some(target)) == EffectView::Publish(
                CommandView::Connect { addr: target },
            )
            &&& session_to_start(cleared, CommandView::Connect { addr: target }) == Some(target)
        }),
{
}

/// A closed session is over for good: it publishes nothing, writes nothing
/// and no event brings it back.
pub proof fn law_closed_session_stays_closed(
    session: DataSession,
    connected: bool,
    line: Seq<u8>,
    command: CommandView,
)
    requires
        session.phase is Closed,
    ensures
        session.after_connect_result(connected) == session,
        session.after_finish() == session,
        session.connect_effect(connected) == EffectView::Nothing,
        session.line_effect(line) == EffectView::Nothing,
        session.command_effect(command) == EffectView::Nothing,
        session.finish_effect() == EffectView::Nothing,
{
}

/// Connect failures never end the link. After any number of failed attempts
/// in a row the link is still connecting to the same address, each failure
/// called for a wait of exactly the fixed delay, and the next attempt can
/// still succeed.
pub proof fn law_failed_connects_retry_forever(link: PublicLink, failures: nat)
    ensures
        after_failed_attempts(link, failures).addr == link.addr,
        failures > 0 ==> !after_failed_attempts(link, failures).linked,
        PublicLink::retry_after(false) == Some(RETRY_DELAY_MS),
        RETRY_DELAY_MS == 5000,
        PublicLink::retry_after(true) is None,
        after_failed_attempts(link, failures).after_connect_result(true) == (PublicLink {
            addr: link.addr,
            linked: true,
        }),
    decreases failures,
{
    if failures > 0 {
        law_failed_connects_retry_forever(link, (failures - 1) as nat);
    }
}

/// While the link is connecting nothing reaches it: no line and no command
/// has an effect or changes the link or the session gate.
pub proof fn law_connecting_link_is_silent(
    link: PublicLink,
    gate: bool,
    line: Seq<u8>,
    target: Option<Address>,
    command: CommandView,
)
    requires
        !link.linked,
    ensures
        link.line_effect(gate, line, target) == EffectView::Nothing,
        link.command_effect(command) == EffectView::Nothing,
        link.after_command(command) == link,
        link.gate_after_command(gate, command) == gate,
        link.failure_effect() == EffectView::Nothing,
{
}

} // verus!
