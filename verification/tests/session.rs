use tunnel_relay::{dispatch, Address, Command, DataSession, Effect, Phase, SessionGate};

fn public_addr() -> Address {
    Address::V4 { ip: 0x7F00_0001, port: 8080 }
}

fn data_addr() -> Address {
    Address::V4 { ip: 0x0A00_0005, port: 9000 }
}

fn forwarding() -> DataSession {
    let mut session = DataSession::new(data_addr());
    assert_eq!(session.on_connect_result(true), Effect::Publish(Command::Connected));
    session
}

#[test]
fn new_session_is_pending() {
    let session = DataSession::new(data_addr());
    assert_eq!(session.phase, Phase::Pending);
    assert_eq!(session.address(), data_addr());
    assert!(!session.is_forwarding());
    assert!(!session.is_closed());
}

#[test]
fn successful_connect_publishes_connected() {
    let mut session = DataSession::new(data_addr());
    assert_eq!(session.on_connect_result(true), Effect::Publish(Command::Connected));
    assert!(session.is_forwarding());
}

#[test]
fn failed_connect_closes_without_publishing() {
    let mut session = DataSession::new(data_addr());
    assert_eq!(session.on_connect_result(false), Effect::Nothing);
    assert!(session.is_closed());
    // There is no second attempt.
    assert_eq!(session.on_connect_result(true), Effect::Nothing);
    assert!(session.is_closed());
    assert_eq!(session.finish(), Effect::Nothing);
}

#[test]
fn session_line_is_published_verbatim() {
    let session = forwarding();
    assert_eq!(
        session.on_line(b"world\r\n".to_vec()),
        Effect::Publish(Command::Data { data: b"world\r\n".to_vec(), from_addr: data_addr() })
    );
}

#[test]
fn first_line_of_a_session_is_payload() {
    // The data connection has no handshake: a request line is forwarded.
    let session = forwarding();
    let line = b"CONNECT 10.0.0.5:9000 HTTP/1.1\r\n".to_vec();
    assert_eq!(
        session.on_line(line.clone()),
        Effect::Publish(Command::Data { data: line, from_addr: data_addr() })
    );
}

#[test]
fn payload_from_the_public_side_is_written() {
    let session = forwarding();
    let command = Command::Data { data: b"hello\r\n".to_vec(), from_addr: public_addr() };
    assert_eq!(session.on_command(command), Effect::Write(b"hello\r\n".to_vec()));
}

#[test]
fn session_does_not_write_its_own_payload_back() {
    let session = forwarding();
    let command = Command::Data { data: b"world\r\n".to_vec(), from_addr: data_addr() };
    assert_eq!(session.on_command(command), Effect::Nothing);
}

#[test]
fn session_ignores_other_commands() {
    let session = forwarding();
    assert_eq!(session.on_command(Command::Connected), Effect::Nothing);
    assert_eq!(session.on_command(Command::Disconnect), Effect::Nothing);
    assert_eq!(session.on_command(Command::Connect { addr: public_addr() }), Effect::Nothing);
    assert!(session.is_forwarding());
}

#[test]
fn finish_publishes_disconnect_once() {
    let mut session = forwarding();
    assert_eq!(session.finish(), Effect::Publish(Command::Disconnect));
    assert!(session.is_closed());
    assert_eq!(session.finish(), Effect::Nothing);
    assert_eq!(session.on_line(b"late\r\n".to_vec()), Effect::Nothing);
    let command = Command::Data { data: b"late\r\n".to_vec(), from_addr: public_addr() };
    assert_eq!(session.on_command(command), Effect::Nothing);
}

#[test]
fn pending_session_forwards_nothing() {
    let mut session = DataSession::new(data_addr());
    assert_eq!(session.on_line(b"early\r\n".to_vec()), Effect::Nothing);
    let command = Command::Data { data: b"early\r\n".to_vec(), from_addr: public_addr() };
    assert_eq!(session.on_command(command), Effect::Nothing);
    assert_eq!(session.finish(), Effect::Nothing);
    assert!(session.is_closed());
}

#[test]
fn dispatcher_starts_a_session_while_the_gate_is_inactive() {
    let mut gate = SessionGate::new();
    let start = dispatch(&mut gate, &Command::Connect { addr: data_addr() });
    assert_eq!(start, Some(data_addr()));
    // Starting a session does not activate the session gate.
    assert!(!gate.is_active());
}

#[test]
fn dispatcher_ignores_a_request_while_a_session_is_active() {
    let mut gate = SessionGate::new();
    gate.activate();
    assert_eq!(dispatch(&mut gate, &Command::Connect { addr: data_addr() }), None);
    assert!(gate.is_active());
}

#[test]
fn dispatcher_clears_the_gate_on_disconnect() {
    let mut gate = SessionGate::new();
    gate.activate();
    assert_eq!(dispatch(&mut gate, &Command::Disconnect), None);
    assert!(!gate.is_active());
    assert_eq!(dispatch(&mut gate, &Command::Disconnect), None);
    assert!(!gate.is_active());
}

#[test]
fn dispatcher_only_observes_data_and_connected() {
    let mut gate = SessionGate::new();
    let data = Command::Data { data: b"hello\r\n".to_vec(), from_addr: public_addr() };
    assert_eq!(dispatch(&mut gate, &data), None);
    assert_eq!(dispatch(&mut gate, &Command::Connected), None);
    assert!(!gate.is_active());
    gate.activate();
    assert_eq!(dispatch(&mut gate, &data), None);
    assert_eq!(dispatch(&mut gate, &Command::Connected), None);
    assert!(gate.is_active());
}
