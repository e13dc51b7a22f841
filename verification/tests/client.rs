use framelink::client::{process_packet, ClientAction, ClientSession, Inbound};
use framelink::codec::encode;
use framelink::session::{HeartbeatConfig, SessionError, SessionState};

fn frame(payload: &[u8]) -> Vec<u8> {
    encode(payload).to_vec()
}

fn sent(frames: Vec<bytes::BytesMut>) -> Vec<Vec<u8>> {
    frames.iter().map(|frame| frame.to_vec()).collect()
}

fn delivered(action: ClientAction) -> Vec<Option<Vec<u8>>> {
    match action {
        ClientAction::Deliver(items) => items
            .into_iter()
            .map(|item| match item {
                Inbound::HeartbeatAck => None,
                Inbound::Data(payload) => Some(payload.to_vec()),
            })
            .collect(),
        other => panic!("expected a delivery, got {:?}", other),
    }
}

#[test]
fn new_client_session_is_active() {
    let session = ClientSession::new(HeartbeatConfig::default(), 9);
    assert_eq!(session.state(), SessionState::Active);
    assert_eq!(session.failure(), None);
    assert_eq!(session.last_heartbeat(), 9);
    assert_eq!(session.buffered_len(), 0);
    assert_eq!(session.config(), HeartbeatConfig::default());
}

#[test]
fn every_round_sends_the_application_message() {
    let mut session = ClientSession::new(HeartbeatConfig::default(), 0);
    assert_eq!(sent(session.begin_round(0)), vec![frame(b"DATA")]);
    assert_eq!(sent(session.begin_round(30_000)), vec![frame(b"DATA")]);
    assert_eq!(session.last_heartbeat(), 0);
}

#[test]
fn a_probe_goes_first_once_the_interval_has_passed() {
    let mut session = ClientSession::new(HeartbeatConfig::default(), 0);
    assert_eq!(sent(session.begin_round(30_001)), vec![frame(b"PING"), frame(b"DATA")]);
    assert_eq!(session.last_heartbeat(), 30_001);
    assert_eq!(sent(session.begin_round(60_001)), vec![frame(b"DATA")]);
    assert_eq!(sent(session.begin_round(60_002)), vec![frame(b"PING"), frame(b"DATA")]);
    assert_eq!(session.last_heartbeat(), 60_002);
}

#[test]
fn pong_is_a_heartbeat_acknowledgement() {
    let mut session = ClientSession::new(HeartbeatConfig::default(), 0);
    let mut input = frame(b"PONG");
    input.extend_from_slice(&frame(b"DATA"));
    input.extend_from_slice(&frame(b"PING"));
    let action = session.on_bytes(&input);
    assert_eq!(
        delivered(action),
        vec![None, Some(b"DATA".to_vec()), Some(b"PING".to_vec())]
    );
    assert_eq!(session.buffered_len(), 0);
}

#[test]
fn client_process_packet_tells_answers_from_data() {
    assert!(matches!(process_packet(bytes::BytesMut::from(&b"PONG"[..])), Inbound::HeartbeatAck));
    match process_packet(bytes::BytesMut::from(&b"hello"[..])) {
        Inbound::Data(payload) => assert_eq!(&payload[..], b"hello"),
        other => panic!("expected data, got {:?}", other),
    }
}

#[test]
fn client_keeps_a_partial_frame_for_the_next_read() {
    let mut session = ClientSession::new(HeartbeatConfig::default(), 0);
    let whole = frame(b"payload");
    assert!(delivered(session.on_bytes(&whole[..3])).is_empty());
    assert_eq!(session.buffered_len(), 3);
    assert_eq!(delivered(session.on_bytes(&whole[3..])), vec![Some(b"payload".to_vec())]);
    assert_eq!(session.buffered_len(), 0);
}

#[test]
fn client_puts_up_with_a_read_timeout() {
    let mut session = ClientSession::new(HeartbeatConfig::default(), 0);
    assert!(matches!(session.on_read_timeout(), ClientAction::Retry));
    assert!(matches!(session.on_read_timeout(), ClientAction::Retry));
    assert_eq!(session.state(), SessionState::Active);
    assert_eq!(sent(session.begin_round(1)), vec![frame(b"DATA")]);
}

#[test]
fn client_clean_close() {
    let mut session = ClientSession::new(HeartbeatConfig::default(), 0);
    assert!(matches!(session.on_bytes(&[]), ClientAction::Close(Ok(()))));
    assert_eq!(session.state(), SessionState::ClosingClean);
    assert_eq!(session.failure(), None);
    assert!(session.begin_round(100_000).is_empty());
    assert!(session.terminate());
    assert!(!session.terminate());
    assert_eq!(session.state(), SessionState::Terminated);
}

#[test]
fn client_transport_error() {
    let mut session = ClientSession::new(HeartbeatConfig::default(), 0);
    assert!(matches!(
        session.on_transport_error(),
        ClientAction::Close(Err(SessionError::Transport))
    ));
    assert_eq!(session.state(), SessionState::ClosingError);
    assert_eq!(session.failure(), Some(SessionError::Transport));
    assert!(matches!(
        session.on_bytes(&frame(b"PONG")),
        ClientAction::Close(Err(SessionError::Transport))
    ));
    assert!(matches!(
        session.on_read_timeout(),
        ClientAction::Close(Err(SessionError::Transport))
    ));
    assert!(session.begin_round(100_000).is_empty());
}
