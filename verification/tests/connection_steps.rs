use bolti::channel::ChannelError;
use bolti::channel::CipherState;
use bolti::channel::FrameStage;
use bolti::channel::FramedCipherChannel;
use bolti::connection::Action;
use bolti::connection::Connection;
use bolti::connection::ConnectionError;
use bolti::connection::HANDSHAKE_READ_TIMEOUT_MS;
use bolti::dispatch::Report;
use bolti::handshake::FailureReason;
use bolti::handshake::HandshakeError;
use bolti::handshake::HandshakeSession;
use bolti::handshake::Phase;
use bolti::keys::EphemeralKeyPair;
use bolti::keys::StaticKeyPair;

const ACT_ONE: &str = "00036360e856310ce5d294e8be33fc807077dc56ac80d95d9cd4ddbd21325eff73f70df6086551151f58b8afe6c195782c6a";
const ACT_TWO: &str = "0002466d7fcae563e5cb09a0d1870bb580344804617879a14949cf22285f1bae3f276e2470b93aac583c9ef6eafca3f730ae";
const ACT_THREE: &str = "00b9e3a702e93e3a9948c2ed6e5fd7590a6e1c3a0344cfc9d5b57357049aa22355361aa02e55a8fc28fef5bd6d71ad0c38228dc68b1c466263b47fdf31e560e139ba";
const PEER: &str = "034f355bdcb7cc0af728ef3cceb9615d90684bb5b2ca5f859ab0f0b704075871aa";

fn unhex(hex_text: &str) -> Vec<u8> {
    hex::decode(hex_text).unwrap()
}

fn keys() -> (StaticKeyPair, EphemeralKeyPair) {
    (
        StaticKeyPair::generate([0x21; 32]).unwrap(),
        EphemeralKeyPair::generate([0x22; 32]).unwrap(),
    )
}

fn initiator_side() -> FramedCipherChannel {
    let mut sending = [0u8; 32];
    sending.copy_from_slice(&unhex("969ab31b4d288cedf6218839b27a3e2140827047f2c0f01bf5c04435d43511a9"));
    let mut receiving = [0u8; 32];
    receiving.copy_from_slice(&unhex("bb9020b8965f4df047e07f955f3c4b88418984aadc5cdb35096b9ea8fa5c3442"));
    let mut chaining = [0u8; 32];
    chaining.copy_from_slice(&unhex("919219dbb2920afa8db80f9a51787a840bcf111ed8d588caf9ab4be716e42b01"));
    FramedCipherChannel::new(
        CipherState::new(receiving, chaining),
        CipherState::new(sending, chaining),
    )
}

fn established() -> (Connection, StaticKeyPair) {
    let (local, ephemeral) = keys();
    let mut connection = Connection::accept(&local, ephemeral);
    match connection.on_bytes(&local, &unhex(ACT_ONE)) {
        Action::Send { bytes } => assert_eq!(bytes, unhex(ACT_TWO)),
        _ => panic!("act two expected"),
    }
    match connection.on_bytes(&local, &unhex(ACT_THREE)) {
        Action::Established { peer } => assert_eq!(peer.to_vec(), unhex(PEER)),
        _ => panic!("established expected"),
    }
    (connection, local)
}

fn dropped(action: Action) -> ConnectionError {
    match action {
        Action::Drop { error } => error,
        _ => panic!("drop expected"),
    }
}

#[test]
fn a_connection_asks_for_each_part_in_turn() {
    let (local, ephemeral) = keys();
    let mut connection = Connection::accept(&local, ephemeral);
    assert_eq!(connection.phase(), Phase::AwaitingAct1);
    assert_eq!(connection.wanted(), 50);
    assert_eq!(connection.read_timeout_ms(), Some(HANDSHAKE_READ_TIMEOUT_MS));
    assert_eq!(HANDSHAKE_READ_TIMEOUT_MS, 10000);
    assert_eq!(connection.peer(), None);

    connection.on_bytes(&local, &unhex(ACT_ONE));
    assert_eq!(connection.phase(), Phase::AwaitingAct3);
    assert_eq!(connection.wanted(), 66);
    assert_eq!(connection.read_timeout_ms(), Some(10000));

    connection.on_bytes(&local, &unhex(ACT_THREE));
    assert_eq!(connection.phase(), Phase::Established);
    assert_eq!(connection.wanted(), 18);
    assert_eq!(connection.read_timeout_ms(), None);
    assert_eq!(connection.stage(), FrameStage::AwaitingHeader);
    assert_eq!(connection.peer().unwrap().to_vec(), unhex(PEER));
}

#[test]
fn an_established_connection_delivers_reports() {
    let (mut connection, local) = established();
    let mut peer = initiator_side();

    let frame = peer.encrypt_message(&[0x00, 0x10, 0x00, 0x00, 0x00, 0x01, 0x0a]).unwrap();
    match connection.on_bytes(&local, &frame[..18]) {
        Action::Continue => {}
        _ => panic!("continue expected"),
    }
    assert_eq!(connection.wanted(), 7 + 16);
    assert_eq!(connection.stage(), FrameStage::AwaitingBody { length: 7 });
    match connection.on_bytes(&local, &frame[18..]) {
        Action::Deliver { report } => assert_eq!(
            report.render(),
            "\ninit:\n  supports_data_loss_protect: true\n  requires_data_loss_protect: false\n  initial_routing_sync: true\n  supports_upfront_shutdown_script: false\n  requires_upfront_shutdown_script: false"
        ),
        _ => panic!("report expected"),
    }
    assert_eq!(connection.wanted(), 18);

    let frame = peer.encrypt_message(&[0x27, 0x0f]).unwrap();
    connection.on_bytes(&local, &frame[..18]);
    match connection.on_bytes(&local, &frame[18..]) {
        Action::Deliver { report } => assert_eq!(report, Report::Unrecognized { type_id: 9999 }),
        _ => panic!("report expected"),
    }
    assert_eq!(connection.wanted(), 18);
}

#[test]
fn a_malformed_message_does_not_touch_the_channel() {
    let (mut connection, local) = established();
    let mut peer = initiator_side();
    let frame = peer.encrypt_message(&[0x00, 0x10, 0x00]).unwrap();
    connection.on_bytes(&local, &frame[..18]);
    match connection.on_bytes(&local, &frame[18..]) {
        Action::Deliver { report } => {
            assert_eq!(report, Report::MalformedInit { reason: "ShortRead".to_string() })
        }
        _ => panic!("report expected"),
    }
    assert_eq!(connection.stage(), FrameStage::AwaitingHeader);
    let frame = peer.encrypt_message(&[0x00, 0x11]).unwrap();
    connection.on_bytes(&local, &frame[..18]);
    match connection.on_bytes(&local, &frame[18..]) {
        Action::Deliver { report } => assert_eq!(report, Report::Unrecognized { type_id: 17 }),
        _ => panic!("report expected"),
    }
}

#[test]
fn a_bad_act_drops_the_connection() {
    let (local, ephemeral) = keys();
    let mut connection = Connection::accept(&local, ephemeral);
    let mut act = unhex(ACT_ONE);
    act[49] ^= 0x40;
    let error = dropped(connection.on_bytes(&local, &act));
    assert_eq!(
        error,
        ConnectionError::Handshake(HandshakeError {
            act: 1,
            reason: FailureReason::AuthenticationFailed
        })
    );
    assert_eq!(connection.phase(), Phase::Failed);
    assert_eq!(connection.wanted(), 0);
    assert_eq!(connection.read_timeout_ms(), None);

    let error = dropped(connection.on_bytes(&local, &unhex(ACT_ONE)));
    assert_eq!(
        error,
        ConnectionError::Handshake(HandshakeError { act: 1, reason: FailureReason::OutOfOrder })
    );
}

#[test]
fn a_bad_frame_drops_the_connection() {
    let (mut connection, local) = established();
    let mut peer = initiator_side();
    let mut frame = peer.encrypt_message(b"hello").unwrap();
    frame[0] ^= 1;
    let error = dropped(connection.on_bytes(&local, &frame[..18]));
    assert_eq!(error, ConnectionError::Channel(ChannelError::AuthenticationFailed));
    assert_eq!(connection.stage(), FrameStage::Closed);
    assert_eq!(connection.wanted(), 0);
    let error = dropped(connection.on_bytes(&local, &frame[..18]));
    assert_eq!(error, ConnectionError::Channel(ChannelError::Closed));
}

#[test]
fn teardown_in_the_middle_of_a_frame_leaves_nothing() {
    let (mut connection, local) = established();
    let mut peer = initiator_side();
    let frame = peer.encrypt_message(b"hello").unwrap();
    connection.on_bytes(&local, &frame[..18]);
    assert_eq!(connection.stage(), FrameStage::AwaitingBody { length: 5 });

    connection.teardown(FailureReason::ConnectionClosed);
    assert_eq!(connection.stage(), FrameStage::Closed);
    assert_eq!(connection.wanted(), 0);
    assert_eq!(connection.phase(), Phase::Established);
    let error = dropped(connection.on_bytes(&local, &frame[18..]));
    assert_eq!(error, ConnectionError::Channel(ChannelError::Closed));

    let (_, ephemeral) = keys();
    let mut next = Connection::accept(&local, ephemeral);
    assert_eq!(next.phase(), Phase::AwaitingAct1);
    assert_eq!(next.wanted(), 50);
    match next.on_bytes(&local, &unhex(ACT_ONE)) {
        Action::Send { bytes } => assert_eq!(bytes, unhex(ACT_TWO)),
        _ => panic!("act two expected"),
    }
}

#[test]
fn teardown_in_the_middle_of_a_handshake_fails_it() {
    let (local, ephemeral) = keys();
    let mut connection = Connection::accept(&local, ephemeral);
    connection.on_bytes(&local, &unhex(ACT_ONE));
    connection.teardown(FailureReason::Timeout);
    assert_eq!(connection.phase(), Phase::Failed);
    assert_eq!(connection.wanted(), 0);
    let error = dropped(connection.on_bytes(&local, &unhex(ACT_THREE)));
    assert_eq!(
        error,
        ConnectionError::Handshake(HandshakeError { act: 1, reason: FailureReason::OutOfOrder })
    );
}

#[test]
fn abort_names_the_act_that_was_awaited() {
    let (local, ephemeral) = keys();
    let mut session = HandshakeSession::new();
    session.abort(FailureReason::ConnectionClosed);
    assert_eq!(
        session.failure(),
        Some(HandshakeError { act: 0, reason: FailureReason::ConnectionClosed })
    );

    let mut session = HandshakeSession::new();
    session.start(&local, ephemeral).unwrap();
    session.abort(FailureReason::Timeout);
    assert_eq!(
        session.failure(),
        Some(HandshakeError { act: 1, reason: FailureReason::Timeout })
    );
    session.abort(FailureReason::ConnectionClosed);
    assert_eq!(
        session.failure(),
        Some(HandshakeError { act: 1, reason: FailureReason::Timeout })
    );

    let (_, ephemeral) = keys();
    let mut session = HandshakeSession::new();
    session.start(&local, ephemeral).unwrap();
    session.receive_act_one(&local, &unhex(ACT_ONE)).unwrap();
    session.abort(FailureReason::ConnectionClosed);
    assert_eq!(
        session.failure(),
        Some(HandshakeError { act: 3, reason: FailureReason::ConnectionClosed })
    );
}

#[test]
fn handshake_failures_have_their_own_lines() {
    let line = |act, reason| HandshakeError { act, reason }.describe();
    assert_eq!(
        line(1, FailureReason::AuthenticationFailed),
        "responder handshake failed in act 1: authentication tag mismatch"
    );
    assert_eq!(
        line(3, FailureReason::BadLength),
        "responder handshake failed in act 3: unexpected length"
    );
    assert_eq!(
        line(1, FailureReason::UnsupportedVersion),
        "responder handshake failed in act 1: unsupported version"
    );
    assert_eq!(
        line(2, FailureReason::InvalidKey),
        "responder handshake failed in act 2: invalid public key"
    );
    assert_eq!(
        line(0, FailureReason::OutOfOrder),
        "responder handshake failed in act 0: step out of order"
    );
    assert_eq!(
        line(3, FailureReason::ConnectionClosed),
        "responder handshake failed in act 3: connection closed"
    );
    assert_eq!(
        line(1, FailureReason::Timeout),
        "responder handshake failed in act 1: read timed out"
    );
}
