use bolti::channel::CipherState;
use bolti::handshake::FailureReason;
use bolti::handshake::HandshakeError;
use bolti::handshake::HandshakeSession;
use bolti::handshake::Phase;
use bolti::keys::EphemeralKeyPair;
use bolti::keys::StaticKeyPair;

const ACT_ONE: &str = "00036360e856310ce5d294e8be33fc807077dc56ac80d95d9cd4ddbd21325eff73f70df6086551151f58b8afe6c195782c6a";
const ACT_TWO: &str = "0002466d7fcae563e5cb09a0d1870bb580344804617879a14949cf22285f1bae3f276e2470b93aac583c9ef6eafca3f730ae";
const ACT_THREE: &str = "00b9e3a702e93e3a9948c2ed6e5fd7590a6e1c3a0344cfc9d5b57357049aa22355361aa02e55a8fc28fef5bd6d71ad0c38228dc68b1c466263b47fdf31e560e139ba";

fn bytes(hex_text: &str) -> Vec<u8> {
    hex::decode(hex_text).unwrap()
}

fn responder() -> (StaticKeyPair, EphemeralKeyPair) {
    let local = StaticKeyPair::generate([0x21; 32]).unwrap();
    let ephemeral = EphemeralKeyPair::generate([0x22; 32]).unwrap();
    (local, ephemeral)
}

fn after_act_two() -> HandshakeSession {
    let (local, ephemeral) = responder();
    let mut session = HandshakeSession::new();
    session.start(&local, ephemeral).unwrap();
    let reply = session.receive_act_one(&local, &bytes(ACT_ONE)).unwrap();
    assert_eq!(reply, bytes(ACT_TWO));
    session
}

fn failed(act: u8, reason: FailureReason) -> HandshakeError {
    HandshakeError { act, reason }
}

#[test]
fn responder_keys_match_the_published_points() {
    let (local, ephemeral) = responder();
    assert_eq!(
        local.node_id().to_vec(),
        bytes("028d7500dd4c12685d1f568b4c2b5048e8534b873319f3a8daa612b469132ec7f7")
    );
    assert_eq!(
        ephemeral.public_bytes().to_vec(),
        bytes("02466d7fcae563e5cb09a0d1870bb580344804617879a14949cf22285f1bae3f27")
    );
    assert_eq!(
        local.node_id_hex(),
        "028d7500dd4c12685d1f568b4c2b5048e8534b873319f3a8daa612b469132ec7f7"
    );
}

#[test]
fn zero_entropy_is_not_a_key() {
    assert!(StaticKeyPair::generate([0; 32]).is_none());
    assert!(EphemeralKeyPair::generate([0; 32]).is_none());
    assert!(StaticKeyPair::generate([0xff; 32]).is_none());
}

#[test]
fn responder_completes_the_published_handshake() {
    let mut session = after_act_two();
    assert_eq!(session.phase(), Phase::AwaitingAct3);
    let (keys, peer) = session.receive_act_three(&bytes(ACT_THREE)).unwrap();
    assert_eq!(session.phase(), Phase::Established);
    assert_eq!(
        peer.to_vec(),
        bytes("034f355bdcb7cc0af728ef3cceb9615d90684bb5b2ca5f859ab0f0b704075871aa")
    );
    assert_eq!(session.remote_static(), Some(peer));
    assert_eq!(
        keys.receive.key().to_vec(),
        bytes("969ab31b4d288cedf6218839b27a3e2140827047f2c0f01bf5c04435d43511a9")
    );
    assert_eq!(
        keys.send.key().to_vec(),
        bytes("bb9020b8965f4df047e07f955f3c4b88418984aadc5cdb35096b9ea8fa5c3442")
    );
    let chaining = bytes("919219dbb2920afa8db80f9a51787a840bcf111ed8d588caf9ab4be716e42b01");
    assert_eq!(keys.receive.chaining_key().to_vec(), chaining);
    assert_eq!(keys.send.chaining_key().to_vec(), chaining);
    assert_eq!(keys.receive.nonce(), 0);
    assert_eq!(keys.send.nonce(), 0);
}

#[test]
fn session_walks_the_phases_in_order() {
    let (local, ephemeral) = responder();
    let mut session = HandshakeSession::new();
    assert_eq!(session.phase(), Phase::Start);
    assert_eq!(session.failure(), None);
    assert_eq!(session.start(&local, ephemeral), Ok(()));
    assert_eq!(session.phase(), Phase::AwaitingAct1);
    session.receive_act_one(&local, &bytes(ACT_ONE)).unwrap();
    assert_eq!(session.phase(), Phase::AwaitingAct3);
    assert_eq!(session.remote_static(), None);
}

#[test]
fn act_one_with_a_bad_version_fails() {
    let (local, ephemeral) = responder();
    let mut session = HandshakeSession::new();
    session.start(&local, ephemeral).unwrap();
    let act = bytes("01036360e856310ce5d294e8be33fc807077dc56ac80d95d9cd4ddbd21325eff73f70df6086551151f58b8afe6c195782c6a");
    let error = session.receive_act_one(&local, &act).unwrap_err();
    assert_eq!(error, failed(1, FailureReason::UnsupportedVersion));
    assert_eq!(session.phase(), Phase::Failed);
    assert_eq!(session.failure(), Some(error));
}

#[test]
fn act_one_with_a_bad_key_fails() {
    let (local, ephemeral) = responder();
    let mut session = HandshakeSession::new();
    session.start(&local, ephemeral).unwrap();
    let act = bytes("00046360e856310ce5d294e8be33fc807077dc56ac80d95d9cd4ddbd21325eff73f70df6086551151f58b8afe6c195782c6a");
    let error = session.receive_act_one(&local, &act).unwrap_err();
    assert_eq!(error, failed(1, FailureReason::InvalidKey));
    assert_eq!(session.phase(), Phase::Failed);
}

#[test]
fn act_one_with_a_bad_tag_fails() {
    let (local, ephemeral) = responder();
    let mut session = HandshakeSession::new();
    session.start(&local, ephemeral).unwrap();
    let act = bytes("00036360e856310ce5d294e8be33fc807077dc56ac80d95d9cd4ddbd21325eff73f70df6086551151f58b8afe6c195782c6b");
    let error = session.receive_act_one(&local, &act).unwrap_err();
    assert_eq!(error, failed(1, FailureReason::AuthenticationFailed));
    assert_eq!(session.phase(), Phase::Failed);
}

#[test]
fn every_tampered_tag_byte_of_act_one_fails() {
    for position in 34..50 {
        for flip in [0x01u8, 0x80u8] {
            let (local, ephemeral) = responder();
            let mut act = bytes(ACT_ONE);
            act[position] ^= flip;
            let mut session = HandshakeSession::new();
            session.start(&local, ephemeral).unwrap();
            let error = session.receive_act_one(&local, &act).unwrap_err();
            assert_eq!(error, failed(1, FailureReason::AuthenticationFailed));
            assert_eq!(session.phase(), Phase::Failed);
        }
    }
}

#[test]
fn every_tampered_tag_byte_of_act_three_fails() {
    for position in 34..66 {
        let mut act = bytes(ACT_THREE);
        act[position] ^= 0x01;
        let mut session = after_act_two();
        let error = session.receive_act_three(&act).err().unwrap();
        assert_eq!(error, failed(3, FailureReason::AuthenticationFailed));
        assert_eq!(session.phase(), Phase::Failed);
        assert_eq!(session.remote_static(), None);
        let retry = session.receive_act_three(&bytes(ACT_THREE)).err().unwrap();
        assert_eq!(retry, failed(3, FailureReason::OutOfOrder));
        assert_eq!(session.phase(), Phase::Failed);
        assert_eq!(session.failure(), Some(error));
    }
}

#[test]
fn act_one_of_the_wrong_length_fails() {
    let (local, ephemeral) = responder();
    let mut session = HandshakeSession::new();
    session.start(&local, ephemeral).unwrap();
    let act = bytes(ACT_ONE);
    let error = session.receive_act_one(&local, &act[..49]).unwrap_err();
    assert_eq!(error, failed(1, FailureReason::BadLength));
    assert_eq!(session.phase(), Phase::Failed);
}

#[test]
fn act_three_with_a_bad_version_fails() {
    let mut session = after_act_two();
    let act = bytes("01b9e3a702e93e3a9948c2ed6e5fd7590a6e1c3a0344cfc9d5b57357049aa22355361aa02e55a8fc28fef5bd6d71ad0c38228dc68b1c466263b47fdf31e560e139ba");
    let error = session.receive_act_three(&act).err().unwrap();
    assert_eq!(error, failed(3, FailureReason::UnsupportedVersion));
}

#[test]
fn act_three_with_a_bad_ciphertext_fails() {
    let mut session = after_act_two();
    let act = bytes("00c9e3a702e93e3a9948c2ed6e5fd7590a6e1c3a0344cfc9d5b57357049aa22355361aa02e55a8fc28fef5bd6d71ad0c38228dc68b1c466263b47fdf31e560e139ba");
    let error = session.receive_act_three(&act).err().unwrap();
    assert_eq!(error, failed(3, FailureReason::AuthenticationFailed));
}

#[test]
fn act_three_with_a_bad_static_key_fails() {
    let mut session = after_act_two();
    let act = bytes("00bfe3a702e93e3a9948c2ed6e5fd7590a6e1c3a0344cfc9d5b57357049aa2235536ad09a8ee351870c2bb7f78b754a26c6cef79a98d25139c856d7efd252c2ae73c");
    let error = session.receive_act_three(&act).err().unwrap();
    assert_eq!(error, failed(3, FailureReason::InvalidKey));
}

#[test]
fn act_three_with_a_bad_final_tag_fails() {
    let mut session = after_act_two();
    let act = bytes("00b9e3a702e93e3a9948c2ed6e5fd7590a6e1c3a0344cfc9d5b57357049aa22355361aa02e55a8fc28fef5bd6d71ad0c38228dc68b1c466263b47fdf31e560e139bb");
    let error = session.receive_act_three(&act).err().unwrap();
    assert_eq!(error, failed(3, FailureReason::AuthenticationFailed));
    assert_eq!(session.phase(), Phase::Failed);
}

#[test]
fn act_three_of_the_wrong_length_fails() {
    let mut session = after_act_two();
    let act = bytes(ACT_THREE);
    let error = session.receive_act_three(&act[..65]).err().unwrap();
    assert_eq!(error, failed(3, FailureReason::BadLength));
}

#[test]
fn steps_out_of_order_fail() {
    let (local, ephemeral) = responder();
    let mut session = HandshakeSession::new();
    let error = session.receive_act_one(&local, &bytes(ACT_ONE)).unwrap_err();
    assert_eq!(error, failed(1, FailureReason::OutOfOrder));
    assert_eq!(session.phase(), Phase::Failed);

    let mut session = HandshakeSession::new();
    session.start(&local, ephemeral).unwrap();
    let error = session.receive_act_three(&bytes(ACT_THREE)).err().unwrap();
    assert_eq!(error, failed(3, FailureReason::OutOfOrder));

    let (local, ephemeral) = responder();
    let (_, second) = responder();
    let mut session = HandshakeSession::new();
    session.start(&local, ephemeral).unwrap();
    assert_eq!(session.start(&local, second), Err(failed(0, FailureReason::OutOfOrder)));
    assert_eq!(session.phase(), Phase::Failed);
}

#[test]
fn a_failed_session_stays_failed() {
    let (local, ephemeral) = responder();
    let mut session = HandshakeSession::new();
    session.start(&local, ephemeral).unwrap();
    let act = bytes(ACT_ONE);
    let first = session.receive_act_one(&local, &act[..10]).unwrap_err();
    assert_eq!(first, failed(1, FailureReason::BadLength));
    let error = session.receive_act_one(&local, &act).unwrap_err();
    assert_eq!(error, failed(1, FailureReason::OutOfOrder));
    assert_eq!(session.phase(), Phase::Failed);
    assert_eq!(session.failure(), Some(first));
    let error = session.receive_act_three(&bytes(ACT_THREE)).err().unwrap();
    assert_eq!(error, failed(3, FailureReason::OutOfOrder));
    assert_eq!(session.failure(), Some(first));
    let (_, again) = responder();
    assert_eq!(session.start(&local, again), Err(failed(0, FailureReason::OutOfOrder)));
    assert_eq!(session.failure(), Some(first));
}

#[test]
fn a_fresh_direction_starts_at_zero() {
    let state = CipherState::new([7; 32], [9; 32]);
    assert_eq!(state.nonce(), 0);
    assert_eq!(state.key(), [7; 32]);
    assert_eq!(state.chaining_key(), [9; 32]);
    let erased = CipherState::erased();
    assert_eq!(erased.key(), [0; 32]);
    assert_eq!(erased.chaining_key(), [0; 32]);
    assert_eq!(erased.nonce(), 0);
}
