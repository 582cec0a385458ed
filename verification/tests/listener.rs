use convos::listener::{Handshake, HandshakeAction, HandshakeEvent, HandshakePhase};

fn received(bytes: &[u8]) -> HandshakeEvent {
    HandshakeEvent::Received(bytes.to_vec())
}

#[test]
fn the_challenge_is_sent_big_endian() {
    let h = Handshake::with_challenge(0x0102_0304_0506_0708);
    assert_eq!(h.challenge_bytes(), vec![1u8, 2, 3, 4, 5, 6, 7, 8]);
    assert_eq!(h.phase, HandshakePhase::AwaitingEcho);
}

#[test]
fn a_handshake_begins_by_waiting_for_the_echo() {
    let h = Handshake::begin();
    assert_eq!(h.phase, HandshakePhase::AwaitingEcho);
    assert_eq!(h.challenge_bytes(), h.challenge.to_be_bytes().to_vec());
}

#[test]
fn echo_and_claim_are_accepted() {
    let mut h = Handshake::with_challenge(99);
    let echo = h.challenge_bytes();
    assert_eq!(h.step(HandshakeEvent::Received(echo)), HandshakeAction::ReadIdentity);
    assert_eq!(h.phase, HandshakePhase::AwaitingIdentity);
    assert_eq!(h.step(received(&[0; 8])), HandshakeAction::Accept(0));
    assert_eq!(h.phase, HandshakePhase::Accepted { uid: 0 });
}

#[test]
fn the_claimed_identity_is_read_big_endian() {
    let mut h = Handshake::with_challenge(1);
    h.step(received(&[0, 0, 0, 0, 0, 0, 0, 1]));
    assert_eq!(h.step(received(&[0, 0, 0, 0, 0, 0, 1, 2])), HandshakeAction::Accept(258));
}

#[test]
fn a_wrong_echo_is_abandoned() {
    let mut h = Handshake::with_challenge(99);
    assert_eq!(h.step(received(&[0, 0, 0, 0, 0, 0, 0, 98])), HandshakeAction::Abandon);
    assert_eq!(h.phase, HandshakePhase::Abandoned);
    let mut h = Handshake::with_challenge(99);
    assert_eq!(h.step(received(&[99, 0, 0, 0, 0, 0, 0, 0])), HandshakeAction::Abandon);
}

#[test]
fn an_echo_of_the_wrong_length_is_abandoned() {
    let mut h = Handshake::with_challenge(0);
    assert_eq!(h.step(received(&[0; 7])), HandshakeAction::Abandon);
    let mut h = Handshake::with_challenge(0);
    assert_eq!(h.step(received(&[0; 9])), HandshakeAction::Abandon);
    let mut h = Handshake::with_challenge(0);
    assert_eq!(h.step(received(&[])), HandshakeAction::Abandon);
}

#[test]
fn a_claim_of_the_wrong_length_is_abandoned() {
    let mut h = Handshake::with_challenge(5);
    h.step(received(&5u64.to_be_bytes()));
    assert_eq!(h.step(received(&[0; 4])), HandshakeAction::Abandon);
    assert_eq!(h.phase, HandshakePhase::Abandoned);
}

#[test]
fn a_failing_socket_is_abandoned() {
    let mut h = Handshake::with_challenge(5);
    assert_eq!(h.step(HandshakeEvent::Failed), HandshakeAction::Abandon);
    let mut h = Handshake::with_challenge(5);
    h.step(received(&5u64.to_be_bytes()));
    assert_eq!(h.step(HandshakeEvent::Failed), HandshakeAction::Abandon);
}

#[test]
fn a_handshake_that_has_ended_stays_as_it_is() {
    let mut h = Handshake::with_challenge(5);
    h.step(received(&5u64.to_be_bytes()));
    h.step(received(&7u64.to_be_bytes()));
    let accepted = h;
    assert_eq!(h.step(received(&9u64.to_be_bytes())), HandshakeAction::Nothing);
    assert_eq!(h.step(HandshakeEvent::Failed), HandshakeAction::Nothing);
    assert_eq!(h, accepted);
    let mut h = Handshake::with_challenge(5);
    h.step(HandshakeEvent::Failed);
    assert_eq!(h.step(received(&5u64.to_be_bytes())), HandshakeAction::Nothing);
    assert_eq!(h.phase, HandshakePhase::Abandoned);
}
