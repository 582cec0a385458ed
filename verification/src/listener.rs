//! The listener's handshake: a challenge, its echo, and an identity claim.
//!
//! The server sends a random word. A peer that sends the same word back and
//! then a word for the identity it claims is accepted; any other peer is
//! abandoned without a word.

use crate::chance::random_u64;
use crate::codec::{decode_word, encode_word, word_bytes, word_value, WORD_LEN};
use crate::connection::UID;
use vstd::prelude::*;

verus! {

/// Where a handshake stands.
#[derive(Debug, Clone, Copy, PartialEq, Eq, Structural)]
pub enum HandshakePhase {
    /// The challenge is out and its echo is awaited.
    AwaitingEcho,
    /// The echo was right and the identity claim is awaited.
    AwaitingIdentity,
    /// The peer is accepted under this identity.
    Accepted { uid: UID },
    /// The peer is abandoned.
    Abandoned,
}

/// The state of a handshake.
#[derive(Debug, Clone, Copy, PartialEq, Eq, Structural)]
pub struct Handshake {
    pub challenge: u64,
    pub phase: HandshakePhase,
}

/// What happens in a handshake.
#[derive(Debug, Clone, PartialEq, Eq)]
pub enum HandshakeEvent {
    /// The peer has sent these bytes.
    Received(Vec<u8>),
    /// The socket failed or was closed.
    Failed,
}

/// A `HandshakeEvent` with its bytes as a sequence.
pub enum HandshakeEventView {
    Received(Seq<u8>),
    Failed,
}

impl View for HandshakeEvent {
    type V = HandshakeEventView;

    open spec fn view(&self) -> HandshakeEventView {
        match *self {
            HandshakeEvent::Received(bytes) => HandshakeEventView::Received(bytes@),
            HandshakeEvent::Failed => HandshakeEventView::Failed,
        }
    }
}

/// What the listener is to do next.
#[derive(Debug, Clone, Copy, PartialEq, Eq, Structural)]
pub enum HandshakeAction {
    /// Read the eight bytes of the identity claim.
    ReadIdentity,
    /// Hand the connection to the router, under this identity.
    Accept(UID),
    /// Drop the socket, and tell nobody.
    Abandon,
    /// The handshake has ended before: there is nothing to do.
    Nothing,
}

/// Whether `bytes` is the word `word` as it travels.
pub open spec fn spells_word(bytes: Seq<u8>, word: u64) -> bool {
    bytes.len() == WORD_LEN && word_value(bytes) == word
}

/// The rule of the handshake: its state after an event, and what the
/// listener is to do.
///
/// The echo has to be the challenge, byte for byte; the identity claim has to
/// be one word. Anything else, and a failure of the socket, abandons the
/// peer. A handshake that has ended stays as it is.
pub open spec fn handshake_step(h: Handshake, event: HandshakeEventView) -> (
    Handshake,
    HandshakeAction,
) {
    match h.phase {
        HandshakePhase::AwaitingEcho => match event {
            HandshakeEventView::Received(bytes) => if spells_word(bytes, h.challenge) {
                (
                    Handshake { phase: HandshakePhase::AwaitingIdentity, ..h },
                    HandshakeAction::ReadIdentity,
                )
            } else {
                (Handshake { phase: HandshakePhase::Abandoned, ..h }, HandshakeAction::Abandon)
            },
            HandshakeEventView::Failed => (
                Handshake { phase: HandshakePhase::Abandoned, ..h },
                HandshakeAction::Abandon,
            ),
        },
        HandshakePhase::AwaitingIdentity => match event {
            HandshakeEventView::Received(bytes) => if bytes.len() == WORD_LEN {
                (
                    Handshake { phase: HandshakePhase::Accepted { uid: word_value(bytes) }, ..h },
                    HandshakeAction::Accept(word_value(bytes)),
                )
            } else {
                (Handshake { phase: HandshakePhase::Abandoned, ..h }, HandshakeAction::Abandon)
            },
            HandshakeEventView::Failed => (
                Handshake { phase: HandshakePhase::Abandoned, ..h },
                HandshakeAction::Abandon,
            ),
        },
        HandshakePhase::Accepted { .. } => (h, HandshakeAction::Nothing),
        HandshakePhase::Abandoned => (h, HandshakeAction::Nothing),
    }
}

impl Handshake {
    /// A handshake with the given challenge.
    pub fn with_challenge(challenge: u64) -> (h: Handshake)
        ensures
            h == (Handshake { challenge, phase: HandshakePhase::AwaitingEcho }),
    {
        Handshake { challenge, phase: HandshakePhase::AwaitingEcho }
    }

    /// A handshake with a challenge drawn at random.
    pub fn begin() -> (h: Handshake)
        ensures
            h.phase == HandshakePhase::AwaitingEcho,
    {
        Handshake::with_challenge(random_u64())
    }

    /// The challenge as it is sent.
    pub fn challenge_bytes(&self) -> (bytes: Vec<u8>)
        ensures
            bytes@ == word_bytes(self.challenge),
    {
        encode_word(self.challenge)
    }

    /// Takes one event and says what to do next.
    pub fn step(&mut self, event: HandshakeEvent) -> (action: HandshakeAction)
        ensures
            (*final(self), action) == handshake_step(*old(self), event@),
    {
        match self.phase {
            HandshakePhase::AwaitingEcho => {
                let echoed = match event {
                    HandshakeEvent::Received(bytes) => match decode_word(bytes.as_slice()) {
                        Some(word) => word == self.challenge,
                        None => false,
                    },
                    HandshakeEvent::Failed => false,
                };
                if echoed {
                    self.phase = HandshakePhase::AwaitingIdentity;
                    HandshakeAction::ReadIdentity
                } else {
                    self.phase = HandshakePhase::Abandoned;
                    HandshakeAction::Abandon
                }
            },
            HandshakePhase::AwaitingIdentity => {
                let claim = match event {
                    HandshakeEvent::Received(bytes) => decode_word(bytes.as_slice()),
                    HandshakeEvent::Failed => None,
                };
                match claim {
                    Some(uid) => {
                        self.phase = HandshakePhase::Accepted { uid };
                        HandshakeAction::Accept(uid)
                    },
                    None => {
                        self.phase = HandshakePhase::Abandoned;
                        HandshakeAction::Abandon
                    },
                }
            },
            HandshakePhase::Accepted { .. } => HandshakeAction::Nothing,
            HandshakePhase::Abandoned => HandshakeAction::Nothing,
        }
    }
}

/// Eight bytes spell a word exactly when they are the bytes of that word:
/// an echo passes only if it repeats the challenge byte for byte.
pub proof fn lemma_echo_is_exact(bytes: Seq<u8>, word: u64)
    ensures
        spells_word(bytes, word) <==> bytes == word_bytes(word),
{
    if bytes.len() == WORD_LEN {
        let b0 = bytes[0];
        let b1 = bytes[1];
        let b2 = bytes[2];
        let b3 = bytes[3];
        let b4 = bytes[4];
        let b5 = bytes[5];
        let b6 = bytes[6];
        let b7 = bytes[7];
        let w = word_value(bytes);
        assert(((w >> 56) & 0xff) as u8 == b0 && ((w >> 48) & 0xff) as u8 == b1 && ((w >> 40)
            & 0xff) as u8 == b2 && ((w >> 32) & 0xff) as u8 == b3 && ((w >> 24) & 0xff) as u8 == b4
            && ((w >> 16) & 0xff) as u8 == b5 && ((w >> 8) & 0xff) as u8 == b6 && (w & 0xff) as u8
            == b7) by (bit_vector)
            requires
                w == (b0 as u64) << 56 | (b1 as u64) << 48 | (b2 as u64) << 40 | (b3 as u64) << 32
                    | (b4 as u64) << 24 | (b5 as u64) << 16 | (b6 as u64) << 8 | (b7 as u64),
        ;
        assert(word_bytes(w) =~= bytes);
    }
    crate::codec::lemma_word_round_trip(word);
}

/// A peer is accepted only after the right echo and a claim of one word, and
/// then under the identity that it claimed; the outcome of a handshake, once
/// reached, does not change.
pub proof fn lemma_handshake_outcome(
    challenge: u64,
    echo: HandshakeEventView,
    claim: HandshakeEventView,
    later: HandshakeEventView,
)
    ensures
        ({
            let start = Handshake { challenge, phase: HandshakePhase::AwaitingEcho };
            let (second, _) = handshake_step(start, echo);
            let (third, action) = handshake_step(second, claim);
            let accepted = echo == HandshakeEventView::Received(word_bytes(challenge))
                && claim is Received && claim->Received_0.len() == WORD_LEN;
            &&& accepted ==> third.phase == (HandshakePhase::Accepted {
                uid: word_value(claim->Received_0),
            }) && action == HandshakeAction::Accept(word_value(claim->Received_0))
            &&& !accepted ==> third.phase == HandshakePhase::Abandoned
            &&& handshake_step(third, later) == (third, HandshakeAction::Nothing)
        }),
{
    match echo {
        HandshakeEventView::Received(e) => {
            lemma_echo_is_exact(e, challenge);
        },
        _ => {},
    }
}

} // verus!
