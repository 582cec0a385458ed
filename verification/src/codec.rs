//! The wire format: big-endian handshake words and length-prefixed frames.
//!
//! A frame is a two-byte big-endian length followed by that many bytes of
//! payload. What the payload means is not decided here.

use vstd::prelude::*;

verus! {

/// The longest payload whose length fits the two-byte prefix.
pub const MAX_PAYLOAD: usize = 65535;

/// The bytes of a frame before its payload.
pub const PREFIX_LEN: usize = 2;

/// The bytes of a handshake word.
pub const WORD_LEN: usize = 8;

/// Why a payload could not be framed.
#[derive(Debug, Clone, Copy, PartialEq, Eq, Structural)]
pub enum EncodeError {
    /// The payload is longer than `MAX_PAYLOAD`.
    PayloadTooLong,
}

/// Why bytes are not a frame.
#[derive(Debug, Clone, Copy, PartialEq, Eq, Structural)]
pub enum DecodeError {
    /// Fewer bytes than a length prefix.
    MissingLength,
    /// The bytes after the prefix are not as many as the prefix says.
    LengthMismatch,
}

/// The number that a two-byte big-endian prefix stands for.
pub open spec fn prefix_value(hi: u8, lo: u8) -> nat {
    (hi as nat) * 256 + (lo as nat)
}

/// The frame that carries `payload`.
pub open spec fn frame_of(payload: Seq<u8>) -> Seq<u8>
    recommends
        payload.len() <= MAX_PAYLOAD,
{
    seq![(payload.len() / 256) as u8, (payload.len() % 256) as u8] + payload
}

/// Whether `bytes` is a frame: a prefix, then as many bytes as it says.
pub open spec fn is_frame(bytes: Seq<u8>) -> bool {
    bytes.len() >= PREFIX_LEN && bytes.len() - PREFIX_LEN == prefix_value(bytes[0], bytes[1])
}

/// What a frame carries.
pub open spec fn payload_of(frame: Seq<u8>) -> Seq<u8>
    recommends
        is_frame(frame),
{
    frame.subrange(PREFIX_LEN as int, frame.len() as int)
}

/// The eight bytes of `word`, most significant first.
pub open spec fn word_bytes(word: u64) -> Seq<u8> {
    seq![
        ((word >> 56) & 0xff) as u8,
        ((word >> 48) & 0xff) as u8,
        ((word >> 40) & 0xff) as u8,
        ((word >> 32) & 0xff) as u8,
        ((word >> 24) & 0xff) as u8,
        ((word >> 16) & 0xff) as u8,
        ((word >> 8) & 0xff) as u8,
        (word & 0xff) as u8,
    ]
}

/// The word that eight bytes spell, most significant first.
pub open spec fn word_value(bytes: Seq<u8>) -> u64
    recommends
        bytes.len() == WORD_LEN,
{
    (bytes[0] as u64) << 56 | (bytes[1] as u64) << 48 | (bytes[2] as u64) << 40 | (bytes[3] as u64)
        << 32 | (bytes[4] as u64) << 24 | (bytes[5] as u64) << 16 | (bytes[6] as u64) << 8 | (
    bytes[7] as u64)
}

/// Frames `payload`. Fails, and never cuts the payload short, when its length
/// does not fit the prefix.
pub fn encode_frame(payload: &[u8]) -> (res: Result<Vec<u8>, EncodeError>)
    ensures
        payload@.len() <= MAX_PAYLOAD ==> res is Ok && res->Ok_0@ == frame_of(payload@),
        payload@.len() > MAX_PAYLOAD ==> res == Err::<Vec<u8>, EncodeError>(
            EncodeError::PayloadTooLong,
        ),
{
    let len = payload.len();
    if len > MAX_PAYLOAD {
        return Err(EncodeError::PayloadTooLong);
    }
    let mut frame: Vec<u8> = Vec::with_capacity(len + PREFIX_LEN);
    frame.push((len / 256) as u8);
    frame.push((len % 256) as u8);
    frame.extend_from_slice(payload);
    assert(frame@ =~= frame_of(payload@));
    Ok(frame)
}

/// The payload length that a prefix announces.
pub fn frame_length(hi: u8, lo: u8) -> (len: u16)
    ensures
        len == prefix_value(hi, lo),
{
    let hi16: u16 = hi as u16;
    let lo16: u16 = lo as u16;
    hi16 * 256 + lo16
}

/// Takes a frame apart: the inverse of `encode_frame`.
pub fn decode_frame(bytes: &[u8]) -> (res: Result<Vec<u8>, DecodeError>)
    ensures
        is_frame(bytes@) ==> res is Ok && res->Ok_0@ == payload_of(bytes@),
        bytes@.len() < PREFIX_LEN ==> res == Err::<Vec<u8>, DecodeError>(
            DecodeError::MissingLength,
        ),
        bytes@.len() >= PREFIX_LEN && !is_frame(bytes@) ==> res == Err::<Vec<u8>, DecodeError>(
            DecodeError::LengthMismatch,
        ),
{
    let total = bytes.len();
    if total < PREFIX_LEN {
        return Err(DecodeError::MissingLength);
    }
    let announced = frame_length(bytes[0], bytes[1]);
    if total - PREFIX_LEN != announced as usize {
        return Err(DecodeError::LengthMismatch);
    }
    let mut payload: Vec<u8> = Vec::with_capacity(total - PREFIX_LEN);
    let mut i: usize = PREFIX_LEN;
    while i < total
        invariant
            PREFIX_LEN <= i <= total,
            total == bytes@.len(),
            payload@ == bytes@.subrange(PREFIX_LEN as int, i as int),
        decreases total - i,
    {
        payload.push(bytes[i]);
        i += 1;
        assert(payload@ =~= bytes@.subrange(PREFIX_LEN as int, i as int));
    }
    Ok(payload)
}

/// A handshake word as it travels: eight bytes, most significant first.
pub fn encode_word(word: u64) -> (res: Vec<u8>)
    ensures
        res@ == word_bytes(word),
{
    let mut out: Vec<u8> = Vec::with_capacity(WORD_LEN);
    out.push(((word >> 56) & 0xff) as u8);
    out.push(((word >> 48) & 0xff) as u8);
    out.push(((word >> 40) & 0xff) as u8);
    out.push(((word >> 32) & 0xff) as u8);
    out.push(((word >> 24) & 0xff) as u8);
    out.push(((word >> 16) & 0xff) as u8);
    out.push(((word >> 8) & 0xff) as u8);
    out.push((word & 0xff) as u8);
    assert(out@ =~= word_bytes(word));
    out
}

/// Reads a handshake word; `None` unless there are exactly eight bytes.
pub fn decode_word(bytes: &[u8]) -> (res: Option<u64>)
    ensures
        res == if bytes@.len() == WORD_LEN {
            Some(word_value(bytes@))
        } else {
            None
        },
{
    if bytes.len() != WORD_LEN {
        return None;
    }
    Some(
        (bytes[0] as u64) << 56 | (bytes[1] as u64) << 48 | (bytes[2] as u64) << 40 | (
        bytes[3] as u64) << 32 | (bytes[4] as u64) << 24 | (bytes[5] as u64) << 16 | (
        bytes[6] as u64) << 8 | (bytes[7] as u64),
    )
}

/// Decoding inverts encoding: a payload that fits the prefix comes back from
/// its frame unchanged, and the frame is two bytes longer than the payload.
pub proof fn lemma_frame_round_trip(payload: Seq<u8>)
    requires
        payload.len() <= MAX_PAYLOAD,
    ensures
        is_frame(frame_of(payload)),
        payload_of(frame_of(payload)) == payload,
        frame_of(payload).len() == payload.len() + PREFIX_LEN,
{
    assert(payload_of(frame_of(payload)) =~= payload);
}

/// Encoding inverts decoding: every frame is the frame of its own payload, so
/// no two byte strings decode to the same payload.
pub proof fn lemma_frame_unique(bytes: Seq<u8>)
    requires
        is_frame(bytes),
    ensures
        payload_of(bytes).len() <= MAX_PAYLOAD,
        frame_of(payload_of(bytes)) == bytes,
{
    let n = payload_of(bytes).len();
    assert(n == (bytes[0] as nat) * 256 + (bytes[1] as nat));
    assert(frame_of(payload_of(bytes)) =~= bytes);
}

/// Framing keeps what the payload promises: where a message comes back from
/// its payload, and the payload fits a frame, the message comes back from the
/// frame. This holds whatever the payloads are made of.
pub proof fn lemma_message_round_trip<M>(
    to_payload: spec_fn(M) -> Seq<u8>,
    from_payload: spec_fn(Seq<u8>) -> Option<M>,
    message: M,
)
    requires
        to_payload(message).len() <= MAX_PAYLOAD,
        from_payload(to_payload(message)) == Some(message),
    ensures
        is_frame(frame_of(to_payload(message))),
        from_payload(payload_of(frame_of(to_payload(message)))) == Some(message),
{
    lemma_frame_round_trip(to_payload(message));
}

/// A handshake word survives the wire: its eight bytes spell it again.
pub proof fn lemma_word_round_trip(word: u64)
    ensures
        word_bytes(word).len() == WORD_LEN,
        word_value(word_bytes(word)) == word,
{
    let b0 = ((word >> 56) & 0xff) as u8;
    let b1 = ((word >> 48) & 0xff) as u8;
    let b2 = ((word >> 40) & 0xff) as u8;
    let b3 = ((word >> 32) & 0xff) as u8;
    let b4 = ((word >> 24) & 0xff) as u8;
    let b5 = ((word >> 16) & 0xff) as u8;
    let b6 = ((word >> 8) & 0xff) as u8;
    let b7 = (word & 0xff) as u8;
    assert((b0 as u64) << 56 | (b1 as u64) << 48 | (b2 as u64) << 40 | (b3 as u64) << 32 | (
    b4 as u64) << 24 | (b5 as u64) << 16 | (b6 as u64) << 8 | (b7 as u64) == word) by (bit_vector)
        requires
            b0 == ((word >> 56) & 0xff) as u8,
            b1 == ((word >> 48) & 0xff) as u8,
            b2 == ((word >> 40) & 0xff) as u8,
            b3 == ((word >> 32) & 0xff) as u8,
            b4 == ((word >> 24) & 0xff) as u8,
            b5 == ((word >> 16) & 0xff) as u8,
            b6 == ((word >> 8) & 0xff) as u8,
            b7 == (word & 0xff) as u8,
    ;
}

/// Two words with the same bytes are the same word.
pub proof fn lemma_word_bytes_injective(a: u64, b: u64)
    requires
        word_bytes(a) == word_bytes(b),
    ensures
        a == b,
{
    lemma_word_round_trip(a);
    lemma_word_round_trip(b);
}

} // verus!
