//! The two workers of a connection, as state machines.
//!
//! The read worker turns what arrives on the socket into requests; the write
//! worker turns replies into frames. Each takes one event at a time and
//! answers with the one thing its caller is to do next. Waiting, reading and
//! writing are the caller's.

use crate::codec::{
    encode_frame,
    frame_length,
    frame_of,
    is_frame,
    payload_of,
    prefix_value,
    MAX_PAYLOAD,
};
use crate::message::ClientQuestionView;
use vstd::prelude::*;

verus! {

/// An account's identity, or `ANONYMOUS`.
pub type UID = u64;

/// What tells the live connections apart.
pub type ConID = u64;

/// A request: a question of a client, stamped with the connection it came
/// through and the identity that the connection had when the frame began.
#[derive(Debug, Clone, PartialEq, Eq)]
pub struct ClientQuestion {
    pub data: crate::message::ClientQuestion,
    pub con_id: ConID,
    pub uid: UID,
}

/// A request with its strings as sequences of characters.
pub struct RequestView {
    pub data: ClientQuestionView,
    pub con_id: ConID,
    pub uid: UID,
}

impl View for ClientQuestion {
    type V = RequestView;

    open spec fn view(&self) -> RequestView {
        RequestView { data: self.data@, con_id: self.con_id, uid: self.uid }
    }
}

/// Where a read worker stands.
#[derive(Debug, Clone, Copy, PartialEq, Eq, Structural)]
pub enum ReadPhase {
    /// Between two frames: the next frame and a rebind are both welcome.
    Idle,
    /// The first byte of a length prefix has been read and the second has
    /// not: `rebind` holds the identity that arrived meanwhile and waits for
    /// the frame to end.
    InPrefix { hi: u8, rebind: Option<UID> },
    /// A length has been read and its payload has not: `rebind` holds the
    /// identity that arrived meanwhile and waits for the frame to end.
    InFrame { len: u16, rebind: Option<UID> },
    /// The worker has ended.
    Terminated,
}

/// The state of a read worker.
#[derive(Debug, Clone, Copy, PartialEq, Eq, Structural)]
pub struct ReadWorker {
    pub con_id: ConID,
    pub uid: UID,
    pub phase: ReadPhase,
}

/// What happens to a read worker.
#[derive(Debug, Clone, PartialEq, Eq)]
pub enum ReadEvent {
    /// The connection is to carry this identity from now on.
    Rebind(UID),
    /// One byte of a length prefix has been read.
    PrefixByte(u8),
    /// The payload of the frame has been read: the question that it holds,
    /// or `None` where it holds none.
    Payload(Option<crate::message::ClientQuestion>),
    /// The socket could not be read, or the request could not be handed on.
    Failed,
    /// The cancellation signal has fired.
    Cancelled,
}

/// A `ReadEvent` with its strings as sequences of characters.
pub enum ReadEventView {
    Rebind(UID),
    PrefixByte(u8),
    Payload(Option<ClientQuestionView>),
    Failed,
    Cancelled,
}

impl View for ReadEvent {
    type V = ReadEventView;

    open spec fn view(&self) -> ReadEventView {
        match *self {
            ReadEvent::Rebind(uid) => ReadEventView::Rebind(uid),
            ReadEvent::PrefixByte(byte) => ReadEventView::PrefixByte(byte),
            ReadEvent::Payload(q) => ReadEventView::Payload(
                match q {
                    Some(q) => Some(q@),
                    None => None,
                },
            ),
            ReadEvent::Failed => ReadEventView::Failed,
            ReadEvent::Cancelled => ReadEventView::Cancelled,
        }
    }
}

/// What the caller of a read worker is to do next.
#[derive(Debug, Clone, PartialEq, Eq)]
pub enum ReadAction {
    /// Wait for the first byte of the next frame or the next rebind,
    /// whichever comes first. No byte may be read and then let go.
    Wait,
    /// Read the second byte of the length prefix, and nothing else meanwhile.
    ReadPrefix,
    /// Read this many bytes of payload, and nothing else meanwhile.
    ReadPayload(u16),
    /// Hand the request to the router, then wait as for `Wait`.
    Submit(ClientQuestion),
    /// End the worker and close its half of the socket.
    Stop,
    /// End the worker, close its half of the socket, fire the cancellation
    /// for the other worker and have the connection's record retired.
    TearDown,
    /// The worker has ended before: there is nothing to do.
    Nothing,
}

/// A `ReadAction` with its strings as sequences of characters.
pub enum ReadActionView {
    Wait,
    ReadPrefix,
    ReadPayload(u16),
    Submit(RequestView),
    Stop,
    TearDown,
    Nothing,
}

impl View for ReadAction {
    type V = ReadActionView;

    open spec fn view(&self) -> ReadActionView {
        match *self {
            ReadAction::Wait => ReadActionView::Wait,
            ReadAction::ReadPrefix => ReadActionView::ReadPrefix,
            ReadAction::ReadPayload(len) => ReadActionView::ReadPayload(len),
            ReadAction::Submit(request) => ReadActionView::Submit(request@),
            ReadAction::Stop => ReadActionView::Stop,
            ReadAction::TearDown => ReadActionView::TearDown,
            ReadAction::Nothing => ReadActionView::Nothing,
        }
    }
}

/// The identity that holds once a frame has ended: the one that was set
/// aside while the frame was read, or else the one that held before.
pub open spec fn identity_after(uid: UID, rebind: Option<UID>) -> UID {
    match rebind {
        Some(set_aside) => set_aside,
        None => uid,
    }
}

/// Whether a frame has begun and not ended: some of its bytes are read.
pub open spec fn in_a_frame(w: ReadWorker) -> bool {
    w.phase is InPrefix || w.phase is InFrame
}

/// The identity that a worker has set aside, if it has.
pub open spec fn set_aside(w: ReadWorker) -> Option<UID> {
    match w.phase {
        ReadPhase::InPrefix { rebind, .. } => rebind,
        ReadPhase::InFrame { rebind, .. } => rebind,
        _ => None,
    }
}

/// The rule of the read worker: its state after an event, and what its
/// caller is to do.
///
/// A worker that has ended stays as it is. A failure or a cancellation ends
/// it, in the middle of a frame too. Between frames a rebind changes the
/// identity at once, and the first byte of a prefix opens a frame. From then
/// on a rebind is set aside. The second byte of the prefix gives the length:
/// a frame of length zero ends there and is passed over. Otherwise the
/// payload ends the frame: a question in it becomes a request under the
/// identity that the frame began with. Only when the frame has ended does an
/// identity that was set aside take over. A byte or a payload out of turn
/// changes nothing.
pub open spec fn read_step(w: ReadWorker, event: ReadEventView) -> (ReadWorker, ReadActionView) {
    let ended = ReadWorker { phase: ReadPhase::Terminated, ..w };
    match w.phase {
        ReadPhase::Terminated => (w, ReadActionView::Nothing),
        ReadPhase::Idle => match event {
            ReadEventView::Failed => (ended, ReadActionView::TearDown),
            ReadEventView::Cancelled => (ended, ReadActionView::Stop),
            ReadEventView::Rebind(uid) => (ReadWorker { uid, ..w }, ReadActionView::Wait),
            ReadEventView::PrefixByte(hi) => (
                ReadWorker { phase: ReadPhase::InPrefix { hi, rebind: None }, ..w },
                ReadActionView::ReadPrefix,
            ),
            ReadEventView::Payload(_) => (w, ReadActionView::Wait),
        },
        ReadPhase::InPrefix { hi, rebind } => match event {
            ReadEventView::Failed => (ended, ReadActionView::TearDown),
            ReadEventView::Cancelled => (ended, ReadActionView::Stop),
            ReadEventView::Rebind(uid) => (
                ReadWorker { phase: ReadPhase::InPrefix { hi, rebind: Some(uid) }, ..w },
                ReadActionView::ReadPrefix,
            ),
            ReadEventView::PrefixByte(lo) => if prefix_value(hi, lo) == 0 {
                (
                    ReadWorker {
                        con_id: w.con_id,
                        uid: identity_after(w.uid, rebind),
                        phase: ReadPhase::Idle,
                    },
                    ReadActionView::Wait,
                )
            } else {
                (
                    ReadWorker {
                        phase: ReadPhase::InFrame { len: prefix_value(hi, lo) as u16, rebind },
                        ..w
                    },
                    ReadActionView::ReadPayload(prefix_value(hi, lo) as u16),
                )
            },
            ReadEventView::Payload(_) => (w, ReadActionView::ReadPrefix),
        },
        ReadPhase::InFrame { len, rebind } => match event {
            ReadEventView::Failed => (ended, ReadActionView::TearDown),
            ReadEventView::Cancelled => (ended, ReadActionView::Stop),
            ReadEventView::Rebind(uid) => (
                ReadWorker { phase: ReadPhase::InFrame { len, rebind: Some(uid) }, ..w },
                ReadActionView::ReadPayload(len),
            ),
            ReadEventView::PrefixByte(_) => (w, ReadActionView::ReadPayload(len)),
            ReadEventView::Payload(question) => (
                ReadWorker {
                    con_id: w.con_id,
                    uid: identity_after(w.uid, rebind),
                    phase: ReadPhase::Idle,
                },
                match question {
                    Some(data) => ReadActionView::Submit(
                        RequestView { data, con_id: w.con_id, uid: w.uid },
                    ),
                    None => ReadActionView::Wait,
                },
            ),
        },
    }
}

impl ReadWorker {
    /// The read worker of a connection that has just been accepted.
    pub fn new(con_id: ConID, uid: UID) -> (w: ReadWorker)
        ensures
            w == (ReadWorker { con_id, uid, phase: ReadPhase::Idle }),
    {
        ReadWorker { con_id, uid, phase: ReadPhase::Idle }
    }

    /// Whether the worker has ended.
    pub fn is_terminated(&self) -> (b: bool)
        ensures
            b == (self.phase is Terminated),
    {
        match self.phase {
            ReadPhase::Terminated => true,
            _ => false,
        }
    }

    /// Takes one event and says what to do next.
    pub fn step(&mut self, event: ReadEvent) -> (action: ReadAction)
        ensures
            (*final(self), action@) == read_step(*old(self), event@),
    {
        match self.phase {
            ReadPhase::Terminated => ReadAction::Nothing,
            ReadPhase::Idle => match event {
                ReadEvent::Failed => {
                    self.phase = ReadPhase::Terminated;
                    ReadAction::TearDown
                },
                ReadEvent::Cancelled => {
                    self.phase = ReadPhase::Terminated;
                    ReadAction::Stop
                },
                ReadEvent::Rebind(uid) => {
                    self.uid = uid;
                    ReadAction::Wait
                },
                ReadEvent::PrefixByte(hi) => {
                    self.phase = ReadPhase::InPrefix { hi, rebind: None };
                    ReadAction::ReadPrefix
                },
                ReadEvent::Payload(_) => ReadAction::Wait,
            },
            ReadPhase::InPrefix { hi, rebind } => match event {
                ReadEvent::Failed => {
                    self.phase = ReadPhase::Terminated;
                    ReadAction::TearDown
                },
                ReadEvent::Cancelled => {
                    self.phase = ReadPhase::Terminated;
                    ReadAction::Stop
                },
                ReadEvent::Rebind(uid) => {
                    self.phase = ReadPhase::InPrefix { hi, rebind: Some(uid) };
                    ReadAction::ReadPrefix
                },
                ReadEvent::PrefixByte(lo) => {
                    let len = frame_length(hi, lo);
                    if len == 0 {
                        self.end_frame(rebind);
                        ReadAction::Wait
                    } else {
                        self.phase = ReadPhase::InFrame { len, rebind };
                        ReadAction::ReadPayload(len)
                    }
                },
                ReadEvent::Payload(_) => ReadAction::ReadPrefix,
            },
            ReadPhase::InFrame { len, rebind } => match event {
                ReadEvent::Failed => {
                    self.phase = ReadPhase::Terminated;
                    ReadAction::TearDown
                },
                ReadEvent::Cancelled => {
                    self.phase = ReadPhase::Terminated;
                    ReadAction::Stop
                },
                ReadEvent::Rebind(uid) => {
                    self.phase = ReadPhase::InFrame { len, rebind: Some(uid) };
                    ReadAction::ReadPayload(len)
                },
                ReadEvent::PrefixByte(_) => ReadAction::ReadPayload(len),
                ReadEvent::Payload(question) => {
                    let stamped = self.uid;
                    self.end_frame(rebind);
                    match question {
                        Some(data) => ReadAction::Submit(
                            ClientQuestion { data, con_id: self.con_id, uid: stamped },
                        ),
                        None => ReadAction::Wait,
                    }
                },
            },
        }
    }

    /// Ends a frame: the worker is between frames again, under the identity
    /// that was set aside, if one was.
    fn end_frame(&mut self, rebind: Option<UID>)
        ensures
            *final(self) == (ReadWorker {
                con_id: old(self).con_id,
                uid: identity_after(old(self).uid, rebind),
                phase: ReadPhase::Idle,
            }),
    {
        self.phase = ReadPhase::Idle;
        match rebind {
            Some(uid) => {
                self.uid = uid;
            },
            None => {},
        }
    }
}

/// Where a write worker stands.
#[derive(Debug, Clone, Copy, PartialEq, Eq, Structural)]
pub enum WritePhase {
    Running,
    Terminated,
}

/// The state of a write worker.
#[derive(Debug, Clone, Copy, PartialEq, Eq, Structural)]
pub struct WriteWorker {
    pub phase: WritePhase,
}

/// What happens to a write worker.
#[derive(Debug, Clone, PartialEq, Eq)]
pub enum WriteEvent {
    /// A reply has been taken from the queue: its serialized payload.
    Reply(Vec<u8>),
    /// The socket could not be written, or the queue has been closed.
    Failed,
    /// The cancellation signal has fired.
    Cancelled,
}

/// A `WriteEvent` with its bytes as a sequence.
pub enum WriteEventView {
    Reply(Seq<u8>),
    Failed,
    Cancelled,
}

impl View for WriteEvent {
    type V = WriteEventView;

    open spec fn view(&self) -> WriteEventView {
        match *self {
            WriteEvent::Reply(payload) => WriteEventView::Reply(payload@),
            WriteEvent::Failed => WriteEventView::Failed,
            WriteEvent::Cancelled => WriteEventView::Cancelled,
        }
    }
}

/// What the caller of a write worker is to do next.
#[derive(Debug, Clone, PartialEq, Eq)]
pub enum WriteAction {
    /// Write all of these bytes to the socket, then take the next reply.
    Write(Vec<u8>),
    /// End the worker and close its half of the socket.
    Stop,
    /// End the worker, close its half of the socket, fire the cancellation
    /// for the other worker and have the connection's record retired.
    TearDown,
    /// The worker has ended before: there is nothing to do.
    Nothing,
}

/// A `WriteAction` with its bytes as a sequence.
pub enum WriteActionView {
    Write(Seq<u8>),
    Stop,
    TearDown,
    Nothing,
}

impl View for WriteAction {
    type V = WriteActionView;

    open spec fn view(&self) -> WriteActionView {
        match *self {
            WriteAction::Write(frame) => WriteActionView::Write(frame@),
            WriteAction::Stop => WriteActionView::Stop,
            WriteAction::TearDown => WriteActionView::TearDown,
            WriteAction::Nothing => WriteActionView::Nothing,
        }
    }
}

/// The rule of the write worker: its state after an event, and what its
/// caller is to do.
///
/// A worker that has ended stays as it is. A reply is written as one frame;
/// a reply too long for a frame ends the worker as a failure does.
pub open spec fn write_step(w: WriteWorker, event: WriteEventView) -> (
    WriteWorker,
    WriteActionView,
) {
    match w.phase {
        WritePhase::Terminated => (w, WriteActionView::Nothing),
        WritePhase::Running => match event {
            WriteEventView::Reply(payload) => if payload.len() <= MAX_PAYLOAD {
                (w, WriteActionView::Write(frame_of(payload)))
            } else {
                (WriteWorker { phase: WritePhase::Terminated }, WriteActionView::TearDown)
            },
            WriteEventView::Failed => (
                WriteWorker { phase: WritePhase::Terminated },
                WriteActionView::TearDown,
            ),
            WriteEventView::Cancelled => (
                WriteWorker { phase: WritePhase::Terminated },
                WriteActionView::Stop,
            ),
        },
    }
}

impl WriteWorker {
    /// The write worker of a connection that has just been accepted.
    pub fn new() -> (w: WriteWorker)
        ensures
            w == (WriteWorker { phase: WritePhase::Running }),
    {
        WriteWorker { phase: WritePhase::Running }
    }

    /// Whether the worker has ended.
    pub fn is_terminated(&self) -> (b: bool)
        ensures
            b == (self.phase is Terminated),
    {
        match self.phase {
            WritePhase::Terminated => true,
            _ => false,
        }
    }

    /// Takes one event and says what to do next.
    pub fn step(&mut self, event: WriteEvent) -> (action: WriteAction)
        ensures
            (*final(self), action@) == write_step(*old(self), event@),
    {
        match self.phase {
            WritePhase::Terminated => WriteAction::Nothing,
            WritePhase::Running => match event {
                WriteEvent::Reply(payload) => match encode_frame(payload.as_slice()) {
                    Ok(frame) => WriteAction::Write(frame),
                    Err(_) => {
                        self.phase = WritePhase::Terminated;
                        WriteAction::TearDown
                    },
                },
                WriteEvent::Failed => {
                    self.phase = WritePhase::Terminated;
                    WriteAction::TearDown
                },
                WriteEvent::Cancelled => {
                    self.phase = WritePhase::Terminated;
                    WriteAction::Stop
                },
            },
        }
    }
}

/// A rebind between frames takes effect at once, once, and yields no
/// request: the identity is the new one, the worker waits as before, and a
/// frame that follows is stamped with the new identity.
pub proof fn lemma_rebind_between_frames(w: ReadWorker, uid: UID)
    requires
        w.phase is Idle,
    ensures
        read_step(w, ReadEventView::Rebind(uid)) == (
            ReadWorker { uid, ..w },
            ReadActionView::Wait,
        ),
        forall|hi: u8, lo: u8, data: ClientQuestionView|
            prefix_value(hi, lo) != 0 ==> #[trigger] read_step(
                read_step(
                    read_step(
                        read_step(w, ReadEventView::Rebind(uid)).0,
                        ReadEventView::PrefixByte(hi),
                    ).0,
                    ReadEventView::PrefixByte(lo),
                ).0,
                ReadEventView::Payload(Some(data)),
            ) == (
                ReadWorker { uid, ..w },
                ReadActionView::Submit(RequestView { data, con_id: w.con_id, uid }),
            ),
{
}

/// A rebind in a frame, be it in the length prefix or in the payload, changes
/// neither the identity nor what is to be read next: it is set aside.
pub proof fn lemma_rebind_is_set_aside(w: ReadWorker, uid: UID)
    requires
        in_a_frame(w),
    ensures
        ({
            let (during, action) = read_step(w, ReadEventView::Rebind(uid));
            &&& during.uid == w.uid
            &&& during.con_id == w.con_id
            &&& set_aside(during) == Some(uid)
            &&& w.phase matches ReadPhase::InPrefix { hi, .. } ==> during.phase
                == (ReadPhase::InPrefix { hi, rebind: Some(uid) }) && action
                == ReadActionView::ReadPrefix
            &&& w.phase matches ReadPhase::InFrame { len, .. } ==> during.phase
                == (ReadPhase::InFrame { len, rebind: Some(uid) }) && action
                == ReadActionView::ReadPayload(len)
        }),
{
}

/// A frame ends under the identity it began with, and then the identity that
/// was set aside takes over. This holds for a worker in a length prefix: the
/// second byte hands the set-aside identity on to the payload, or, where the
/// length is zero, ends the frame without a request.
pub proof fn lemma_rebind_in_prefix(w: ReadWorker, lo: u8, question: Option<ClientQuestionView>)
    requires
        w.phase is InPrefix,
    ensures
        ({
            let hi = w.phase->hi;
            let (next, action) = read_step(w, ReadEventView::PrefixByte(lo));
            let after_frame = ReadWorker {
                con_id: w.con_id,
                uid: identity_after(w.uid, set_aside(w)),
                phase: ReadPhase::Idle,
            };
            if prefix_value(hi, lo) == 0 {
                next == after_frame && action == ReadActionView::Wait
            } else {
                &&& next.uid == w.uid
                &&& next.phase == (ReadPhase::InFrame {
                    len: prefix_value(hi, lo) as u16,
                    rebind: set_aside(w),
                })
                &&& action == ReadActionView::ReadPayload(prefix_value(hi, lo) as u16)
                &&& read_step(next, ReadEventView::Payload(question)) == (
                    after_frame,
                    match question {
                        Some(data) => ReadActionView::Submit(
                            RequestView { data, con_id: w.con_id, uid: w.uid },
                        ),
                        None => ReadActionView::Wait,
                    },
                )
            }
        }),
{
}

/// A frame ends under the identity it began with, and then the identity that
/// was set aside takes over. This holds for a worker in a payload.
pub proof fn lemma_rebind_in_frame(w: ReadWorker, question: Option<ClientQuestionView>)
    requires
        w.phase is InFrame,
    ensures
        read_step(w, ReadEventView::Payload(question)) == (
            ReadWorker {
                con_id: w.con_id,
                uid: identity_after(w.uid, set_aside(w)),
                phase: ReadPhase::Idle,
            },
            match question {
                Some(data) => ReadActionView::Submit(
                    RequestView { data, con_id: w.con_id, uid: w.uid },
                ),
                None => ReadActionView::Wait,
            },
        ),
{
}

/// The identity changes between frames only: whatever happens to a worker
/// in a frame, the identity stays until the frame has ended, and where no
/// rebind has been set aside, only a rebind changes it at all.
pub proof fn lemma_identity_is_stable(w: ReadWorker, event: ReadEventView)
    ensures
        read_step(w, event).0.con_id == w.con_id,
        in_a_frame(w) && in_a_frame(read_step(w, event).0) ==> read_step(w, event).0.uid
            == w.uid,
        !(event is Rebind) && set_aside(w) is None ==> read_step(w, event).0.uid == w.uid,
        read_step(w, event).1 matches ReadActionView::Submit(request) ==> request.uid == w.uid
            && request.con_id == w.con_id,
{
}

/// What a write worker has written is the frame of the reply, whole: the
/// reader's side finds the length in the prefix and the payload after it. A
/// reply too long for a frame is not written in part.
pub proof fn lemma_reply_is_written_whole(w: WriteWorker, payload: Seq<u8>)
    requires
        w.phase is Running,
    ensures
        payload.len() <= MAX_PAYLOAD ==> write_step(w, WriteEventView::Reply(payload)) == (
            w,
            WriteActionView::Write(frame_of(payload)),
        ) && is_frame(frame_of(payload)) && payload_of(frame_of(payload)) == payload,
        payload.len() > MAX_PAYLOAD ==> !(write_step(w, WriteEventView::Reply(payload)).1 is Write),
{
    if payload.len() <= MAX_PAYLOAD {
        crate::codec::lemma_frame_round_trip(payload);
    }
}

/// Tearing down is idempotent: once a worker has ended, a cancellation, and
/// any other event, changes nothing and asks for nothing.
pub proof fn lemma_teardown_is_idempotent(
    r: ReadWorker,
    w: WriteWorker,
    read_event: ReadEventView,
    write_event: WriteEventView,
)
    ensures
        read_step(r, ReadEventView::Cancelled).0.phase is Terminated,
        write_step(w, WriteEventView::Cancelled).0.phase is Terminated,
        r.phase is Terminated ==> read_step(r, read_event) == (r, ReadActionView::Nothing),
        w.phase is Terminated ==> write_step(w, write_event) == (w, WriteActionView::Nothing),
        read_step(read_step(r, ReadEventView::Cancelled).0, ReadEventView::Cancelled) == (
            read_step(r, ReadEventView::Cancelled).0,
            ReadActionView::Nothing,
        ),
        write_step(write_step(w, WriteEventView::Cancelled).0, WriteEventView::Cancelled) == (
            write_step(w, WriteEventView::Cancelled).0,
            WriteActionView::Nothing,
        ),
{
}

} // verus!
