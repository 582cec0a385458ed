//! The client's broker: what to do about a command of the user and what to
//! show for a message of the server.
//!
//! The broker decides; its caller connects, sends and prints. A decision is an
//! `Action`, and `step` says which action follows from which command. All
//! that goes to the server goes as a frame.

use crate::codec::{encode_frame, encode_word, frame_of, is_frame, payload_of, word_bytes, MAX_PAYLOAD};
use crate::command::{Command, CommandView};
use crate::message::{ClientQuestion, ClientQuestionView, ServerTell, ServerTellView, ANONYMOUS};
use vstd::prelude::*;
use vstd::string::StringSliceAdditionalSpecFns;

verus! {

/// What the broker knows between two commands.
#[derive(Debug, Clone, Copy, PartialEq, Eq, Structural)]
pub struct Broker {
    /// The identity that this client claims when it connects.
    pub my_id: u64,
    /// Whether a connection to a server is open.
    pub connected: bool,
}

/// What the caller is to do for one command.
#[derive(Debug, Clone, PartialEq, Eq)]
pub enum Action {
    /// Show the text to the user.
    Tell(String),
    /// Close the connection that may be open and open one to this address.
    /// The outcome comes back through `Broker::connection_result`.
    Connect(String),
    /// Serialize the question and hand the payload to `Broker::seal`, with
    /// the notice.
    Ask { question: ClientQuestion, notice: Option<String> },
    /// Send the frame to the server, then show the text.
    Forward { frame: Vec<u8>, echo: String },
    /// Close the connection, then show the text.
    Disconnect(String),
}

/// An `Action` with its strings and bytes as sequences.
pub enum ActionView {
    Tell(Seq<char>),
    Connect(Seq<char>),
    Ask { question: ClientQuestionView, notice: Option<Seq<char>> },
    Forward { frame: Seq<u8>, echo: Seq<char> },
    Disconnect(Seq<char>),
}

impl View for Action {
    type V = ActionView;

    open spec fn view(&self) -> ActionView {
        match *self {
            Action::Tell(t) => ActionView::Tell(t@),
            Action::Connect(a) => ActionView::Connect(a@),
            Action::Ask { question, notice } => ActionView::Ask {
                question: question@,
                notice: match notice {
                    Some(n) => Some(n@),
                    None => None,
                },
            },
            Action::Forward { frame, echo } => ActionView::Forward { frame: frame@, echo: echo@ },
            Action::Disconnect(t) => ActionView::Disconnect(t@),
        }
    }
}

/// What becomes of a payload that is meant for the server.
#[derive(Debug, Clone, PartialEq, Eq)]
pub enum Outgoing {
    /// Send the frame to the server, then show the notice, if there is one.
    Send { frame: Vec<u8>, notice: Option<String> },
    /// Send nothing, and show the text.
    Refuse(String),
}

/// An `Outgoing` with its strings and bytes as sequences.
pub enum OutgoingView {
    Send { frame: Seq<u8>, notice: Option<Seq<char>> },
    Refuse(Seq<char>),
}

impl View for Outgoing {
    type V = OutgoingView;

    open spec fn view(&self) -> OutgoingView {
        match *self {
            Outgoing::Send { frame, notice } => OutgoingView::Send {
                frame: frame@,
                notice: match notice {
                    Some(n) => Some(n@),
                    None => None,
                },
            },
            Outgoing::Refuse(t) => OutgoingView::Refuse(t@),
        }
    }
}

/// What the user is told where something does not fit a frame.
pub open spec fn too_long() -> Seq<char> {
    "Message is too long to send."@
}

/// The broker's rule for a payload: it goes out as its frame, with the
/// notice; where there is no payload, or it does not fit a frame, nothing
/// goes out and the user is told.
pub open spec fn sealed(payload: Option<Seq<u8>>, notice: Option<Seq<char>>) -> OutgoingView {
    match payload {
        Some(p) => if p.len() <= MAX_PAYLOAD {
            OutgoingView::Send { frame: frame_of(p), notice }
        } else {
            OutgoingView::Refuse(too_long())
        },
        None => OutgoingView::Refuse(too_long()),
    }
}

/// The broker's rule: whether it is connected after the command, and what
/// its caller is to do.
///
/// A line of plain text goes to the server as one frame that holds the text
/// in UTF-8. A sign-in by name has no question to go with it: the user is
/// told so.
pub open spec fn step(connected: bool, cmd: CommandView) -> (bool, ActionView) {
    match cmd {
        CommandView::Ping => (connected, ActionView::Tell("Pong!"@)),
        CommandView::Connect(address) => (false, ActionView::Connect(address)),
        CommandView::WhoAmI => if connected {
            (
                true,
                ActionView::Ask {
                    question: ClientQuestionView::WhoAmI,
                    notice: Some("Sent whoami"@),
                },
            )
        } else {
            (false, ActionView::Tell("Cannot whoami when not connected."@))
        },
        CommandView::Disconnect => if connected {
            (false, ActionView::Disconnect("Disconnected from server"@))
        } else {
            (false, ActionView::Tell("Already disconnected."@))
        },
        CommandView::Message(text) => if connected {
            if vstd::utf8::encode_utf8(text).len() <= MAX_PAYLOAD {
                (
                    true,
                    ActionView::Forward {
                        frame: frame_of(vstd::utf8::encode_utf8(text)),
                        echo: text,
                    },
                )
            } else {
                (true, ActionView::Tell(too_long()))
            }
        } else {
            (false, ActionView::Tell("No server currently connected to send a message to."@))
        },
        CommandView::SignUp { name, password } => if connected {
            (
                true,
                ActionView::Ask {
                    question: ClientQuestionView::SignUp { username: name, password },
                    notice: None,
                },
            )
        } else {
            (false, ActionView::Tell("No server currently connected to send a message to"@))
        },
        CommandView::SignIn { name, password } => (
            connected,
            ActionView::Tell("Sign in by name is not possible."@),
        ),
        CommandView::Unknown => (connected, ActionView::Tell("Unknown command"@)),
        CommandView::Error(complaint) => (connected, ActionView::Tell(complaint)),
    }
}

/// What the user is shown once a connection attempt has ended.
pub open spec fn connection_notice(opened: bool, address: Seq<char>) -> Seq<char> {
    if opened {
        "Connected to: "@ + address
    } else {
        "Invalid address."@
    }
}

/// The decimal digit for a number below ten.
pub open spec fn digit(d: nat) -> char
    recommends
        d < 10,
{
    (('0' as nat) + d) as char
}

/// A number written in decimal, without leading zeros.
pub open spec fn decimal(n: nat) -> Seq<char>
    decreases n,
{
    if n < 10 {
        seq![digit(n)]
    } else {
        decimal(n / 10) + seq![digit(n % 10)]
    }
}

/// What the user is shown for a message of the server: a text for an
/// identity, a success and an error, and nothing for the rest.
pub open spec fn shown(tell: ServerTellView) -> Option<Seq<char>> {
    match tell {
        ServerTellView::Who { id, name } => Some(
            "Whois id: "@ + decimal(id as nat) + " name: "@ + name,
        ),
        ServerTellView::Success(s) => Some("Success: "@ + s.text()),
        ServerTellView::Error(e) => Some("Error: "@ + e.text()),
        ServerTellView::NumConnected => None,
        ServerTellView::Syndication { .. } => None,
    }
}

/// What the user is shown for a payload of the server: where the payload
/// holds no message, that one frame is passed over and nothing is shown.
pub open spec fn displayed(decoded: Option<ServerTellView>) -> Option<Seq<char>> {
    match decoded {
        Some(tell) => shown(tell),
        None => None,
    }
}

/// A text with its characters as a sequence, where there is one.
pub open spec fn text_view(text: Option<String>) -> Option<Seq<char>> {
    match text {
        Some(t) => Some(t@),
        None => None,
    }
}

/// The text of one decimal digit.
fn digit_text(d: u64) -> (text: &'static str)
    requires
        d < 10,
    ensures
        text@ == seq![digit(d as nat)],
{
    proof {
        reveal_strlit("0");
        reveal_strlit("1");
        reveal_strlit("2");
        reveal_strlit("3");
        reveal_strlit("4");
        reveal_strlit("5");
        reveal_strlit("6");
        reveal_strlit("7");
        reveal_strlit("8");
        reveal_strlit("9");
    }
    let text = if d == 0 {
        "0"
    } else if d == 1 {
        "1"
    } else if d == 2 {
        "2"
    } else if d == 3 {
        "3"
    } else if d == 4 {
        "4"
    } else if d == 5 {
        "5"
    } else if d == 6 {
        "6"
    } else if d == 7 {
        "7"
    } else if d == 8 {
        "8"
    } else {
        "9"
    };
    assert(text@ =~= seq![digit(d as nat)]);
    text
}

/// Writes `n` in decimal at the end of `out`.
fn push_decimal(out: &mut String, n: u64)
    ensures
        final(out)@ == old(out)@ + decimal(n as nat),
    decreases n,
{
    if n >= 10 {
        push_decimal(out, n / 10);
    }
    out.append(digit_text(n % 10));
    assert(out@ =~= old(out)@ + decimal(n as nat));
}

impl Broker {
    /// A broker that is anonymous and not connected.
    pub fn new() -> (broker: Broker)
        ensures
            broker.my_id == ANONYMOUS,
            !broker.connected,
    {
        Broker { my_id: ANONYMOUS, connected: false }
    }

    /// Decides what to do about a command of the user.
    pub fn on_command(&mut self, cmd: Command) -> (action: Action)
        ensures
            (final(self).connected, action@) == step(old(self).connected, cmd@),
            final(self).my_id == old(self).my_id,
    {
        match cmd {
            Command::Ping => Action::Tell("Pong!".to_owned()),
            Command::Connect(address) => {
                self.connected = false;
                Action::Connect(address)
            },
            Command::WhoAmI => {
                if self.connected {
                    Action::Ask {
                        question: ClientQuestion::WhoAmI,
                        notice: Some("Sent whoami".to_owned()),
                    }
                } else {
                    Action::Tell("Cannot whoami when not connected.".to_owned())
                }
            },
            Command::Disconnect => {
                if self.connected {
                    self.connected = false;
                    Action::Disconnect("Disconnected from server".to_owned())
                } else {
                    Action::Tell("Already disconnected.".to_owned())
                }
            },
            Command::Message(text) => {
                if self.connected {
                    let bytes = text.as_str().as_bytes_vec();
                    match encode_frame(bytes.as_slice()) {
                        Ok(frame) => Action::Forward { frame, echo: text },
                        Err(_) => Action::Tell("Message is too long to send.".to_owned()),
                    }
                } else {
                    Action::Tell(
                        "No server currently connected to send a message to.".to_owned(),
                    )
                }
            },
            Command::SignUp { name, password } => {
                if self.connected {
                    Action::Ask {
                        question: ClientQuestion::SignUp { username: name, password },
                        notice: None,
                    }
                } else {
                    Action::Tell("No server currently connected to send a message to".to_owned())
                }
            },
            Command::SignIn { .. } => Action::Tell("Sign in by name is not possible.".to_owned()),
            Command::Unknown => Action::Tell("Unknown command".to_owned()),
            Command::Error(complaint) => Action::Tell(complaint),
        }
    }

    /// Takes note of how a connection attempt ended and says what to show.
    pub fn connection_result(&mut self, opened: bool, address: &str) -> (notice: String)
        ensures
            final(self).connected == opened,
            final(self).my_id == old(self).my_id,
            notice@ == connection_notice(opened, address@),
    {
        self.connected = opened;
        if opened {
            let mut notice = "Connected to: ".to_owned();
            notice.append(address);
            notice
        } else {
            "Invalid address.".to_owned()
        }
    }

    /// The client's half of the handshake: the challenge echoed, then the
    /// identity that the client claims.
    pub fn handshake_answer(&self, challenge: u64) -> (answer: Vec<u8>)
        ensures
            answer@ == word_bytes(challenge) + word_bytes(self.my_id),
    {
        let mut answer = encode_word(challenge);
        let identity = encode_word(self.my_id);
        answer.extend_from_slice(identity.as_slice());
        answer
    }

    /// Decides what becomes of a question once it has been serialized:
    /// `payload` is what the question was serialized to, or `None` where it
    /// could not be.
    pub fn seal(payload: Option<Vec<u8>>, notice: Option<String>) -> (outgoing: Outgoing)
        ensures
            outgoing@ == sealed(
                match payload {
                    Some(p) => Some(p@),
                    None => None,
                },
                text_view(notice),
            ),
    {
        match payload {
            Some(p) => match encode_frame(p.as_slice()) {
                Ok(frame) => Outgoing::Send { frame, notice },
                Err(_) => Outgoing::Refuse("Message is too long to send.".to_owned()),
            },
            None => Outgoing::Refuse("Message is too long to send.".to_owned()),
        }
    }

    /// The text that the user is shown for a message of the server, if the
    /// broker has one for it.
    pub fn show(tell: &ServerTell) -> (text: Option<String>)
        ensures
            text_view(text) == shown(tell@),
    {
        match tell {
            ServerTell::Who { id, name } => {
                let mut text = "Whois id: ".to_owned();
                push_decimal(&mut text, *id);
                text.append(" name: ");
                text.append(name.as_str());
                Some(text)
            },
            ServerTell::Success(s) => {
                let mut text = "Success: ".to_owned();
                text.append(s.message().as_str());
                Some(text)
            },
            ServerTell::Error(e) => {
                let mut text = "Error: ".to_owned();
                text.append(e.message().as_str());
                Some(text)
            },
            ServerTell::NumConnected => None,
            ServerTell::Syndication { .. } => None,
        }
    }

    /// Decides what the user is shown for a payload of the server: `decoded`
    /// is the message that the payload holds, or `None` where it holds none.
    pub fn on_payload(decoded: Option<ServerTell>) -> (text: Option<String>)
        ensures
            text_view(text) == displayed(
                match decoded {
                    Some(t) => Some(t@),
                    None => None,
                },
            ),
    {
        match decoded {
            Some(tell) => Broker::show(&tell),
            None => None,
        }
    }
}

/// All that the broker hands out for the server is a whole frame: a line of
/// text goes out as the frame of its UTF-8 bytes, a payload as its own
/// frame, and what fits no frame does not go out at all.
pub proof fn lemma_only_frames_go_out(
    connected: bool,
    cmd: CommandView,
    payload: Option<Seq<u8>>,
    notice: Option<Seq<char>>,
)
    ensures
        step(connected, cmd).1 matches ActionView::Forward { frame, echo } ==> cmd
            == CommandView::Message(echo) && connected && is_frame(frame) && payload_of(frame)
            == vstd::utf8::encode_utf8(echo),
        sealed(payload, notice) matches OutgoingView::Send { frame, .. } ==> payload is Some
            && is_frame(frame) && payload_of(frame) == payload->Some_0,
{
    match cmd {
        CommandView::Message(text) => {
            if vstd::utf8::encode_utf8(text).len() <= MAX_PAYLOAD {
                crate::codec::lemma_frame_round_trip(vstd::utf8::encode_utf8(text));
            }
        },
        _ => {},
    }
    match payload {
        Some(p) => {
            if p.len() <= MAX_PAYLOAD {
                crate::codec::lemma_frame_round_trip(p);
            }
        },
        None => {},
    }
}

} // verus!
