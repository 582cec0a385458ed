use convos::broker::{Action, Broker, Outgoing};
use convos::codec::{decode_frame, MAX_PAYLOAD};
use convos::command::Command;
use convos::message::{ClientQuestion, Error, ServerTell, Success};

fn tell(text: &str) -> Action {
    Action::Tell(text.to_string())
}

fn connected() -> Broker {
    Broker { my_id: 0, connected: true }
}

#[test]
fn a_new_broker_is_anonymous_and_not_connected() {
    assert_eq!(Broker::new(), Broker { my_id: 0, connected: false });
}

#[test]
fn ping_is_answered_at_once() {
    let mut broker = Broker::new();
    assert_eq!(broker.on_command(Command::Ping), tell("Pong!"));
    assert!(!broker.connected);
    let mut broker = connected();
    assert_eq!(broker.on_command(Command::Ping), tell("Pong!"));
    assert!(broker.connected);
}

#[test]
fn connect_drops_the_old_connection_first() {
    let mut broker = connected();
    assert_eq!(
        broker.on_command(Command::Connect("host:5555".to_string())),
        Action::Connect("host:5555".to_string())
    );
    assert!(!broker.connected);
    assert_eq!(broker.connection_result(true, "host:5555"), "Connected to: host:5555");
    assert!(broker.connected);
}

#[test]
fn a_failed_connect_leaves_the_broker_unconnected() {
    let mut broker = connected();
    broker.on_command(Command::Connect("nowhere".to_string()));
    assert_eq!(broker.connection_result(false, "nowhere"), "Invalid address.");
    assert!(!broker.connected);
}

#[test]
fn who_am_i_needs_a_connection() {
    let mut broker = Broker::new();
    assert_eq!(broker.on_command(Command::WhoAmI), tell("Cannot whoami when not connected."));
    let mut broker = connected();
    assert_eq!(
        broker.on_command(Command::WhoAmI),
        Action::Ask { question: ClientQuestion::WhoAmI, notice: Some("Sent whoami".to_string()) }
    );
    assert!(broker.connected);
}

#[test]
fn disconnect() {
    let mut broker = Broker::new();
    assert_eq!(broker.on_command(Command::Disconnect), tell("Already disconnected."));
    let mut broker = connected();
    assert_eq!(
        broker.on_command(Command::Disconnect),
        Action::Disconnect("Disconnected from server".to_string())
    );
    assert!(!broker.connected);
}

#[test]
fn a_message_is_forwarded_as_one_frame() {
    let mut broker = Broker::new();
    assert_eq!(
        broker.on_command(Command::Message("hi".to_string())),
        tell("No server currently connected to send a message to.")
    );
    let mut broker = connected();
    assert_eq!(
        broker.on_command(Command::Message("hello".to_string())),
        Action::Forward {
            frame: vec![0, 5, b'h', b'e', b'l', b'l', b'o'],
            echo: "hello".to_string()
        }
    );
    match broker.on_command(Command::Message("h\u{e9}".to_string())) {
        Action::Forward { frame, echo } => {
            assert_eq!(frame, vec![0, 3, b'h', 0xc3, 0xa9]);
            assert_eq!(decode_frame(&frame), Ok("h\u{e9}".as_bytes().to_vec()));
            assert_eq!(echo, "h\u{e9}");
        }
        other => panic!("unexpected {:?}", other),
    }
    assert!(broker.connected);
}

#[test]
fn a_message_too_long_for_a_frame_is_not_sent() {
    let mut broker = connected();
    assert_eq!(
        broker.on_command(Command::Message("x".repeat(MAX_PAYLOAD + 1))),
        tell("Message is too long to send.")
    );
    assert!(broker.connected);
    match broker.on_command(Command::Message("x".repeat(MAX_PAYLOAD))) {
        Action::Forward { frame, .. } => assert_eq!(frame.len(), MAX_PAYLOAD + 2),
        other => panic!("unexpected {:?}", other),
    }
    // the length counts in bytes, not in characters
    assert_eq!(
        broker.on_command(Command::Message("\u{e9}".repeat(40000))),
        tell("Message is too long to send.")
    );
}

#[test]
fn a_payload_goes_out_as_its_frame() {
    assert_eq!(
        Broker::seal(Some(b"\"WhoAmI\"".to_vec()), Some("Sent whoami".to_string())),
        Outgoing::Send {
            frame: vec![0, 8, b'"', b'W', b'h', b'o', b'A', b'm', b'I', b'"'],
            notice: Some("Sent whoami".to_string())
        }
    );
    assert_eq!(
        Broker::seal(Some(vec![]), None),
        Outgoing::Send { frame: vec![0, 0], notice: None }
    );
}

#[test]
fn a_payload_that_fits_no_frame_does_not_go_out() {
    let refused = Outgoing::Refuse("Message is too long to send.".to_string());
    assert_eq!(Broker::seal(Some(vec![0; MAX_PAYLOAD + 1]), Some("n".to_string())), refused);
    assert_eq!(Broker::seal(None, None), refused);
}

#[test]
fn sign_up_is_asked_of_the_server() {
    let cmd = || Command::SignUp { name: "alice".to_string(), password: "secret1".to_string() };
    let mut broker = Broker::new();
    assert_eq!(
        broker.on_command(cmd()),
        tell("No server currently connected to send a message to")
    );
    let mut broker = connected();
    assert_eq!(
        broker.on_command(cmd()),
        Action::Ask {
            question: ClientQuestion::SignUp {
                username: "alice".to_string(),
                password: "secret1".to_string()
            },
            notice: None
        }
    );
}

#[test]
fn unknown_commands_and_complaints_are_told() {
    let mut broker = connected();
    assert_eq!(broker.on_command(Command::Unknown), tell("Unknown command"));
    assert_eq!(broker.on_command(Command::Error("oops".to_string())), tell("oops"));
    assert!(broker.connected);
}

#[test]
fn sign_in_by_name_is_answered_with_a_text() {
    let cmd = || Command::SignIn { name: "a".to_string(), password: "b".to_string() };
    let mut broker = Broker::new();
    assert_eq!(broker.on_command(cmd()), tell("Sign in by name is not possible."));
    assert!(!broker.connected);
    let mut broker = connected();
    assert_eq!(broker.on_command(cmd()), tell("Sign in by name is not possible."));
    assert!(broker.connected);
}

#[test]
fn handshake_answer_is_echo_then_identity() {
    let broker = Broker { my_id: 258, connected: false };
    assert_eq!(
        broker.handshake_answer(0x0102_0304_0506_0708),
        vec![1u8, 2, 3, 4, 5, 6, 7, 8, 0, 0, 0, 0, 0, 0, 1, 2]
    );
    assert_eq!(Broker::new().handshake_answer(0), vec![0u8; 16]);
}

fn shown(tell: ServerTell) -> Option<String> {
    Broker::show(&tell)
}

#[test]
fn what_the_user_is_shown() {
    assert_eq!(
        shown(ServerTell::Who { id: 42, name: "bob".to_string() }),
        Some("Whois id: 42 name: bob".to_string())
    );
    assert_eq!(
        shown(ServerTell::Who { id: 0, name: "Anonymous".to_string() }),
        Some("Whois id: 0 name: Anonymous".to_string())
    );
    assert_eq!(
        shown(ServerTell::Who { id: u64::MAX, name: String::new() }),
        Some("Whois id: 18446744073709551615 name: ".to_string())
    );
    assert_eq!(
        shown(ServerTell::Who { id: 1000, name: "x".to_string() }),
        Some(format!("Whois id: {} name: {}", 1000, "x"))
    );
    assert_eq!(
        shown(ServerTell::Success(Success::SignUp)),
        Some("Success: Successfully signed up".to_string())
    );
    assert_eq!(
        shown(ServerTell::Error(Error::UsernameTaken)),
        Some("Error: Username is taken".to_string())
    );
}

#[test]
fn what_the_user_is_not_shown() {
    assert_eq!(shown(ServerTell::NumConnected), None);
    assert_eq!(shown(ServerTell::Syndication { from: 1, content: "x".to_string() }), None);
}

#[test]
fn a_payload_that_holds_no_message_is_passed_over() {
    assert_eq!(Broker::on_payload(None), None);
    assert_eq!(
        Broker::on_payload(Some(ServerTell::Success(Success::SignIn))),
        Some("Success: Successfully signed in".to_string())
    );
    assert_eq!(Broker::on_payload(Some(ServerTell::NumConnected)), None);
}
