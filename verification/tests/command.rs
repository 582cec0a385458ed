use convos::command::{parse, CharClass, Command};

fn line(text: &str) -> Command {
    parse(text.to_string())
}

#[test]
fn plain_text_is_a_message() {
    assert_eq!(line("hello there"), Command::Message("hello there".to_string()));
    assert_eq!(line(""), Command::Message(String::new()));
    assert_eq!(line(" /ping"), Command::Message(" /ping".to_string()));
}

#[test]
fn two_slashes_make_a_message() {
    assert_eq!(line("//ping"), Command::Message("//ping".to_string()));
    assert_eq!(line("//"), Command::Message("//".to_string()));
}

#[test]
fn words_without_arguments() {
    assert_eq!(line("/ping"), Command::Ping);
    assert_eq!(line("/whoami"), Command::WhoAmI);
    assert_eq!(line("/disconnect"), Command::Disconnect);
}

#[test]
fn blanks_after_the_slash_are_passed_over() {
    assert_eq!(line("/ ping"), Command::Ping);
    assert_eq!(line("/\t\n\x0c whoami"), Command::WhoAmI);
}

#[test]
fn what_follows_a_word_without_arguments_is_ignored() {
    assert_eq!(line("/ping now please"), Command::Ping);
    assert_eq!(line("/disconnect !"), Command::Disconnect);
}

#[test]
fn unknown_words() {
    assert_eq!(line("/"), Command::Unknown);
    assert_eq!(line("/   "), Command::Unknown);
    assert_eq!(line("/pingx"), Command::Unknown);
    assert_eq!(line("/pin"), Command::Unknown);
    assert_eq!(line("/Ping"), Command::Unknown);
    assert_eq!(line("/ping.now"), Command::Unknown);
    assert_eq!(line("/\"ping\""), Command::Unknown);
    assert_eq!(line("/!ping"), Command::Unknown);
    assert_eq!(line("/\u{e9}"), Command::Unknown);
}

#[test]
fn connect_takes_an_address() {
    assert_eq!(
        line("/connect 127.0.0.1:5555"),
        Command::Connect("127.0.0.1:5555".to_string())
    );
    assert_eq!(
        line("/connect   localhost:5555   again"),
        Command::Connect("localhost:5555".to_string())
    );
}

#[test]
fn connect_without_an_address() {
    let complaint = Command::Error("Expected an address after /connect".to_string());
    assert_eq!(line("/connect"), complaint);
    assert_eq!(line("/connect   \t"), complaint);
}

#[test]
fn an_argument_is_taken_whatever_token_it_is() {
    assert_eq!(line("/connect !"), Command::Connect("!".to_string()));
    assert_eq!(line("/connect \"home\""), Command::Connect("\"home\"".to_string()));
    assert_eq!(line("/connect \"home"), Command::Connect("\"home".to_string()));
    assert_eq!(line("/connect \"1"), Command::Connect("\"".to_string()));
    assert_eq!(line("/connect \""), Command::Connect("\"".to_string()));
    assert_eq!(line("/connect a-b"), Command::Connect("a".to_string()));
    assert_eq!(line("/connect \u{e9}t\u{e9}"), Command::Connect("\u{e9}".to_string()));
    assert_eq!(line("/connect \"ab\"cd\""), Command::Connect("\"ab\"".to_string()));
}

#[test]
fn a_token_ends_where_the_next_begins() {
    assert_eq!(line("/connect!"), Command::Connect("!".to_string()));
    assert_eq!(
        line("/signup\"bob\"pw"),
        Command::SignUp { name: "\"bob\"".to_string(), password: "pw".to_string() }
    );
}

#[test]
fn signin_takes_a_name_and_a_password() {
    assert_eq!(
        line("/signin bob hunter2"),
        Command::SignIn { name: "bob".to_string(), password: "hunter2".to_string() }
    );
    assert_eq!(
        line("/signin bob hunter2 more"),
        Command::SignIn { name: "bob".to_string(), password: "hunter2".to_string() }
    );
}

#[test]
fn signin_with_something_missing() {
    assert_eq!(
        line("/signin"),
        Command::Error("expected a username after signin command".to_string())
    );
    assert_eq!(
        line("/signin bob"),
        Command::Error("expected a password after signin command".to_string())
    );
    assert_eq!(
        line("/signin bob  "),
        Command::Error("expected a password after signin command".to_string())
    );
}

#[test]
fn signup_takes_a_name_and_a_password() {
    assert_eq!(
        line("/signup alice secret1"),
        Command::SignUp { name: "alice".to_string(), password: "secret1".to_string() }
    );
    assert_eq!(
        line("/signup alice s3cr3t!"),
        Command::SignUp { name: "alice".to_string(), password: "s3cr3t".to_string() }
    );
}

#[test]
fn signup_with_something_missing() {
    assert_eq!(
        line("/signup"),
        Command::Error("expected a username after signup command".to_string())
    );
    assert_eq!(
        line("/signup alice"),
        Command::Error("expected a password after signup command".to_string())
    );
}

#[test]
fn character_classes() {
    for c in [' ', '\t', '\n', '\x0c'] {
        assert!(CharClass::Blank.contains(c));
        assert!(!CharClass::Word.contains(c));
    }
    assert!(!CharClass::Blank.contains('\r'));
    for c in ['a', 'z', 'A', 'Z', '0', '9', '.', ':'] {
        assert!(CharClass::Word.contains(c));
    }
    for c in ['/', '-', '_', '"', '@', '[', '`', '{', '\u{e9}'] {
        assert!(!CharClass::Word.contains(c));
        assert!(!CharClass::Letter.contains(c));
    }
    assert!(CharClass::Letter.contains('q'));
    assert!(!CharClass::Letter.contains('5'));
    assert!(!CharClass::Letter.contains('.'));
}
