use convos::connection::ClientQuestion as Request;
use convos::credential::{hash_password, Account};
use convos::handler::{Handler, Step, StoreAnswer, ANONYMOUS_NAME};
use convos::message::{ClientQuestion, Error, ServerTell, Success, ANONYMOUS};

fn ask(data: ClientQuestion, uid: u64) -> (Handler, Step) {
    Handler::start(Request { data, con_id: 11, uid })
}

fn told(tell: ServerTell) -> Step {
    Step::Reply { tell, rebind: None }
}

fn sign_up(name: &str, password: &str) -> ClientQuestion {
    ClientQuestion::SignUp { username: name.to_string(), password: password.to_string() }
}

fn bob() -> Account {
    Account {
        id: 77,
        name: "bob".to_string(),
        salt: "Salt5".to_string(),
        hash: hash_password("hunter2", "Salt5"),
    }
}

/// A credential store of the plainest kind: what a handler asks is looked up
/// in a list until the handler has its reply.
fn serve(store: &mut Vec<Account>, request: Request) -> (ServerTell, Option<u64>) {
    let (mut handler, mut step) = Handler::start(request);
    loop {
        let answer = match step {
            Step::FindByName(name) => {
                StoreAnswer::Account(store.iter().find(|a| a.name == name).cloned())
            }
            Step::FindById(id) => StoreAnswer::Account(store.iter().find(|a| a.id == id).cloned()),
            Step::Insert(account) => {
                store.push(account);
                StoreAnswer::Inserted(true)
            }
            Step::Reply { tell, rebind } => {
                assert!(handler.is_done());
                return (tell, rebind);
            }
            Step::Nothing => panic!("a handler that never replied"),
        };
        let next = handler.resume(answer);
        handler = next.0;
        step = next.1;
    }
}

#[test]
fn sign_up_twice_under_one_name() {
    let mut store: Vec<Account> = Vec::new();
    let first = Request { data: sign_up("alice", "secret1"), con_id: 1, uid: 0 };
    assert_eq!(serve(&mut store, first), (ServerTell::Success(Success::SignUp), None));
    assert_eq!(store.len(), 1);
    assert_eq!(store[0].name, "alice");
    assert_ne!(store[0].id, ANONYMOUS);
    assert_eq!(store[0].salt.chars().count(), 5);
    assert!(store[0].salt.chars().all(|c| c.is_ascii_alphanumeric()));
    assert_eq!(store[0].hash, hash_password("secret1", &store[0].salt));
    let second = Request { data: sign_up("alice", "other"), con_id: 2, uid: 0 };
    assert_eq!(serve(&mut store, second), (ServerTell::Error(Error::UsernameTaken), None));
    assert_eq!(store.len(), 1);
}

#[test]
fn anonymous_who_am_i() {
    let (handler, step) = ask(ClientQuestion::WhoAmI, 0);
    assert_eq!(step, told(ServerTell::Who { id: 0, name: "Anonymous".to_string() }));
    assert_eq!(ANONYMOUS_NAME, "Anonymous");
    assert!(handler.is_done());
}

#[test]
fn sign_up_then_sign_in() {
    let mut store: Vec<Account> = Vec::new();
    serve(&mut store, Request { data: sign_up("carol", "pw"), con_id: 1, uid: 0 });
    let id = store[0].id;
    let good = ClientQuestion::SignIn { id, password: "pw".to_string() };
    assert_eq!(
        serve(&mut store, Request { data: good, con_id: 1, uid: 0 }),
        (ServerTell::Success(Success::SignIn), Some(id))
    );
    let bad = ClientQuestion::SignIn { id, password: "pW".to_string() };
    assert_eq!(
        serve(&mut store, Request { data: bad, con_id: 1, uid: 0 }),
        (ServerTell::Error(Error::InvalidPassword), None)
    );
}

#[test]
fn sign_up_step_by_step() {
    let (handler, step) = ask(sign_up("alice", "secret1"), 0);
    assert_eq!(step, Step::FindByName("alice".to_string()));
    assert!(!handler.is_done());
    let (handler, step) =
        handler.resume_with(StoreAnswer::Account(None), "aB3dE".to_string(), 1234);
    assert_eq!(step, Step::FindById(1234));
    let account = Account {
        id: 1234,
        name: "alice".to_string(),
        salt: "aB3dE".to_string(),
        hash: hash_password("secret1", "aB3dE"),
    };
    assert_eq!(handler, Handler::AwaitingIdCheck { account: account.clone() });
    let (handler, step) = handler.resume_with(StoreAnswer::Account(None), String::new(), 0);
    assert_eq!(step, Step::Insert(account));
    assert_eq!(handler, Handler::AwaitingInsert);
    let (handler, step) = handler.resume_with(StoreAnswer::Inserted(true), String::new(), 0);
    assert_eq!(step, told(ServerTell::Success(Success::SignUp)));
    assert_eq!(handler, Handler::Done);
}

#[test]
fn a_taken_identity_is_drawn_again() {
    let (handler, _) = ask(sign_up("alice", "secret1"), 0);
    let (handler, step) = handler.resume_with(StoreAnswer::Account(None), "aaaaa".to_string(), 77);
    assert_eq!(step, Step::FindById(77));
    let (handler, step) =
        handler.resume_with(StoreAnswer::Account(Some(bob())), "zzzzz".to_string(), 78);
    assert_eq!(step, Step::FindById(78));
    match handler {
        Handler::AwaitingIdCheck { account } => {
            assert_eq!(account.id, 78);
            assert_eq!(account.salt, "aaaaa");
            assert_eq!(account.hash, hash_password("secret1", "aaaaa"));
        }
        other => panic!("unexpected {:?}", other),
    }
}

#[test]
fn no_account_is_made_anonymous() {
    let (handler, _) = ask(sign_up("alice", "secret1"), 0);
    let (_, step) = handler.resume_with(StoreAnswer::Account(None), "aaaaa".to_string(), 0);
    assert_eq!(step, Step::FindById(1));
}

#[test]
fn an_account_kept_out_is_told_so() {
    let (handler, _) = ask(sign_up("alice", "secret1"), 0);
    let (handler, _) = handler.resume_with(StoreAnswer::Account(None), "aaaaa".to_string(), 5);
    let (handler, _) = handler.resume_with(StoreAnswer::Account(None), String::new(), 0);
    let (handler, step) = handler.resume_with(StoreAnswer::Inserted(false), String::new(), 0);
    assert_eq!(step, told(ServerTell::Error(Error::UsernameTaken)));
    assert!(handler.is_done());
}

#[test]
fn sign_in_outcomes() {
    let sign_in = |password: &str| {
        ask(ClientQuestion::SignIn { id: 77, password: password.to_string() }, 0)
    };
    let (handler, step) = sign_in("hunter2");
    assert_eq!(step, Step::FindById(77));
    let (_, step) = handler.resume(StoreAnswer::Account(Some(bob())));
    assert_eq!(
        step,
        Step::Reply { tell: ServerTell::Success(Success::SignIn), rebind: Some(77) }
    );
    let (handler, _) = sign_in("hunter3");
    let (_, step) = handler.resume(StoreAnswer::Account(Some(bob())));
    assert_eq!(step, told(ServerTell::Error(Error::InvalidPassword)));
    let (handler, _) = sign_in("hunter2");
    let (_, step) = handler.resume(StoreAnswer::Account(None));
    assert_eq!(step, told(ServerTell::Error(Error::InvalidUID)));
}

#[test]
fn anonymous_questions_about_others() {
    let (handler, step) = ask(ClientQuestion::WhoIsID { id: 77 }, 0);
    assert_eq!(step, told(ServerTell::Error(Error::NotLoggedIn)));
    assert!(handler.is_done());
    let (_, step) = ask(ClientQuestion::WhoIsName { name: "bob".to_string() }, 0);
    assert_eq!(step, told(ServerTell::Error(Error::NotLoggedIn)));
}

#[test]
fn identified_questions() {
    let (handler, step) = ask(ClientQuestion::WhoAmI, 77);
    assert_eq!(step, Step::FindById(77));
    let (_, step) = handler.resume(StoreAnswer::Account(Some(bob())));
    assert_eq!(step, told(ServerTell::Who { id: 77, name: "bob".to_string() }));

    let (handler, step) = ask(ClientQuestion::WhoIsID { id: 5 }, 77);
    assert_eq!(step, Step::FindById(5));
    let (_, step) = handler.resume(StoreAnswer::Account(None));
    assert_eq!(step, told(ServerTell::Error(Error::InvalidUID)));

    let (handler, step) = ask(ClientQuestion::WhoIsName { name: "bob".to_string() }, 9);
    assert_eq!(step, Step::FindByName("bob".to_string()));
    let (_, step) = handler.resume(StoreAnswer::Account(Some(bob())));
    assert_eq!(step, told(ServerTell::Who { id: 77, name: "bob".to_string() }));

    let (handler, _) = ask(ClientQuestion::WhoIsName { name: "eve".to_string() }, 9);
    let (_, step) = handler.resume(StoreAnswer::Account(None));
    assert_eq!(step, told(ServerTell::Error(Error::InvalidUsername)));
}

#[test]
fn identified_senders_cannot_sign_up_or_in() {
    let (handler, step) = ask(sign_up("alice", "pw"), 77);
    assert_eq!(step, told(ServerTell::Error(Error::AlreadyLoggedIn)));
    assert!(handler.is_done());
    let (_, step) = ask(ClientQuestion::SignIn { id: 77, password: "x".to_string() }, 77);
    assert_eq!(step, told(ServerTell::Error(Error::AlreadyLoggedIn)));
}

#[test]
fn a_handler_replies_once() {
    let (handler, _) = ask(ClientQuestion::WhoAmI, 0);
    let (handler, step) = handler.resume(StoreAnswer::Account(Some(bob())));
    assert_eq!(step, Step::Nothing);
    assert_eq!(handler, Handler::Done);
    let (handler, step) = handler.resume(StoreAnswer::Inserted(true));
    assert_eq!(step, Step::Nothing);
    assert!(handler.is_done());
}

#[test]
fn an_answer_of_the_wrong_kind_counts_as_a_failure() {
    let (handler, _) = ask(sign_up("alice", "pw"), 0);
    let (handler, step) = handler.resume_with(StoreAnswer::Inserted(true), "sssss".to_string(), 4);
    assert_eq!(step, told(ServerTell::Error(Error::UsernameTaken)));
    assert!(handler.is_done());
    let (handler, _) = ask(sign_up("alice", "pw"), 0);
    let (handler, _) = handler.resume_with(StoreAnswer::Account(None), "sssss".to_string(), 4);
    let (handler, _) = handler.resume_with(StoreAnswer::Account(None), String::new(), 0);
    assert_eq!(handler, Handler::AwaitingInsert);
    let (_, step) = handler.resume(StoreAnswer::Account(Some(bob())));
    assert_eq!(step, told(ServerTell::Error(Error::UsernameTaken)));
}

#[test]
fn a_failing_store_never_makes_a_sign_up() {
    // at the look for the name
    let (handler, _) = ask(sign_up("alice", "pw"), 0);
    let (handler, step) = handler.resume(StoreAnswer::Failed);
    assert_eq!(step, told(ServerTell::Error(Error::UsernameTaken)));
    assert!(handler.is_done());
    // at the look for the identity
    let (handler, _) = ask(sign_up("alice", "pw"), 0);
    let (handler, _) = handler.resume(StoreAnswer::Account(None));
    let (handler, step) = handler.resume(StoreAnswer::Failed);
    assert_eq!(step, told(ServerTell::Error(Error::UsernameTaken)));
    assert!(handler.is_done());
    // at the insert
    let (handler, _) = ask(sign_up("alice", "pw"), 0);
    let (handler, _) = handler.resume(StoreAnswer::Account(None));
    let (handler, _) = handler.resume(StoreAnswer::Account(None));
    let (handler, step) = handler.resume(StoreAnswer::Failed);
    assert_eq!(step, told(ServerTell::Error(Error::UsernameTaken)));
    assert!(handler.is_done());
}

#[test]
fn a_failing_store_gives_an_error_to_every_question() {
    let (handler, _) = ask(ClientQuestion::SignIn { id: 77, password: "x".to_string() }, 0);
    let (_, step) = handler.resume(StoreAnswer::Failed);
    assert_eq!(step, told(ServerTell::Error(Error::InvalidUID)));
    let (handler, _) = ask(ClientQuestion::WhoAmI, 77);
    let (_, step) = handler.resume(StoreAnswer::Failed);
    assert_eq!(step, told(ServerTell::Error(Error::InvalidUID)));
    let (handler, _) = ask(ClientQuestion::WhoIsName { name: "bob".to_string() }, 77);
    let (_, step) = handler.resume(StoreAnswer::Failed);
    assert_eq!(step, told(ServerTell::Error(Error::InvalidUsername)));
}

#[test]
fn a_new_account_has_a_whole_hash() {
    let (handler, _) = ask(sign_up("alice", "pw"), 0);
    let (handler, _) = handler.resume(StoreAnswer::Account(None));
    match handler.resume(StoreAnswer::Account(None)).1 {
        Step::Insert(account) => {
            assert_eq!(account.hash.len(), 64);
            assert_ne!(account.id, ANONYMOUS);
        }
        other => panic!("unexpected {:?}", other),
    }
}
