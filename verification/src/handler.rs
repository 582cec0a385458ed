//! The message handler: one request in, one reply out.
//!
//! A handler does not reach the credential store itself. It says what it
//! needs from the store, takes the store's answer, and says what it needs
//! next, until it has the reply. `started` and `resumed` are its rules.

use crate::chance::{random_alphanumeric, random_u64};
use crate::connection::{ClientQuestion, RequestView, UID};
use crate::credential::{
    durable_id,
    hash_password,
    identity_for,
    is_salt,
    salted_hash,
    Account,
    AccountView,
    HASH_LEN,
    SALT_LEN,
};
use crate::message::{
    ClientQuestionView,
    Error,
    ServerTell,
    ServerTellView,
    Success,
    ANONYMOUS,
};
use vstd::prelude::*;

verus! {

/// The name under which an anonymous connection is known.
pub const ANONYMOUS_NAME: &'static str = "Anonymous";

/// What the credential store answers.
#[derive(Debug, Clone, PartialEq, Eq)]
pub enum StoreAnswer {
    /// The outcome of a lookup: the account, or `None` where there is none.
    Account(Option<Account>),
    /// The outcome of an insert: whether the account is in the store now.
    Inserted(bool),
    /// The store could not be asked, or could not answer.
    Failed,
}

/// A `StoreAnswer` with its strings and bytes as sequences.
pub enum AnswerView {
    Account(Option<AccountView>),
    Inserted(bool),
    Failed,
}

impl View for StoreAnswer {
    type V = AnswerView;

    open spec fn view(&self) -> AnswerView {
        match *self {
            StoreAnswer::Account(a) => AnswerView::Account(
                match a {
                    Some(a) => Some(a@),
                    None => None,
                },
            ),
            StoreAnswer::Inserted(b) => AnswerView::Inserted(b),
            StoreAnswer::Failed => AnswerView::Failed,
        }
    }
}

/// What the caller of a handler is to do next.
#[derive(Debug, Clone, PartialEq, Eq)]
pub enum Step {
    /// Look the account with this name up, and resume with the outcome.
    FindByName(String),
    /// Look the account with this identity up, and resume with the outcome.
    FindById(UID),
    /// Insert the account, and resume with the outcome.
    Insert(Account),
    /// Send the reply to the connection that the request came through. Where
    /// `rebind` holds an identity, rebind the connection to it first.
    Reply { tell: ServerTell, rebind: Option<UID> },
    /// The handler has replied before: there is nothing to do.
    Nothing,
}

/// A `Step` with its strings and bytes as sequences.
pub enum StepView {
    FindByName(Seq<char>),
    FindById(UID),
    Insert(AccountView),
    Reply { tell: ServerTellView, rebind: Option<UID> },
    Nothing,
}

impl View for Step {
    type V = StepView;

    open spec fn view(&self) -> StepView {
        match *self {
            Step::FindByName(name) => StepView::FindByName(name@),
            Step::FindById(id) => StepView::FindById(id),
            Step::Insert(account) => StepView::Insert(account@),
            Step::Reply { tell, rebind } => StepView::Reply { tell: tell@, rebind },
            Step::Nothing => StepView::Nothing,
        }
    }
}

/// Where a handler stands between two answers of the store.
#[derive(Debug, Clone, PartialEq, Eq)]
pub enum Handler {
    /// A sign-up waits to learn whether its name is taken.
    AwaitingNameCheck { username: String, password: String },
    /// A sign-up waits to learn whether the identity of its account is taken.
    AwaitingIdCheck { account: Account },
    /// A sign-up waits to learn whether its account went in.
    AwaitingInsert,
    /// A sign-in waits for the account that it names.
    AwaitingCredentials { id: UID, password: String },
    /// A question about an identity waits for the account; `missing` is the
    /// reply where there is none.
    AwaitingIdentity { missing: Error },
    /// The reply has been given.
    Done,
}

/// A `Handler` with its strings and bytes as sequences.
pub enum HandlerView {
    AwaitingNameCheck { username: Seq<char>, password: Seq<char> },
    AwaitingIdCheck { account: AccountView },
    AwaitingInsert,
    AwaitingCredentials { id: UID, password: Seq<char> },
    AwaitingIdentity { missing: Error },
    Done,
}

impl View for Handler {
    type V = HandlerView;

    open spec fn view(&self) -> HandlerView {
        match *self {
            Handler::AwaitingNameCheck { username, password } => HandlerView::AwaitingNameCheck {
                username: username@,
                password: password@,
            },
            Handler::AwaitingIdCheck { account } => HandlerView::AwaitingIdCheck {
                account: account@,
            },
            Handler::AwaitingInsert => HandlerView::AwaitingInsert,
            Handler::AwaitingCredentials { id, password } => HandlerView::AwaitingCredentials {
                id,
                password: password@,
            },
            Handler::AwaitingIdentity { missing } => HandlerView::AwaitingIdentity { missing },
            Handler::Done => HandlerView::Done,
        }
    }
}

/// A reply that rebinds nothing.
pub open spec fn reply(tell: ServerTellView) -> StepView {
    StepView::Reply { tell, rebind: None }
}

/// What a lookup brought: the account, or `None` for no account. Where the
/// store failed, or answered something else than a lookup, the lookup
/// brought nothing at all: `Err`.
pub open spec fn looked_up(answer: AnswerView) -> Result<Option<AccountView>, ()> {
    match answer {
        AnswerView::Account(account) => Ok(account),
        AnswerView::Inserted(_) => Err(()),
        AnswerView::Failed => Err(()),
    }
}

/// Whether an answer says that an account went in. Only the answer to an
/// insert that went well does.
pub open spec fn went_in(answer: AnswerView) -> bool {
    answer == AnswerView::Inserted(true)
}

/// Whether a handler holds nothing out of order: an account that waits for
/// its insert has a hash of `HASH_LEN` bytes and an identity other than
/// `ANONYMOUS`.
pub open spec fn well_formed(handler: HandlerView) -> bool {
    handler matches HandlerView::AwaitingIdCheck { account } ==> account.hash.len() == HASH_LEN
        && account.id != ANONYMOUS
}

/// How a request is taken up.
///
/// An anonymous sender is told who it is without a look at the store, may
/// sign up and sign in, and is told `NotLoggedIn` for a question about
/// someone else. A sender with an identity may ask who it is and who others
/// are, each by a lookup in the store, and is told `AlreadyLoggedIn` for a
/// sign-up or a sign-in.
pub open spec fn started(request: RequestView) -> (HandlerView, StepView) {
    if request.uid == ANONYMOUS {
        match request.data {
            ClientQuestionView::WhoAmI => (
                HandlerView::Done,
                reply(ServerTellView::Who { id: ANONYMOUS, name: ANONYMOUS_NAME@ }),
            ),
            ClientQuestionView::SignUp { username, password } => (
                HandlerView::AwaitingNameCheck { username, password },
                StepView::FindByName(username),
            ),
            ClientQuestionView::SignIn { id, password } => (
                HandlerView::AwaitingCredentials { id, password },
                StepView::FindById(id),
            ),
            ClientQuestionView::WhoIsID { id } => (
                HandlerView::Done,
                reply(ServerTellView::Error(Error::NotLoggedIn)),
            ),
            ClientQuestionView::WhoIsName { name } => (
                HandlerView::Done,
                reply(ServerTellView::Error(Error::NotLoggedIn)),
            ),
        }
    } else {
        match request.data {
            ClientQuestionView::WhoAmI => (
                HandlerView::AwaitingIdentity { missing: Error::InvalidUID },
                StepView::FindById(request.uid),
            ),
            ClientQuestionView::WhoIsID { id } => (
                HandlerView::AwaitingIdentity { missing: Error::InvalidUID },
                StepView::FindById(id),
            ),
            ClientQuestionView::WhoIsName { name } => (
                HandlerView::AwaitingIdentity { missing: Error::InvalidUsername },
                StepView::FindByName(name),
            ),
            ClientQuestionView::SignUp { username, password } => (
                HandlerView::Done,
                reply(ServerTellView::Error(Error::AlreadyLoggedIn)),
            ),
            ClientQuestionView::SignIn { id, password } => (
                HandlerView::Done,
                reply(ServerTellView::Error(Error::AlreadyLoggedIn)),
            ),
        }
    }
}

/// How a handler goes on with an answer of the store, a salt and a draw.
///
/// A sign-up whose name is taken is told `UsernameTaken`. Otherwise its
/// account is made: the identity from the draw, the salt, and the hash of
/// the password with that salt. While the identity is taken, a new draw
/// replaces it. The account is then inserted, and the sender is told
/// `Success::SignUp`. Where the store fails at any of these steps, or keeps
/// the account out, no account is said to be made: the sender is told
/// `UsernameTaken`.
/// A sign-in is told `InvalidUID` where there is no such account or the store
/// fails, `InvalidPassword` where the password does not hash to what the
/// account keeps, and `Success::SignIn` otherwise, and then the connection is
/// rebound to the identity. A question about an identity is answered from
/// the account, and with its error where there is none or the store fails.
/// A handler that has replied does nothing more.
/// Salt and draw count only where an account is made or gets a new identity.
pub open spec fn resumed(handler: HandlerView, answer: AnswerView, salt: Seq<char>, draw: u64) -> (
    HandlerView,
    StepView,
) {
    match handler {
        HandlerView::AwaitingNameCheck { username, password } => match looked_up(answer) {
            Ok(None) => (
                HandlerView::AwaitingIdCheck {
                    account: AccountView {
                        id: durable_id(draw),
                        name: username,
                        salt,
                        hash: salted_hash(password, salt),
                    },
                },
                StepView::FindById(durable_id(draw)),
            ),
            _ => (HandlerView::Done, reply(ServerTellView::Error(Error::UsernameTaken))),
        },
        HandlerView::AwaitingIdCheck { account } => match looked_up(answer) {
            Ok(Some(_)) => (
                HandlerView::AwaitingIdCheck {
                    account: AccountView { id: durable_id(draw), ..account },
                },
                StepView::FindById(durable_id(draw)),
            ),
            Ok(None) => (HandlerView::AwaitingInsert, StepView::Insert(account)),
            Err(_) => (HandlerView::Done, reply(ServerTellView::Error(Error::UsernameTaken))),
        },
        HandlerView::AwaitingInsert => if went_in(answer) {
            (HandlerView::Done, reply(ServerTellView::Success(Success::SignUp)))
        } else {
            (HandlerView::Done, reply(ServerTellView::Error(Error::UsernameTaken)))
        },
        HandlerView::AwaitingCredentials { id, password } => match looked_up(answer) {
            Ok(Some(account)) => if account.hash == salted_hash(password, account.salt) {
                (
                    HandlerView::Done,
                    StepView::Reply {
                        tell: ServerTellView::Success(Success::SignIn),
                        rebind: Some(id),
                    },
                )
            } else {
                (HandlerView::Done, reply(ServerTellView::Error(Error::InvalidPassword)))
            },
            _ => (HandlerView::Done, reply(ServerTellView::Error(Error::InvalidUID))),
        },
        HandlerView::AwaitingIdentity { missing } => match looked_up(answer) {
            Ok(Some(account)) => (
                HandlerView::Done,
                reply(ServerTellView::Who { id: account.id, name: account.name }),
            ),
            _ => (HandlerView::Done, reply(ServerTellView::Error(missing))),
        },
        HandlerView::Done => (HandlerView::Done, StepView::Nothing),
    }
}

/// A reply that rebinds nothing.
fn tell(message: ServerTell) -> (step: Step)
    ensures
        step@ == reply(message@),
{
    Step::Reply { tell: message, rebind: None }
}

/// What a lookup brought, taken out of the store's answer.
fn lookup_in(answer: StoreAnswer) -> (brought: Result<Option<Account>, ()>)
    ensures
        match brought {
            Ok(Some(a)) => looked_up(answer@) == Ok::<Option<AccountView>, ()>(Some(a@)),
            Ok(None) => looked_up(answer@) == Ok::<Option<AccountView>, ()>(None),
            Err(_) => looked_up(answer@) is Err,
        },
{
    match answer {
        StoreAnswer::Account(account) => Ok(account),
        StoreAnswer::Inserted(_) => Err(()),
        StoreAnswer::Failed => Err(()),
    }
}

impl Handler {
    /// Takes a request up.
    pub fn start(request: ClientQuestion) -> (res: (Handler, Step))
        ensures
            (res.0@, res.1@) == started(request@),
            well_formed(res.0@),
    {
        let uid = request.uid;
        if uid == ANONYMOUS {
            match request.data {
                crate::message::ClientQuestion::WhoAmI => (
                    Handler::Done,
                    tell(ServerTell::Who { id: ANONYMOUS, name: ANONYMOUS_NAME.to_owned() }),
                ),
                crate::message::ClientQuestion::SignUp { username, password } => {
                    let name = username.clone();
                    (Handler::AwaitingNameCheck { username, password }, Step::FindByName(name))
                },
                crate::message::ClientQuestion::SignIn { id, password } => (
                    Handler::AwaitingCredentials { id, password },
                    Step::FindById(id),
                ),
                crate::message::ClientQuestion::WhoIsID { .. } => (
                    Handler::Done,
                    tell(ServerTell::Error(Error::NotLoggedIn)),
                ),
                crate::message::ClientQuestion::WhoIsName { .. } => (
                    Handler::Done,
                    tell(ServerTell::Error(Error::NotLoggedIn)),
                ),
            }
        } else {
            match request.data {
                crate::message::ClientQuestion::WhoAmI => (
                    Handler::AwaitingIdentity { missing: Error::InvalidUID },
                    Step::FindById(uid),
                ),
                crate::message::ClientQuestion::WhoIsID { id } => (
                    Handler::AwaitingIdentity { missing: Error::InvalidUID },
                    Step::FindById(id),
                ),
                crate::message::ClientQuestion::WhoIsName { name } => (
                    Handler::AwaitingIdentity { missing: Error::InvalidUsername },
                    Step::FindByName(name),
                ),
                crate::message::ClientQuestion::SignUp { .. } => (
                    Handler::Done,
                    tell(ServerTell::Error(Error::AlreadyLoggedIn)),
                ),
                crate::message::ClientQuestion::SignIn { .. } => (
                    Handler::Done,
                    tell(ServerTell::Error(Error::AlreadyLoggedIn)),
                ),
            }
        }
    }

    /// Whether the handler has given its reply.
    pub fn is_done(&self) -> (b: bool)
        ensures
            b == (self@ is Done),
    {
        match self {
            Handler::Done => true,
            _ => false,
        }
    }

    /// Goes on with an answer of the store, with the salt and the draw that
    /// the caller hands in.
    pub fn resume_with(self, answer: StoreAnswer, salt: String, draw: u64) -> (res: (
        Handler,
        Step,
    ))
        ensures
            (res.0@, res.1@) == resumed(self@, answer@, salt@, draw),
            well_formed(self@) ==> well_formed(res.0@),
            well_formed(self@) ==> (res.1@ matches StepView::Insert(account) ==> account.hash.len()
                == HASH_LEN && account.id != ANONYMOUS),
    {
        match self {
            Handler::AwaitingNameCheck { username, password } => match lookup_in(answer) {
                Ok(None) => {
                    let id = identity_for(draw);
                    let hash = hash_password(password.as_str(), salt.as_str());
                    let account = Account { id, name: username, salt, hash };
                    (Handler::AwaitingIdCheck { account }, Step::FindById(id))
                },
                _ => (Handler::Done, tell(ServerTell::Error(Error::UsernameTaken))),
            },
            Handler::AwaitingIdCheck { account } => match lookup_in(answer) {
                Ok(Some(_)) => {
                    let id = identity_for(draw);
                    let account = Account {
                        id,
                        name: account.name,
                        salt: account.salt,
                        hash: account.hash,
                    };
                    (Handler::AwaitingIdCheck { account }, Step::FindById(id))
                },
                Ok(None) => (Handler::AwaitingInsert, Step::Insert(account)),
                Err(_) => (Handler::Done, tell(ServerTell::Error(Error::UsernameTaken))),
            },
            Handler::AwaitingInsert => match answer {
                StoreAnswer::Inserted(true) => (
                    Handler::Done,
                    tell(ServerTell::Success(Success::SignUp)),
                ),
                _ => (Handler::Done, tell(ServerTell::Error(Error::UsernameTaken))),
            },
            Handler::AwaitingCredentials { id, password } => match lookup_in(answer) {
                Ok(Some(account)) => {
                    if account.admits(password.as_str()) {
                        (
                            Handler::Done,
                            Step::Reply {
                                tell: ServerTell::Success(Success::SignIn),
                                rebind: Some(id),
                            },
                        )
                    } else {
                        (Handler::Done, tell(ServerTell::Error(Error::InvalidPassword)))
                    }
                },
                _ => (Handler::Done, tell(ServerTell::Error(Error::InvalidUID))),
            },
            Handler::AwaitingIdentity { missing } => match lookup_in(answer) {
                Ok(Some(account)) => (
                    Handler::Done,
                    tell(ServerTell::Who { id: account.id, name: account.name }),
                ),
                _ => (Handler::Done, tell(ServerTell::Error(missing))),
            },
            Handler::Done => (Handler::Done, Step::Nothing),
        }
    }

    /// Goes on with an answer of the store. Where an account is made, its
    /// salt and its identity are drawn at random; where its identity was
    /// taken, a new one is drawn.
    pub fn resume(self, answer: StoreAnswer) -> (res: (Handler, Step))
        ensures
            exists|salt: Seq<char>, draw: u64|
                (self@ is AwaitingNameCheck ==> is_salt(salt)) && (res.0@, res.1@)
                    == #[trigger] resumed(self@, answer@, salt, draw),
            well_formed(self@) ==> well_formed(res.0@),
            well_formed(self@) ==> (res.1@ matches StepView::Insert(account) ==> account.hash.len()
                == HASH_LEN && account.id != ANONYMOUS),
    {
        let (salt, draw) = match &self {
            Handler::AwaitingNameCheck { .. } => (random_alphanumeric(SALT_LEN), random_u64()),
            Handler::AwaitingIdCheck { .. } => (String::new(), random_u64()),
            _ => (String::new(), 0),
        };
        let ghost before = self@;
        let ghost given = answer@;
        let res = self.resume_with(answer, salt, draw);
        assert((res.0@, res.1@) == resumed(before, given, salt@, draw));
        res
    }
}

/// A request gets one reply, no more: a reply is the handler's last step,
/// and a handler that has replied asks for nothing again.
pub proof fn lemma_one_reply(
    request: RequestView,
    handler: HandlerView,
    answer: AnswerView,
    salt: Seq<char>,
    draw: u64,
)
    ensures
        started(request).1 is Reply <==> started(request).0 is Done,
        !(started(request).1 is Nothing),
        !(handler is Done) ==> (resumed(handler, answer, salt, draw).1 is Reply <==> resumed(
            handler,
            answer,
            salt,
            draw,
        ).0 is Done),
        !(handler is Done) ==> !(resumed(handler, answer, salt, draw).1 is Nothing),
        handler is Done ==> resumed(handler, answer, salt, draw) == (
            HandlerView::Done,
            StepView::Nothing,
        ),
{
}

/// A store that fails never makes a success: whatever a handler waits for,
/// a failed store ends it with an error reply. A sign-up is told of success
/// only by the answer that its account went in.
pub proof fn lemma_store_failure(handler: HandlerView, answer: AnswerView, salt: Seq<char>, draw: u64)
    ensures
        !(handler is Done) ==> ({
            let (next, step) = resumed(handler, AnswerView::Failed, salt, draw);
            &&& next is Done
            &&& step is Reply
            &&& step->tell is Error
            &&& step->rebind is None
        }),
        resumed(handler, answer, salt, draw).1 == reply(
            ServerTellView::Success(Success::SignUp),
        ) ==> handler is AwaitingInsert && answer == AnswerView::Inserted(true),
        resumed(handler, answer, salt, draw).1 matches StepView::Insert(account) ==> handler
            == (HandlerView::AwaitingIdCheck { account }) && answer == AnswerView::Account(None),
{
}

/// No account is made under the anonymous identity, and a new account keeps
/// the name it signed up with and the hash of its password with its salt.
pub proof fn lemma_new_account(
    username: Seq<char>,
    password: Seq<char>,
    salt: Seq<char>,
    draw: u64,
)
    ensures
        ({
            let handler = HandlerView::AwaitingNameCheck { username, password };
            let (next, step) = resumed(handler, AnswerView::Account(None), salt, draw);
            &&& next is AwaitingIdCheck
            &&& next->account.id != ANONYMOUS
            &&& next->account.name == username
            &&& next->account.salt == salt
            &&& next->account.hash == salted_hash(password, salt)
            &&& step == StepView::FindById(next->account.id)
            &&& resumed(next, AnswerView::Account(None), salt, draw) == (
                HandlerView::AwaitingInsert,
                StepView::Insert(next->account),
            )
        }),
{
}

} // verus!
