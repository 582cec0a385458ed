//! The messages of the protocol: what a client asks and what the server tells.

use vstd::prelude::*;

verus! {

/// The identity of a connection that has not signed in.
pub const ANONYMOUS: u64 = 0;

/// Why the server refused a request.
#[derive(Debug, Clone, Copy, PartialEq, Eq, Structural)]
pub enum Error {
    NotLoggedIn,
    AlreadyLoggedIn,
    UsernameTaken,
    InvalidUID,
    InvalidUsername,
    InvalidPassword,
}

impl Error {
    /// The sentence shown to a user for this error.
    pub open spec fn text(self) -> Seq<char> {
        match self {
            Error::NotLoggedIn => "Not logged in"@,
            Error::AlreadyLoggedIn => "Already logged in"@,
            Error::UsernameTaken => "Username is taken"@,
            Error::InvalidUID => "Invalid UID"@,
            Error::InvalidUsername => "Invalid Username"@,
            Error::InvalidPassword => "Invalid password"@,
        }
    }

    pub fn message(&self) -> (res: String)
        ensures
            res@ == self.text(),
    {
        match self {
            Error::NotLoggedIn => "Not logged in".to_owned(),
            Error::AlreadyLoggedIn => "Already logged in".to_owned(),
            Error::UsernameTaken => "Username is taken".to_owned(),
            Error::InvalidUID => "Invalid UID".to_owned(),
            Error::InvalidUsername => "Invalid Username".to_owned(),
            Error::InvalidPassword => "Invalid password".to_owned(),
        }
    }
}

/// Which request the server carried out.
#[derive(Debug, Clone, Copy, PartialEq, Eq, Structural)]
pub enum Success {
    SignIn,
    SignUp,
}

impl Success {
    /// The sentence shown to a user for this success.
    pub open spec fn text(self) -> Seq<char> {
        match self {
            Success::SignIn => "Successfully signed in"@,
            Success::SignUp => "Successfully signed up"@,
        }
    }

    pub fn message(&self) -> (res: String)
        ensures
            res@ == self.text(),
    {
        match self {
            Success::SignIn => "Successfully signed in".to_owned(),
            Success::SignUp => "Successfully signed up".to_owned(),
        }
    }
}

/// What the server tells a client.
#[derive(Debug, Clone, PartialEq, Eq)]
pub enum ServerTell {
    NumConnected,
    /// The answer to a question about an identity.
    Who { id: u64, name: String },
    Syndication { from: u64, content: String },
    Success(Success),
    Error(Error),
}

/// A `ServerTell` with its strings as sequences of characters.
pub enum ServerTellView {
    NumConnected,
    Who { id: u64, name: Seq<char> },
    Syndication { from: u64, content: Seq<char> },
    Success(Success),
    Error(Error),
}

impl View for ServerTell {
    type V = ServerTellView;

    open spec fn view(&self) -> ServerTellView {
        match *self {
            ServerTell::NumConnected => ServerTellView::NumConnected,
            ServerTell::Who { id, name } => ServerTellView::Who { id, name: name@ },
            ServerTell::Syndication { from, content } => ServerTellView::Syndication {
                from,
                content: content@,
            },
            ServerTell::Success(s) => ServerTellView::Success(s),
            ServerTell::Error(e) => ServerTellView::Error(e),
        }
    }
}

/// What a client asks of the server.
#[derive(Debug, Clone, PartialEq, Eq)]
pub enum ClientQuestion {
    SignUp { username: String, password: String },
    SignIn { id: u64, password: String },
    WhoIsID { id: u64 },
    WhoIsName { name: String },
    WhoAmI,
}

/// A `ClientQuestion` with its strings as sequences of characters.
pub enum ClientQuestionView {
    SignUp { username: Seq<char>, password: Seq<char> },
    SignIn { id: u64, password: Seq<char> },
    WhoIsID { id: u64 },
    WhoIsName { name: Seq<char> },
    WhoAmI,
}

impl View for ClientQuestion {
    type V = ClientQuestionView;

    open spec fn view(&self) -> ClientQuestionView {
        match *self {
            ClientQuestion::SignUp { username, password } => ClientQuestionView::SignUp {
                username: username@,
                password: password@,
            },
            ClientQuestion::SignIn { id, password } => ClientQuestionView::SignIn {
                id,
                password: password@,
            },
            ClientQuestion::WhoIsID { id } => ClientQuestionView::WhoIsID { id },
            ClientQuestion::WhoIsName { name } => ClientQuestionView::WhoIsName { name: name@ },
            ClientQuestion::WhoAmI => ClientQuestionView::WhoAmI,
        }
    }
}

} // verus!
