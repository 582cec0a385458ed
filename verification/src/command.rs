//! The command language of the client: one line of input, one command.
//!
//! A line that does not start with a single `/` is a message. Otherwise the
//! line is cut into tokens, and the first token after the slash names the
//! command; the tokens after it are its arguments. Blanks separate tokens.

use vstd::prelude::*;

verus! {

/// What a user asks of the client.
#[derive(Debug, Clone, PartialEq, Eq)]
pub enum Command {
    Connect(String),
    Disconnect,
    SignUp { name: String, password: String },
    SignIn { name: String, password: String },
    Ping,
    WhoAmI,
    Message(String),
    Unknown,
    Error(String),
}

/// A `Command` with its strings as sequences of characters.
pub enum CommandView {
    Connect(Seq<char>),
    Disconnect,
    SignUp { name: Seq<char>, password: Seq<char> },
    SignIn { name: Seq<char>, password: Seq<char> },
    Ping,
    WhoAmI,
    Message(Seq<char>),
    Unknown,
    Error(Seq<char>),
}

impl View for Command {
    type V = CommandView;

    open spec fn view(&self) -> CommandView {
        match *self {
            Command::Connect(a) => CommandView::Connect(a@),
            Command::Disconnect => CommandView::Disconnect,
            Command::SignUp { name, password } => CommandView::SignUp {
                name: name@,
                password: password@,
            },
            Command::SignIn { name, password } => CommandView::SignIn {
                name: name@,
                password: password@,
            },
            Command::Ping => CommandView::Ping,
            Command::WhoAmI => CommandView::WhoAmI,
            Command::Message(m) => CommandView::Message(m@),
            Command::Unknown => CommandView::Unknown,
            Command::Error(e) => CommandView::Error(e@),
        }
    }
}

/// The kinds of character that the tokens are made of.
#[derive(Debug, Clone, Copy, PartialEq, Eq, Structural)]
pub enum CharClass {
    /// Space, tab, line feed and form feed: what separates tokens.
    Blank,
    /// Letters, digits, `.` and `:`: what a word is made of.
    Word,
    /// The letters `a` to `z` and `A` to `Z`: what a quoted word is made of.
    Letter,
}

impl CharClass {
    pub open spec fn has(self, c: char) -> bool {
        match self {
            CharClass::Blank => c == ' ' || c == '\t' || c == '\n' || c == '\x0c',
            CharClass::Letter => ('a' <= c && c <= 'z') || ('A' <= c && c <= 'Z'),
            CharClass::Word => ('a' <= c && c <= 'z') || ('A' <= c && c <= 'Z') || ('0' <= c && c
                <= '9') || c == '.' || c == ':',
        }
    }

    pub fn contains(&self, c: char) -> (b: bool)
        ensures
            b == self.has(c),
    {
        match self {
            CharClass::Blank => c == ' ' || c == '\t' || c == '\n' || c == '\x0c',
            CharClass::Letter => ('a' <= c && c <= 'z') || ('A' <= c && c <= 'Z'),
            CharClass::Word => ('a' <= c && c <= 'z') || ('A' <= c && c <= 'Z') || ('0' <= c && c
                <= '9') || c == '.' || c == ':',
        }
    }
}

/// Where the longest run of `class` characters that starts at `from` ends.
pub open spec fn run_end(s: Seq<char>, class: CharClass, from: int) -> int
    decreases s.len() - from,
{
    if 0 <= from < s.len() && class.has(s[from]) {
        run_end(s, class, from + 1)
    } else {
        from
    }
}

/// Where the token that starts at `start` ends.
///
/// A word character starts a word, which runs as far as word characters go. A
/// double quote starts a quoted word: the quote, one letter or more, and a
/// closing quote. Where the closing quote is missing the token is the quote
/// and its letters; where no letter follows, it is the quote alone. Any other
/// character is a token by itself.
pub open spec fn token_end(s: Seq<char>, start: int) -> int
    recommends
        0 <= start < s.len(),
{
    if CharClass::Word.has(s[start]) {
        run_end(s, CharClass::Word, start)
    } else if s[start] == '"' {
        let stop = run_end(s, CharClass::Letter, start + 1);
        if stop > start + 1 && stop < s.len() && s[stop] == '"' {
            stop + 1
        } else if stop > start + 1 {
            stop
        } else {
            start + 1
        }
    } else {
        start + 1
    }
}

/// The first token at or after `from`, as its start and its end; `None` where
/// only blanks are left.
pub open spec fn next_token(s: Seq<char>, from: int) -> Option<(int, int)> {
    let start = run_end(s, CharClass::Blank, from);
    if start < s.len() {
        Some((start, token_end(s, start)))
    } else {
        None
    }
}

/// Whether a line is a command: it starts with one slash, not with two.
pub open spec fn is_command_line(s: Seq<char>) -> bool {
    s.len() >= 1 && s[0] == '/' && !(s.len() >= 2 && s[1] == '/')
}

/// The connect command: its address is the token at or after `from`; where
/// there is none, the complaint `missing`.
pub open spec fn connect_command(s: Seq<char>, from: int, missing: Seq<char>) -> CommandView {
    match next_token(s, from) {
        None => CommandView::Error(missing),
        Some((start, end)) => CommandView::Connect(s.subrange(start, end)),
    }
}

/// The name and the password that follow a sign-in or sign-up word, or the
/// complaint about the first of them that is missing.
pub open spec fn credentials(
    s: Seq<char>,
    from: int,
    no_name: Seq<char>,
    no_password: Seq<char>,
) -> Result<(Seq<char>, Seq<char>), Seq<char>> {
    match next_token(s, from) {
        None => Err(no_name),
        Some((name_start, name_end)) => match next_token(s, name_end) {
            None => Err(no_password),
            Some((pass_start, pass_end)) => Ok(
                (s.subrange(name_start, name_end), s.subrange(pass_start, pass_end)),
            ),
        },
    }
}

/// The command that a line stands for.
///
/// The slash of a command line is a token by itself, so the command word is
/// the first token after position 1. Only its text counts: a quoted word or a
/// stray character names no command. Arguments are taken as they stand,
/// whatever kind of token they are.
pub open spec fn parsed(s: Seq<char>) -> CommandView {
    if !is_command_line(s) {
        CommandView::Message(s)
    } else {
        match next_token(s, 1) {
            None => CommandView::Unknown,
            Some((start, end)) => {
                let word = s.subrange(start, end);
                if word == "ping"@ {
                    CommandView::Ping
                } else if word == "whoami"@ {
                    CommandView::WhoAmI
                } else if word == "connect"@ {
                    connect_command(s, end, "Expected an address after /connect"@)
                } else if word == "signin"@ {
                    match credentials(
                        s,
                        end,
                        "expected a username after signin command"@,
                        "expected a password after signin command"@,
                    ) {
                        Ok((name, password)) => CommandView::SignIn { name, password },
                        Err(complaint) => CommandView::Error(complaint),
                    }
                } else if word == "signup"@ {
                    match credentials(
                        s,
                        end,
                        "expected a username after signup command"@,
                        "expected a password after signup command"@,
                    ) {
                        Ok((name, password)) => CommandView::SignUp { name, password },
                        Err(complaint) => CommandView::Error(complaint),
                    }
                } else if word == "disconnect"@ {
                    CommandView::Disconnect
                } else {
                    CommandView::Unknown
                }
            },
        }
    }
}

/// A run ends at the first character outside its class: everything from
/// `from` up to the end is in the class, and what stands at the end is not.
pub proof fn lemma_run_end(s: Seq<char>, class: CharClass, from: int)
    requires
        0 <= from <= s.len(),
    ensures
        from <= run_end(s, class, from) <= s.len(),
        forall|k: int| from <= k < run_end(s, class, from) ==> class.has(#[trigger] s[k]),
        run_end(s, class, from) < s.len() ==> !class.has(s[run_end(s, class, from)]),
    decreases s.len() - from,
{
    if from < s.len() && class.has(s[from]) {
        lemma_run_end(s, class, from + 1);
    }
}

/// The characters of a string, one by one.
fn chars_of(s: &str) -> (chars: Vec<char>)
    ensures
        chars@ == s@,
{
    let mut chars: Vec<char> = Vec::new();
    for c in it: s.chars()
        invariant
            chars@.len() == it.index(),
            forall|i: int| 0 <= i < chars@.len() ==> chars@[i] == it.seq()[i],
    {
        chars.push(c);
    }
    assert(chars@ =~= s@);
    chars
}

/// Scans the longest run of `class` characters from `from` on.
fn scan_run(chars: &Vec<char>, class: CharClass, from: usize) -> (end: usize)
    requires
        from <= chars@.len(),
    ensures
        end == run_end(chars@, class, from as int),
        from <= end <= chars@.len(),
{
    let mut end: usize = from;
    while end < chars.len() && class.contains(chars[end])
        invariant
            from <= end <= chars@.len(),
            run_end(chars@, class, from as int) == run_end(chars@, class, end as int),
        decreases chars@.len() - end,
    {
        end += 1;
    }
    end
}

/// Finds the first token at or after `from`.
fn scan_token(chars: &Vec<char>, from: usize) -> (token: Option<(usize, usize)>)
    requires
        from <= chars@.len(),
    ensures
        match token {
            Some((start, end)) => next_token(chars@, from as int) == Some(
                (start as int, end as int),
            ) && from <= start < end <= chars@.len(),
            None => next_token(chars@, from as int) is None,
        },
{
    let start = scan_run(chars, CharClass::Blank, from);
    if start >= chars.len() {
        return None;
    }
    let first = chars[start];
    proof {
        lemma_run_end(chars@, CharClass::Word, start + 1);
    }
    if CharClass::Word.contains(first) {
        let end = scan_run(chars, CharClass::Word, start);
        Some((start, end))
    } else if first == '"' {
        let stop = scan_run(chars, CharClass::Letter, start + 1);
        if stop > start + 1 && stop < chars.len() && chars[stop] == '"' {
            Some((start, stop + 1))
        } else if stop > start + 1 {
            Some((start, stop))
        } else {
            Some((start, start + 1))
        }
    } else {
        Some((start, start + 1))
    }
}

/// The characters of `line` from `start` to `end`, as a string of their own.
fn text_between(line: &str, start: usize, end: usize) -> (text: String)
    requires
        start <= end <= line@.len(),
    ensures
        text@ == line@.subrange(start as int, end as int),
{
    line.substring_char(start, end).to_owned()
}

/// Whether `text` spells `word`.
fn spells(text: &String, word: &str) -> (b: bool)
    ensures
        b == (text@ == word@),
{
    let word: String = word.to_owned();
    *text == word
}

/// Reads the address of a connect command.
fn parse_connect(line: &str, chars: &Vec<char>, from: usize, missing: &str) -> (cmd: Command)
    requires
        chars@ == line@,
        from <= chars@.len(),
    ensures
        cmd@ == connect_command(line@, from as int, missing@),
{
    match scan_token(chars, from) {
        None => Command::Error(missing.to_owned()),
        Some((start, end)) => Command::Connect(text_between(line, start, end)),
    }
}

/// Reads the name and the password of a sign-in or sign-up command.
fn parse_credentials(
    line: &str,
    chars: &Vec<char>,
    from: usize,
    no_name: &str,
    no_password: &str,
) -> (res: Result<(String, String), String>)
    requires
        chars@ == line@,
        from <= chars@.len(),
    ensures
        match res {
            Ok((name, password)) => credentials(line@, from as int, no_name@, no_password@) == Ok::<
                (Seq<char>, Seq<char>),
                Seq<char>,
            >((name@, password@)),
            Err(complaint) => credentials(line@, from as int, no_name@, no_password@) == Err::<
                (Seq<char>, Seq<char>),
                Seq<char>,
            >(complaint@),
        },
{
    match scan_token(chars, from) {
        None => Err(no_name.to_owned()),
        Some((name_start, name_end)) => match scan_token(chars, name_end) {
            None => Err(no_password.to_owned()),
            Some((pass_start, pass_end)) => Ok(
                (
                    text_between(line, name_start, name_end),
                    text_between(line, pass_start, pass_end),
                ),
            ),
        },
    }
}

/// Reads one line of input as a command.
pub fn parse(line: String) -> (cmd: Command)
    ensures
        cmd@ == parsed(line@),
{
    let chars = chars_of(line.as_str());
    let n = chars.len();
    if n == 0 || chars[0] != '/' || (n >= 2 && chars[1] == '/') {
        return Command::Message(line);
    }
    match scan_token(&chars, 1) {
        None => Command::Unknown,
        Some((start, end)) => {
            let word = text_between(line.as_str(), start, end);
            if spells(&word, "ping") {
                Command::Ping
            } else if spells(&word, "whoami") {
                Command::WhoAmI
            } else if spells(&word, "connect") {
                parse_connect(line.as_str(), &chars, end, "Expected an address after /connect")
            } else if spells(&word, "signin") {
                match parse_credentials(
                    line.as_str(),
                    &chars,
                    end,
                    "expected a username after signin command",
                    "expected a password after signin command",
                ) {
                    Ok((name, password)) => Command::SignIn { name, password },
                    Err(complaint) => Command::Error(complaint),
                }
            } else if spells(&word, "signup") {
                match parse_credentials(
                    line.as_str(),
                    &chars,
                    end,
                    "expected a username after signup command",
                    "expected a password after signup command",
                ) {
                    Ok((name, password)) => Command::SignUp { name, password },
                    Err(complaint) => Command::Error(complaint),
                }
            } else if spells(&word, "disconnect") {
                Command::Disconnect
            } else {
                Command::Unknown
            }
        },
    }
}

} // verus!
