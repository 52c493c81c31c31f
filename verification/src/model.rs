//! The data the directory serves: bots, packages, and the status envelope
//! both endpoints wrap their payload in.

use vstd::prelude::*;
use vstd::string::StringExecFns;

verus! {

/// A file-serving bot in the directory, identified by an integer id.
pub struct Bot {
    pub id: i64,
    pub name: String,
}

impl Clone for Bot {
    fn clone(&self) -> (r: Self)
        ensures
            r == *self,
    {
        Bot { id: self.id, name: self.name.clone() }
    }
}

/// A distributable item offered by a bot. `bot_id` is a lookup key into the
/// bot list, not an ownership relation.
#[derive(Clone, Copy)]
pub struct Package {
    pub bot_id: i64,
    pub number: i32,
}

/// The `/bots` endpoint's body: a status envelope around a list of bots.
/// `content` is only meaningful when `status` is `"OK"`; otherwise `message`
/// explains the failure.
pub struct BotList {
    pub status: String,
    pub message: String,
    pub content: Vec<Bot>,
}

/// The `/search` endpoint's body: the same envelope shape around a list of
/// packages.
pub struct SearchResult {
    pub status: String,
    pub message: String,
    pub content: Vec<Package>,
}

/// Everything that makes a run fail after the arguments were accepted.
pub enum AppError {
    /// The `/bots` envelope carried a status other than `"OK"`; the field is
    /// the server's `message`.
    BotListFailed(String),
    /// The `/search` envelope carried a status other than `"OK"`; the field
    /// is the server's `message`.
    SearchFailed(String),
    /// The search returned no packages at all.
    NoResults,
    /// The first package references a bot id that the bot list lacks.
    UnknownBot,
}

/// The diagnostic each error is reported with. The server's `message` is
/// carried verbatim for the two envelope failures.
pub open spec fn diagnostic_text(e: AppError) -> Seq<char> {
    match e {
        AppError::BotListFailed(m) => "Could not fetch bot list: "@ + m@,
        AppError::SearchFailed(m) => "Could not search package: "@ + m@,
        AppError::NoResults => "No search result to resolve"@,
        AppError::UnknownBot => "No bot matches the first search result"@,
    }
}

/// When an envelope is rejected, the diagnostic carries the server's
/// `message` verbatim: the text is a fixed prefix followed by the message,
/// so the message is recoverable as its suffix.
pub proof fn lemma_diagnostic_carries_message(e: AppError)
    ensures
        e matches AppError::BotListFailed(m) ==> diagnostic_text(e) == "Could not fetch bot list: "@
            + m@ && diagnostic_text(e).subrange(
            diagnostic_text(e).len() - m@.len(),
            diagnostic_text(e).len() as int,
        ) == m@,
        e matches AppError::SearchFailed(m) ==> diagnostic_text(e) == "Could not search package: "@
            + m@ && diagnostic_text(e).subrange(
            diagnostic_text(e).len() - m@.len(),
            diagnostic_text(e).len() as int,
        ) == m@,
{
    match e {
        AppError::BotListFailed(m) => {
            let t = "Could not fetch bot list: "@ + m@;
            assert(t.subrange(t.len() - m@.len(), t.len() as int) =~= m@);
        },
        AppError::SearchFailed(m) => {
            let t = "Could not search package: "@ + m@;
            assert(t.subrange(t.len() - m@.len(), t.len() as int) =~= m@);
        },
        AppError::NoResults => {
        },
        AppError::UnknownBot => {
        },
    }
}

impl AppError {
    /// Render the diagnostic line for this error.
    pub fn diagnostic(&self) -> (r: String)
        ensures
            r@ == diagnostic_text(*self),
    {
        match self {
            AppError::BotListFailed(m) => {
                let mut s = String::from_str("Could not fetch bot list: ");
                s.append(m.as_str());
                s
            },
            AppError::SearchFailed(m) => {
                let mut s = String::from_str("Could not search package: ");
                s.append(m.as_str());
                s
            },
            AppError::NoResults => String::from_str("No search result to resolve"),
            AppError::UnknownBot => String::from_str("No bot matches the first search result"),
        }
    }
}

impl BotList {
    /// Unwrap the envelope: the bot list if the status is `"OK"`, else the
    /// error that carries the server's message.
    pub fn into_content(self) -> (r: Result<Vec<Bot>, AppError>)
        ensures
            self.status@ == "OK"@ ==> (r matches Ok(c) && c == self.content),
            self.status@ != "OK"@ ==> (r matches Err(e) && e == AppError::BotListFailed(self.message)),
    {
        let ok: String = String::from_str("OK");
        if self.status == ok {
            Ok(self.content)
        } else {
            Err(AppError::BotListFailed(self.message))
        }
    }
}

impl SearchResult {
    /// Unwrap the envelope: the package list if the status is `"OK"`, else
    /// the error that carries the server's message.
    pub fn into_content(self) -> (r: Result<Vec<Package>, AppError>)
        ensures
            self.status@ == "OK"@ ==> (r matches Ok(c) && c == self.content),
            self.status@ != "OK"@ ==> (r matches Err(e) && e == AppError::SearchFailed(self.message)),
    {
        let ok: String = String::from_str("OK");
        if self.status == ok {
            Ok(self.content)
        } else {
            Err(AppError::SearchFailed(self.message))
        }
    }
}

} // verus!
