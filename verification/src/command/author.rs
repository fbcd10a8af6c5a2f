//! Who an action is made by: the author the operator names, or else the
//! effective user of the process.

use vstd::prelude::*;
use vstd::string::*;
use crate::error::{fails_with, CtlError, ErrorKind};

verus! {

/// What the system says of the effective user of the process.
#[derive(Debug)]
pub enum UserLookup {
    /// The user's name.
    Name(String),
    /// The user has a name that is not Unicode; the name in quoted form.
    NotUnicode(String),
    /// The system knows no name for the user.
    Unavailable,
}

/// Calls `users::get_effective_username` and turns the name it returns into a
/// `String`. The outcome depends on the process and on the system's user
/// database, so nothing is promised of it.
#[verifier::external_body]
fn effective_user() -> UserLookup {
    match users::get_effective_username() {
        Some(name) => match name.into_string() {
            Ok(name) => UserLookup::Name(name),
            Err(name) => UserLookup::NotUnicode(format!("{:?}", name)),
        },
        None => UserLookup::Unavailable,
    }
}

/// The author of an action, or why there is none.
pub open spec fn author_spec(given: Option<String>, lookup: UserLookup, subject: Seq<char>) -> Result<
    Seq<char>,
    (ErrorKind, Seq<char>),
> {
    match given {
        Some(author) => Ok(author@),
        None => match lookup {
            UserLookup::Name(name) => Ok(name@),
            UserLookup::NotUnicode(name) => Err((ErrorKind::UserNameNotUnicode, name@)),
            UserLookup::Unavailable => Err((ErrorKind::NoEffectiveUser, subject)),
        },
    }
}

/// Whether `r` is what `expected` describes.
pub open spec fn author_is(r: Result<String, CtlError>, expected: Result<
    Seq<char>,
    (ErrorKind, Seq<char>),
>) -> bool {
    match expected {
        Ok(author) => r is Ok && r->Ok_0@ == author,
        Err((kind, detail)) => fails_with(r, kind, detail),
    }
}

/// Decides the author of an action from the author the operator gave, if any,
/// and from what the system said of the effective user. A given author is
/// taken as it is. Without one the effective user's name is the author; if
/// the system has no name for the user, or one that is not Unicode, there is
/// no author and the action fails. `subject` names what the author is needed
/// for; it becomes the detail of the error that asks for an explicit author.
pub fn resolve_author(given: &Option<String>, lookup: &UserLookup, subject: &str) -> (r: Result<
    String,
    CtlError,
>)
    ensures
        author_is(r, author_spec(*given, *lookup, subject@)),
{
    match given {
        Some(author) => Ok(author.clone()),
        None => match lookup {
            UserLookup::Name(name) => Ok(name.clone()),
            UserLookup::NotUnicode(name) => Err(
                CtlError::new(ErrorKind::UserNameNotUnicode, name.as_str()),
            ),
            UserLookup::Unavailable => Err(CtlError::new(ErrorKind::NoEffectiveUser, subject)),
        },
    }
}

/// What the system says of the effective user, asked only where the operator
/// gave no author. With an author given the answer is not needed and
/// `Unavailable` stands in for it.
pub fn lookup_if_needed(given: &Option<String>) -> (lookup: UserLookup)
    ensures
        given is Some ==> lookup == UserLookup::Unavailable,
{
    match given {
        Some(_) => UserLookup::Unavailable,
        None => effective_user(),
    }
}

} // verus!
