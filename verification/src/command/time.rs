//! Points in time: from RFC 3339, as the operator writes them, to seconds
//! since the epoch, as the server reads them.

use vstd::prelude::*;
use vstd::string::*;
use crate::error::{fails_with, CtlError, ErrorKind};

verus! {

/// What `chrono` makes of a text as an RFC 3339 date and time: `Ok` with the
/// seconds since the epoch in the notation of chrono's `%s`, or `Err` with the
/// words of chrono's parse error.
pub uninterp spec fn rfc3339_seconds(text: Seq<char>) -> Result<Seq<char>, Seq<char>>;

/// Calls `chrono::DateTime::parse_from_rfc3339` and, on the date and time it
/// returns, `format("%s")`. Nothing is claimed of the outcome but that it is a
/// function of the text: parsing and formatting read neither clock, time zone
/// nor locale.
#[verifier::external_body]
fn parse_rfc3339(text: &str) -> (r: Result<String, String>)
    ensures
        match r {
            Ok(seconds) => rfc3339_seconds(text@) == Ok::<Seq<char>, Seq<char>>(seconds@),
            Err(words) => rfc3339_seconds(text@) == Err::<Seq<char>, Seq<char>>(words@),
        },
{
    match chrono::DateTime::parse_from_rfc3339(text) {
        Ok(moment) => Ok(moment.format("%s").to_string()),
        Err(e) => Err(e.to_string()),
    }
}

/// The seconds since the epoch of an RFC 3339 date and time, written out as a
/// number. A text that is no such date and time is refused with an error of
/// the kind `on_error`, whose detail holds the parser's words.
pub fn epoch_seconds(text: &str, on_error: ErrorKind) -> (r: Result<String, CtlError>)
    ensures
        match rfc3339_seconds(text@) {
            Ok(seconds) => r is Ok && r->Ok_0@ == seconds,
            Err(words) => fails_with(r, on_error, words),
        },
{
    match parse_rfc3339(text) {
        Ok(seconds) => Ok(seconds),
        Err(words) => Err(CtlError::new(on_error, words.as_str())),
    }
}

/// The seconds of a time that a command cannot do without.
pub open spec fn required_time(text: Seq<char>, missing: ErrorKind, invalid: ErrorKind) -> Result<
    Seq<char>,
    (ErrorKind, Seq<char>),
> {
    if text.len() == 0 {
        Err((missing, Seq::empty()))
    } else {
        match rfc3339_seconds(text) {
            Ok(seconds) => Ok(seconds),
            Err(words) => Err((invalid, words)),
        }
    }
}

/// The seconds of a time that a command can do without.
pub open spec fn optional_time(text: Seq<char>, invalid: ErrorKind) -> Result<
    Option<Seq<char>>,
    (ErrorKind, Seq<char>),
> {
    if text.len() == 0 {
        Ok(None)
    } else {
        match rfc3339_seconds(text) {
            Ok(seconds) => Ok(Some(seconds)),
            Err(words) => Err((invalid, words)),
        }
    }
}

/// Reads a time that a command cannot do without. An empty text stands for
/// "not given" and is refused with an error of the kind `missing`; a text that
/// is no RFC 3339 date and time is refused with one of the kind `invalid`.
pub fn read_required_time(text: &str, missing: ErrorKind, invalid: ErrorKind) -> (r: Result<
    String,
    CtlError,
>)
    ensures
        match required_time(text@, missing, invalid) {
            Ok(seconds) => r is Ok && r->Ok_0@ == seconds,
            Err((kind, detail)) => fails_with(r, kind, detail),
        },
{
    if text.is_empty() {
        return Err(CtlError::plain(missing));
    }
    epoch_seconds(text, invalid)
}

/// Reads a time that a command can do without. An empty text stands for "not
/// given"; a text that is no RFC 3339 date and time is refused with an error
/// of the kind `invalid`.
pub fn read_optional_time(text: &str, invalid: ErrorKind) -> (r: Result<Option<String>, CtlError>)
    ensures
        match optional_time(text@, invalid) {
            Ok(Some(seconds)) => r is Ok && r->Ok_0 is Some && r->Ok_0->Some_0@ == seconds,
            Ok(None) => r is Ok && r->Ok_0 is None,
            Err((kind, detail)) => fails_with(r, kind, detail),
        },
{
    if text.is_empty() {
        return Ok(None);
    }
    match epoch_seconds(text, invalid) {
        Ok(seconds) => Ok(Some(seconds)),
        Err(e) => Err(e),
    }
}

} // verus!
