//! The pieces that the JSON bodies of the commands are put together from.
//! Values are written between their quotes as they are; only the filter
//! expression, which is made here, has its quotes escaped.

use vstd::prelude::*;
use vstd::string::*;
use crate::command::selector::{match_term, TargetKind};
use crate::error::{fails_with, CtlError, ErrorKind};
use crate::request::{is_action, HttpRequest};
use crate::text::{
    escape_quotes,
    escape_quotes_spec,
    lemma_escape_quotes_concat,
    lemma_escape_quotes_plain,
};

verus! {

/// A member of a JSON object whose value is a text: `"name":"value"`.
pub open spec fn text_field(name: Seq<char>, value: Seq<char>) -> Seq<char> {
    "\""@ + name + "\":\""@ + value + "\""@
}

/// A member of a JSON object whose value is written without quotes: `"name":value`.
pub open spec fn bare_field(name: Seq<char>, value: Seq<char>) -> Seq<char> {
    "\""@ + name + "\":"@ + value
}

/// Appends `"name":"value"` to `out`.
pub fn push_text_field(out: &mut String, name: &str, value: &str)
    ensures
        final(out)@ == old(out)@ + text_field(name@, value@),
{
    let mut field = String::from_str("\"");
    field.append(name);
    field.append("\":\"");
    field.append(value);
    field.append("\"");
    out.append(field.as_str());
}

/// Appends `"name":value` to `out`.
pub fn push_bare_field(out: &mut String, name: &str, value: &str)
    ensures
        final(out)@ == old(out)@ + bare_field(name@, value@),
{
    let mut field = String::from_str("\"");
    field.append(name);
    field.append("\":");
    field.append(value);
    out.append(field.as_str());
}

/// How every payload that selects objects begins: the kind of object and the
/// filter expression, the latter with its quotes escaped.
pub open spec fn payload_head(kind: TargetKind, filter: Seq<char>) -> Seq<char> {
    "{"@ + text_field("type"@, kind.payload_name_spec()) + ","@ + text_field(
        "filter"@,
        escape_quotes_spec(filter),
    )
}

/// The beginning of a payload that selects objects: the opening brace, the
/// `type` member and the `filter` member. Each double quote of the filter
/// expression gets one backslash in front, as its place inside a JSON text
/// demands.
pub fn start_payload(kind: TargetKind, filter: &str) -> (out: String)
    ensures
        out@ == payload_head(kind, filter@),
{
    let mut out = String::from_str("{");
    push_text_field(&mut out, "type", kind.payload_name());
    out.append(",");
    let escaped = escape_quotes(filter);
    push_text_field(&mut out, "filter", escaped.as_str());
    out
}

/// The test of one name against one pattern as it stands in a payload.
pub open spec fn escaped_match_term(pattern: Seq<char>, object: Seq<char>) -> Seq<char> {
    "match(\\\""@ + pattern + "\\\", "@ + object + ".name)"@
}

/// In a payload, the two quotes around a pattern carry one backslash each, and
/// a pattern without quotes of its own stands between them unchanged.
pub proof fn lemma_escaped_match_term(pattern: Seq<char>, object: Seq<char>)
    requires
        forall|i: int| 0 <= i < pattern.len() ==> pattern[i] != '"',
        forall|i: int| 0 <= i < object.len() ==> object[i] != '"',
    ensures
        escape_quotes_spec(match_term(pattern, object)) == escaped_match_term(pattern, object),
{
    let open = "match(\""@;
    let middle = "\", "@;
    let close = ".name)"@;
    reveal_strlit("match(\"");
    reveal_strlit("\", ");
    reveal_strlit(".name)");
    reveal_strlit("match(\\\"");
    reveal_strlit("\\\", ");
    assert(escape_quotes_spec(open) =~= "match(\\\""@) by {
        reveal_with_fuel(escape_quotes_spec, 8);
        assert(open.drop_last() =~= seq!['m', 'a', 't', 'c', 'h', '(']);
        lemma_escape_quotes_plain(open.drop_last());
    }
    assert(escape_quotes_spec(middle) =~= "\\\", "@) by {
        assert(middle =~= seq!['"'] + seq![',', ' ']);
        lemma_escape_quotes_concat(seq!['"'], seq![',', ' ']);
        lemma_escape_quotes_plain(seq![',', ' ']);
        reveal_with_fuel(escape_quotes_spec, 2);
    }
    lemma_escape_quotes_plain(close);
    lemma_escape_quotes_plain(pattern);
    lemma_escape_quotes_plain(object);
    lemma_escape_quotes_concat(open, pattern);
    lemma_escape_quotes_concat(open + pattern, middle);
    lemma_escape_quotes_concat(open + pattern + middle, object);
    lemma_escape_quotes_concat(open + pattern + middle + object, close);
}

/// Whether `r` is what `expected` describes: the plain POST of the body to
/// `path`, or the error of the kind and detail.
pub open spec fn request_is(r: Result<HttpRequest, CtlError>, path: Seq<char>, expected: Result<
    Seq<char>,
    (ErrorKind, Seq<char>),
>) -> bool {
    match expected {
        Ok(body) => r is Ok && is_action(r->Ok_0, path, body),
        Err((kind, detail)) => fails_with(r, kind, detail),
    }
}

} // verus!
