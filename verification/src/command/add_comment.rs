//! Adding a comment to the selected hosts or services.

use vstd::prelude::*;
use vstd::string::*;
use crate::command::author::{author_spec, lookup_if_needed, resolve_author, UserLookup};
use crate::command::payload::{payload_head, push_text_field, request_is, start_payload, text_field};
use crate::command::selector::{
    compile_selector_filter,
    selector_filter,
    selector_kind,
    ObjectSelector,
    TargetKind,
};
use crate::constants::ICINGA2_ADD_COMMENT;
use crate::error::{CtlError, ErrorClass, ErrorKind};
use crate::request::{action_request, HttpRequest};

verus! {

/// What the operator asked for.
#[derive(Debug)]
pub struct AddCommentOptions {
    /// The pattern for host names; empty if not given.
    pub host: String,
    /// The pattern for service names; empty if not given.
    pub service: String,
    pub comment: Option<String>,
    pub author: Option<String>,
}

/// The payload that adds a comment.
pub open spec fn payload_spec(
    kind: TargetKind,
    filter: Seq<char>,
    author: Seq<char>,
    comment: Seq<char>,
) -> Seq<char> {
    payload_head(kind, filter) + ","@ + text_field("author"@, author) + ","@ + text_field(
        "comment"@,
        comment,
    ) + "}"@
}

/// Writes the payload that adds a comment: the kind of object, the filter,
/// the author and the comment.
pub fn payload(kind: TargetKind, filter: &str, author: &str, comment: &str) -> (r: String)
    ensures
        r@ == payload_spec(kind, filter@, author@, comment@),
{
    let mut r = start_payload(kind, filter);
    r.append(",");
    push_text_field(&mut r, "author", author);
    r.append(",");
    push_text_field(&mut r, "comment", comment);
    r.append("}");
    r
}

/// What the command sends for the operator's options, given what the system
/// said of the effective user: the payload, or the first error. The comment
/// comes first, then the author, then the selector.
pub open spec fn checked(o: AddCommentOptions, lookup: UserLookup) -> Result<
    Seq<char>,
    (ErrorKind, Seq<char>),
> {
    if o.comment is None {
        Err((ErrorKind::MissingComment, "Comment"@))
    } else {
        match author_spec(o.author, lookup, "comment"@) {
            Err(e) => Err(e),
            Ok(author) => if o.host@.len() == 0 && o.service@.len() == 0 {
                Err((ErrorKind::MissingSelector, " for comment addition"@))
            } else {
                Ok(
                    payload_spec(
                        selector_kind(o.host@, o.service@),
                        selector_filter(o.host@, o.service@),
                        author,
                        o.comment->Some_0@,
                    ),
                )
            },
        }
    }
}

/// Builds the request that adds a comment, given what the system said of the
/// effective user. The answer of the system counts only where the operator
/// gave no author.
pub fn request_with(opts: &AddCommentOptions, lookup: &UserLookup) -> (r: Result<
    HttpRequest,
    CtlError,
>)
    ensures
        request_is(r, ICINGA2_ADD_COMMENT@, checked(*opts, *lookup)),
        r is Err ==> r->Err_0.kind.class_spec() == ErrorClass::Validation,
{
    let comment = match &opts.comment {
        Some(comment) => comment,
        None => {
            return Err(CtlError::new(ErrorKind::MissingComment, "Comment"));
        },
    };
    let author = match resolve_author(&opts.author, lookup, "comment") {
        Ok(author) => author,
        Err(e) => {
            return Err(e);
        },
    };
    let selector = ObjectSelector::new(opts.host.as_str(), opts.service.as_str());
    let (kind, filter) = match compile_selector_filter(&selector) {
        Ok(compiled) => compiled,
        Err(_) => {
            return Err(CtlError::new(ErrorKind::MissingSelector, " for comment addition"));
        },
    };
    let body = payload(kind, filter.as_str(), author.as_str(), comment.as_str());
    Ok(action_request(ICINGA2_ADD_COMMENT, body))
}

/// Builds the request that adds a comment. Where the operator gave no author,
/// the system is asked for the effective user; the request is then the one
/// that `request_with` builds for some answer of the system.
pub fn request(opts: &AddCommentOptions) -> (r: Result<HttpRequest, CtlError>)
    ensures
        exists|lookup: UserLookup|
            request_is(r, ICINGA2_ADD_COMMENT@, #[trigger] checked(*opts, lookup)),
        opts.author is Some ==> request_is(
            r,
            ICINGA2_ADD_COMMENT@,
            checked(*opts, UserLookup::Unavailable),
        ),
        r is Err ==> r->Err_0.kind.class_spec() == ErrorClass::Validation,
{
    let lookup = lookup_if_needed(&opts.author);
    request_with(opts, &lookup)
}

} // verus!
