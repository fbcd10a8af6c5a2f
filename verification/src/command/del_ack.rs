//! Removing the acknowledgements of the selected hosts or services.

use vstd::prelude::*;
use vstd::string::*;
use crate::command::author::{author_spec, lookup_if_needed, resolve_author, UserLookup};
use crate::command::filter::{
    compose_hard_state_filter,
    hard_state_filter,
    states_of_flags,
    StatePredicate,
};
use crate::command::payload::{payload_head, push_text_field, request_is, start_payload, text_field};
use crate::command::selector::{
    compile_selector_filter,
    selector_filter,
    selector_kind,
    ObjectSelector,
    TargetKind,
};
use crate::constants::ICINGA2_DEL_ACK;
use crate::error::{CtlError, ErrorClass, ErrorKind};
use crate::request::{action_request, HttpRequest};

verus! {

/// What the operator asked for.
#[derive(Debug)]
pub struct DelAckOptions {
    /// The pattern for host names; empty if not given.
    pub host: String,
    /// The pattern for service names; empty if not given.
    pub service: String,
    pub author: Option<String>,
    pub warning: bool,
    pub critical: bool,
    pub unknown: bool,
}

/// The payload that removes acknowledgements.
pub open spec fn payload_spec(kind: TargetKind, filter: Seq<char>, author: Seq<char>) -> Seq<char> {
    payload_head(kind, filter) + ","@ + text_field("author"@, author) + "}"@
}

/// Writes the payload that removes acknowledgements: the kind of object, the
/// filter and the author.
pub fn payload(kind: TargetKind, filter: &str, author: &str) -> (r: String)
    ensures
        r@ == payload_spec(kind, filter@, author@),
{
    let mut r = start_payload(kind, filter);
    r.append(",");
    push_text_field(&mut r, "author", author);
    r.append("}");
    r
}

/// What the command sends for the operator's options, given what the system
/// said of the effective user: the payload, or the first error. The author
/// comes first, then the selector.
pub open spec fn checked(o: DelAckOptions, lookup: UserLookup) -> Result<
    Seq<char>,
    (ErrorKind, Seq<char>),
> {
    match author_spec(o.author, lookup, "acknowledgement"@) {
        Err(e) => Err(e),
        Ok(author) => if o.host@.len() == 0 && o.service@.len() == 0 {
            Err((ErrorKind::MissingSelector, " for acknowledgement deletion"@))
        } else {
            Ok(
                payload_spec(
                    selector_kind(o.host@, o.service@),
                    hard_state_filter(
                        selector_kind(o.host@, o.service@),
                        selector_filter(o.host@, o.service@),
                        states_of_flags(false, o.warning, o.critical, o.unknown),
                    ),
                    author,
                ),
            )
        },
    }
}

/// Builds the request that removes acknowledgements, given what the system
/// said of the effective user. The answer of the system counts only where the
/// operator gave no author.
pub fn request_with(opts: &DelAckOptions, lookup: &UserLookup) -> (r: Result<HttpRequest, CtlError>)
    ensures
        request_is(r, ICINGA2_DEL_ACK@, checked(*opts, *lookup)),
        r is Err ==> r->Err_0.kind.class_spec() == ErrorClass::Validation,
{
    let author = match resolve_author(&opts.author, lookup, "acknowledgement") {
        Ok(author) => author,
        Err(e) => {
            return Err(e);
        },
    };
    let states = StatePredicate::from_flags(false, opts.warning, opts.critical, opts.unknown);
    let selector = ObjectSelector::new(opts.host.as_str(), opts.service.as_str());
    let (kind, compiled) = match compile_selector_filter(&selector) {
        Ok(compiled) => compiled,
        Err(_) => {
            return Err(CtlError::new(ErrorKind::MissingSelector, " for acknowledgement deletion"));
        },
    };
    let filter = compose_hard_state_filter(kind, compiled.as_str(), &states);
    let body = payload(kind, filter.as_str(), author.as_str());
    Ok(action_request(ICINGA2_DEL_ACK, body))
}

/// Builds the request that removes acknowledgements. Where the operator gave
/// no author, the system is asked for the effective user; the request is then
/// the one that `request_with` builds for some answer of the system.
pub fn request(opts: &DelAckOptions) -> (r: Result<HttpRequest, CtlError>)
    ensures
        exists|lookup: UserLookup| request_is(r, ICINGA2_DEL_ACK@, #[trigger] checked(*opts, lookup)),
        opts.author is Some ==> request_is(
            r,
            ICINGA2_DEL_ACK@,
            checked(*opts, UserLookup::Unavailable),
        ),
        r is Err ==> r->Err_0.kind.class_spec() == ErrorClass::Validation,
{
    let lookup = lookup_if_needed(&opts.author);
    request_with(opts, &lookup)
}

} // verus!
