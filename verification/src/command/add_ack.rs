//! Acknowledging the problems of the selected hosts or services.

use vstd::prelude::*;
use vstd::string::*;
use crate::command::author::{author_spec, lookup_if_needed, resolve_author, UserLookup};
use crate::command::filter::{
    compose_hard_state_filter,
    hard_state_filter,
    states_of_flags,
    StatePredicate,
};
use crate::command::payload::{
    bare_field,
    payload_head,
    push_bare_field,
    push_text_field,
    request_is,
    start_payload,
    text_field,
};
use crate::command::selector::{
    compile_selector_filter,
    selector_filter,
    selector_kind,
    ObjectSelector,
    TargetKind,
};
use crate::command::time::{optional_time, read_optional_time};
use crate::constants::ICINGA2_ADD_ACK;
use crate::error::{CtlError, ErrorClass, ErrorKind};
use crate::request::{action_request, HttpRequest};
use crate::text::{bool_text, bool_to_text};

verus! {

/// What the operator asked for.
#[derive(Debug)]
pub struct AddAckOptions {
    /// The pattern for host names; empty if not given.
    pub host: String,
    /// The pattern for service names; empty if not given.
    pub service: String,
    pub comment: Option<String>,
    pub author: Option<String>,
    /// When the acknowledgement expires, in RFC 3339; empty if it does not.
    pub expire: String,
    pub sticky: bool,
    pub persistent: bool,
    pub no_notification: bool,
    pub warning: bool,
    pub critical: bool,
    pub unknown: bool,
}

/// The kinds of acknowledgement and whom they reach.
#[derive(Clone, Copy, Debug)]
pub struct AckFlags {
    pub sticky: bool,
    pub notify: bool,
    pub persistent: bool,
}

/// The member of the payload that holds the expiry, with the comma behind it;
/// empty without an expiry.
pub open spec fn expiry_part(expiry: Option<Seq<char>>) -> Seq<char> {
    match expiry {
        Some(seconds) => bare_field("expiry"@, seconds) + ","@,
        None => Seq::empty(),
    }
}

/// The payload that acknowledges problems.
pub open spec fn payload_spec(
    kind: TargetKind,
    filter: Seq<char>,
    author: Seq<char>,
    comment: Seq<char>,
    expiry: Option<Seq<char>>,
    sticky: bool,
    notify: bool,
    persistent: bool,
) -> Seq<char> {
    payload_head(kind, filter) + ","@ + text_field("author"@, author) + ","@ + text_field(
        "comment"@,
        comment,
    ) + ","@ + expiry_part(expiry) + bare_field("sticky"@, bool_text(sticky)) + ","@ + bare_field(
        "notify"@,
        bool_text(notify),
    ) + ","@ + bare_field("persistent"@, bool_text(persistent)) + "}"@
}

/// Writes the payload that acknowledges problems: the kind of object, the
/// filter, author and comment, the expiry in seconds since the epoch if there
/// is one, and the three flags.
pub fn payload(
    kind: TargetKind,
    filter: &str,
    author: &str,
    comment: &str,
    expiry: &Option<String>,
    flags: AckFlags,
) -> (r: String)
    ensures
        r@ == payload_spec(
            kind,
            filter@,
            author@,
            comment@,
            match *expiry {
                Some(seconds) => Some(seconds@),
                None => None,
            },
            flags.sticky,
            flags.notify,
            flags.persistent,
        ),
{
    let mut r = start_payload(kind, filter);
    r.append(",");
    push_text_field(&mut r, "author", author);
    r.append(",");
    push_text_field(&mut r, "comment", comment);
    r.append(",");
    let mut part = String::new();
    match expiry {
        Some(seconds) => {
            push_bare_field(&mut part, "expiry", seconds.as_str());
            part.append(",");
        },
        None => {},
    }
    r.append(part.as_str());
    push_bare_field(&mut r, "sticky", bool_to_text(flags.sticky));
    r.append(",");
    push_bare_field(&mut r, "notify", bool_to_text(flags.notify));
    r.append(",");
    push_bare_field(&mut r, "persistent", bool_to_text(flags.persistent));
    r.append("}");
    r
}

/// What the command sends for the operator's options, given what the system
/// said of the effective user: the payload, or the first error in the order
/// of the checks. The comment comes first, then the author, the expiry, and
/// last the selector. Notifications are sent unless the operator turned them
/// off.
pub open spec fn checked(o: AddAckOptions, lookup: UserLookup) -> Result<
    Seq<char>,
    (ErrorKind, Seq<char>),
> {
    if o.comment is None {
        Err((ErrorKind::MissingComment, "Acknowledgement"@))
    } else {
        match author_spec(o.author, lookup, "acknowledgement"@) {
            Err(e) => Err(e),
            Ok(author) => match optional_time(o.expire@, ErrorKind::InvalidExpireTime) {
                Err(e) => Err(e),
                Ok(expiry) => if o.host@.len() == 0 && o.service@.len() == 0 {
                    Err((ErrorKind::MissingSelector, " for status display"@))
                } else {
                    Ok(
                        payload_spec(
                            selector_kind(o.host@, o.service@),
                            hard_state_filter(
                                selector_kind(o.host@, o.service@),
                                selector_filter(o.host@, o.service@),
                                states_of_flags(false, o.warning, o.critical, o.unknown),
                            ),
                            author,
                            o.comment->Some_0@,
                            expiry,
                            o.sticky,
                            !o.no_notification,
                            o.persistent,
                        ),
                    )
                },
            },
        }
    }
}

/// Builds the request that acknowledges problems, given what the system said
/// of the effective user. The answer of the system counts only where the
/// operator gave no author.
pub fn request_with(opts: &AddAckOptions, lookup: &UserLookup) -> (r: Result<HttpRequest, CtlError>)
    ensures
        request_is(r, ICINGA2_ADD_ACK@, checked(*opts, *lookup)),
        r is Err ==> r->Err_0.kind.class_spec() == ErrorClass::Validation,
{
    let comment = match &opts.comment {
        Some(comment) => comment,
        None => {
            return Err(CtlError::new(ErrorKind::MissingComment, "Acknowledgement"));
        },
    };
    let author = match resolve_author(&opts.author, lookup, "acknowledgement") {
        Ok(author) => author,
        Err(e) => {
            return Err(e);
        },
    };
    let expiry = match read_optional_time(opts.expire.as_str(), ErrorKind::InvalidExpireTime) {
        Ok(expiry) => expiry,
        Err(e) => {
            return Err(e);
        },
    };
    let states = StatePredicate::from_flags(false, opts.warning, opts.critical, opts.unknown);
    let selector = ObjectSelector::new(opts.host.as_str(), opts.service.as_str());
    let (kind, compiled) = match compile_selector_filter(&selector) {
        Ok(compiled) => compiled,
        Err(_) => {
            return Err(CtlError::new(ErrorKind::MissingSelector, " for status display"));
        },
    };
    let filter = compose_hard_state_filter(kind, compiled.as_str(), &states);
    let flags = AckFlags {
        sticky: opts.sticky,
        notify: !opts.no_notification,
        persistent: opts.persistent,
    };
    let body = payload(kind, filter.as_str(), author.as_str(), comment.as_str(), &expiry, flags);
    Ok(action_request(ICINGA2_ADD_ACK, body))
}

/// Builds the request that acknowledges problems. Where the operator gave no
/// author, the system is asked for the effective user; the request is then
/// the one that `request_with` builds for some answer of the system.
pub fn request(opts: &AddAckOptions) -> (r: Result<HttpRequest, CtlError>)
    ensures
        exists|lookup: UserLookup| request_is(r, ICINGA2_ADD_ACK@, #[trigger] checked(*opts, lookup)),
        opts.author is Some ==> request_is(
            r,
            ICINGA2_ADD_ACK@,
            checked(*opts, UserLookup::Unavailable),
        ),
        r is Err ==> r->Err_0.kind.class_spec() == ErrorClass::Validation,
{
    let lookup = lookup_if_needed(&opts.author);
    request_with(opts, &lookup)
}

} // verus!
