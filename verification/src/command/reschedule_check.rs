//! Rescheduling the checks of the selected hosts or services.

use vstd::prelude::*;
use vstd::string::*;
use crate::command::filter::{ack_of_option, parse_ack_option, states_of_flags, StatePredicate};
use crate::command::payload::{
    bare_field,
    payload_head,
    push_bare_field,
    push_text_field,
    request_is,
    start_payload,
    text_field,
};
use crate::command::selector::{compile_selector_filter, selector_kind, ObjectSelector, TargetKind};
use crate::command::status::{ack_text, compose_filter, full_filter};
use crate::command::time::{optional_time, read_optional_time};
use crate::constants::ICINGA2_RESCHEDULE_CHECK;
use crate::error::{CtlError, ErrorClass, ErrorKind};
use crate::request::{action_request, HttpRequest};
use crate::text::{bool_text, bool_to_text};

verus! {

/// What the operator asked for.
#[derive(Debug)]
pub struct RescheduleCheckOptions {
    /// The pattern for host names; empty if not given.
    pub host: String,
    /// The pattern for service names; empty if not given.
    pub service: String,
    pub ok: bool,
    pub warning: bool,
    pub critical: bool,
    pub unknown: bool,
    /// The acknowledgement wanted, as the operator wrote it.
    pub ack: Option<String>,
    /// When the check is to run, in RFC 3339; empty for at once.
    pub at: String,
    /// Whether the check is to run even where checks are disabled.
    pub force: bool,
}

/// Whether a check is forced where the operator does not say: it is.
pub const FORCE_DEFAULT: bool = true;

impl RescheduleCheckOptions {
    /// The options of an operator who gives the two patterns and nothing
    /// else: no state and no acknowledgement is asked for, the check runs at
    /// once, and it is forced.
    pub fn new(host: &str, service: &str) -> (o: RescheduleCheckOptions)
        ensures
            o.host@ == host@,
            o.service@ == service@,
            !o.ok && !o.warning && !o.critical && !o.unknown,
            o.ack is None,
            o.at@ == Seq::<char>::empty(),
            o.force == FORCE_DEFAULT,
    {
        RescheduleCheckOptions {
            host: String::from_str(host),
            service: String::from_str(service),
            ok: false,
            warning: false,
            critical: false,
            unknown: false,
            ack: None,
            at: String::new(),
            force: FORCE_DEFAULT,
        }
    }
}

/// The member of the payload that holds the time of the check, with the comma
/// in front of it; empty where the check is to run at once.
pub open spec fn next_check_part(at: Option<Seq<char>>) -> Seq<char> {
    match at {
        Some(seconds) => ","@ + text_field("next_check"@, seconds),
        None => Seq::empty(),
    }
}

/// The payload that reschedules checks.
pub open spec fn payload_spec(kind: TargetKind, filter: Seq<char>, force: bool, at: Option<Seq<char>>) -> Seq<
    char,
> {
    payload_head(kind, filter) + ","@ + bare_field("force"@, bool_text(force)) + next_check_part(at)
        + "}"@
}

/// Writes the payload that reschedules checks: the kind of object, the
/// filter, whether the check is forced, and the time of the check in seconds
/// since the epoch where it is not to run at once.
pub fn payload(kind: TargetKind, filter: &str, force: bool, at: &Option<String>) -> (r: String)
    ensures
        r@ == payload_spec(
            kind,
            filter@,
            force,
            match *at {
                Some(seconds) => Some(seconds@),
                None => None,
            },
        ),
{
    let mut r = start_payload(kind, filter);
    r.append(",");
    push_bare_field(&mut r, "force", bool_to_text(force));
    let mut part = String::new();
    match at {
        Some(seconds) => {
            part.append(",");
            push_text_field(&mut part, "next_check", seconds.as_str());
        },
        None => {},
    }
    r.append(part.as_str());
    r.append("}");
    r
}

/// What the command sends for the operator's options: the payload, or the
/// first error. The acknowledgement option comes first, then the time, then
/// the selector.
pub open spec fn checked(o: RescheduleCheckOptions) -> Result<Seq<char>, (ErrorKind, Seq<char>)> {
    match ack_of_option(ack_text(o.ack)) {
        None => Err((ErrorKind::InvalidAckOption, o.ack->Some_0@)),
        Some(ack) => match optional_time(o.at@, ErrorKind::InvalidCheckTime) {
            Err(e) => Err(e),
            Ok(at) => if o.host@.len() == 0 && o.service@.len() == 0 {
                Err((ErrorKind::MissingSelector, " for status display"@))
            } else {
                Ok(
                    payload_spec(
                        selector_kind(o.host@, o.service@),
                        full_filter(
                            o.host@,
                            o.service@,
                            states_of_flags(o.ok, o.warning, o.critical, o.unknown),
                            ack,
                        ),
                        o.force,
                        at,
                    ),
                )
            },
        },
    }
}

/// Builds the request that reschedules checks. The filter expression is the
/// selector, the state filter of the four state flags and the acknowledgement
/// filter.
pub fn request(opts: &RescheduleCheckOptions) -> (r: Result<HttpRequest, CtlError>)
    ensures
        request_is(r, ICINGA2_RESCHEDULE_CHECK@, checked(*opts)),
        r is Err ==> r->Err_0.kind.class_spec() == ErrorClass::Validation,
{
    let states = StatePredicate::from_flags(opts.ok, opts.warning, opts.critical, opts.unknown);
    let ack_option = match &opts.ack {
        Some(v) => Some(v.as_str()),
        None => None,
    };
    let ack = match parse_ack_option(ack_option) {
        Ok(ack) => ack,
        Err(e) => {
            return Err(e);
        },
    };
    let at = match read_optional_time(opts.at.as_str(), ErrorKind::InvalidCheckTime) {
        Ok(at) => at,
        Err(e) => {
            return Err(e);
        },
    };
    let selector = ObjectSelector::new(opts.host.as_str(), opts.service.as_str());
    let (kind, compiled) = match compile_selector_filter(&selector) {
        Ok(compiled) => compiled,
        Err(_) => {
            return Err(CtlError::new(ErrorKind::MissingSelector, " for status display"));
        },
    };
    let filter = compose_filter(kind, compiled.as_str(), &states, ack);
    let body = payload(kind, filter.as_str(), opts.force, &at);
    Ok(action_request(ICINGA2_RESCHEDULE_CHECK, body))
}

} // verus!
