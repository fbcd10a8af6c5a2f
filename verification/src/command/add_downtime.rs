//! Scheduling a downtime for the selected hosts or services.

use vstd::prelude::*;
use vstd::string::*;
use crate::command::author::{author_spec, lookup_if_needed, resolve_author, UserLookup};
use crate::command::payload::{
    bare_field,
    payload_head,
    push_bare_field,
    push_text_field,
    request_is,
    start_payload,
    text_field,
};
use crate::command::selector::{
    compile_selector_filter,
    selector_filter,
    selector_kind,
    ObjectSelector,
    TargetKind,
};
use crate::command::time::{read_required_time, required_time};
use crate::constants::ICINGA2_ADD_DOWNTIME;
use crate::error::{fails_with, CtlError, ErrorKind};
use crate::request::{action_request, HttpRequest};
use crate::text::{bool_text, bool_to_text, decimal, str_eq, u64_to_decimal};

verus! {

/// What the operator asked for.
#[derive(Debug)]
pub struct AddDowntimeOptions {
    /// The pattern for host names; empty if not given.
    pub host: String,
    /// The pattern for service names; empty if not given.
    pub service: String,
    pub comment: Option<String>,
    pub author: Option<String>,
    /// The start of the downtime in RFC 3339; empty if not given.
    pub start: String,
    /// The end of the downtime in RFC 3339; empty if not given.
    pub end: String,
    /// The duration of a flexible downtime in seconds, as the operator wrote it.
    pub duration: Option<String>,
    pub all_services: bool,
    pub fixed: bool,
    /// The name of the downtime that triggers this one; empty if not given.
    pub trigger: String,
    /// What is to happen to the children of the objects, as the operator wrote it.
    pub child_opts: Option<String>,
}

/// What a downtime does to the children of its objects.
#[derive(Clone, Copy, PartialEq, Eq, Structural, Debug)]
pub enum ChildOption {
    NoChildren,
    TriggeredChildren,
    NonTriggeredChildren,
}

impl ChildOption {
    /// The option as the payload names it.
    pub open spec fn payload_name_spec(self) -> Seq<char> {
        match self {
            ChildOption::NoChildren => "DowntimeNoChildren"@,
            ChildOption::TriggeredChildren => "DowntimeTriggeredChildren"@,
            ChildOption::NonTriggeredChildren => "DowntimeNonTriggeredChildren"@,
        }
    }

    /// The option as the payload names it.
    pub fn payload_name(self) -> (r: &'static str)
        ensures
            r@ == self.payload_name_spec(),
    {
        match self {
            ChildOption::NoChildren => "DowntimeNoChildren",
            ChildOption::TriggeredChildren => "DowntimeTriggeredChildren",
            ChildOption::NonTriggeredChildren => "DowntimeNonTriggeredChildren",
        }
    }

    /// The option that a name in lower case stands for.
    pub open spec fn from_lowercase_spec(name: Seq<char>) -> Option<ChildOption> {
        if name == "downtimenochildren"@ {
            Some(ChildOption::NoChildren)
        } else if name == "downtimetriggeredchildren"@ {
            Some(ChildOption::TriggeredChildren)
        } else if name == "downtimenontriggeredchildren"@ {
            Some(ChildOption::NonTriggeredChildren)
        } else {
            None
        }
    }

    /// The option that a name in lower case stands for; `None` for a text that
    /// is not the name of an option in lower case.
    pub fn from_lowercase(name: &str) -> (r: Option<ChildOption>)
        ensures
            r == ChildOption::from_lowercase_spec(name@),
    {
        if str_eq(name, "downtimenochildren") {
            Some(ChildOption::NoChildren)
        } else if str_eq(name, "downtimetriggeredchildren") {
            Some(ChildOption::TriggeredChildren)
        } else if str_eq(name, "downtimenontriggeredchildren") {
            Some(ChildOption::NonTriggeredChildren)
        } else {
            None
        }
    }
}

/// Which services a downtime covers besides what the host pattern selects.
/// The operator can ask for all services of the hosts or for the services of
/// a pattern, but not for both.
#[derive(Clone, Copy, PartialEq, Eq, Structural, Debug)]
pub enum ServiceScope {
    /// Neither: the downtime is for the hosts alone.
    HostsOnly,
    /// All services of the selected hosts.
    AllServices,
    /// The services that the service pattern selects.
    Matching,
}

/// The scope that the flag and the service pattern stand for; none where the
/// operator asked for both.
pub open spec fn service_scope_spec(all_services: bool, service: Seq<char>) -> Option<ServiceScope> {
    if all_services && service.len() > 0 {
        None
    } else if all_services {
        Some(ServiceScope::AllServices)
    } else if service.len() > 0 {
        Some(ServiceScope::Matching)
    } else {
        Some(ServiceScope::HostsOnly)
    }
}

/// Decides which services a downtime covers. Asking for all services and for
/// the services of a pattern at once is refused.
pub fn service_scope(all_services: bool, service: &str) -> (r: Result<ServiceScope, CtlError>)
    ensures
        match service_scope_spec(all_services, service@) {
            Some(scope) => r == Ok::<ServiceScope, CtlError>(scope),
            None => fails_with(r, ErrorKind::AllServicesWithService, Seq::empty()),
        },
{
    if service.is_empty() {
        if all_services {
            Ok(ServiceScope::AllServices)
        } else {
            Ok(ServiceScope::HostsOnly)
        }
    } else if all_services {
        Err(CtlError::plain(ErrorKind::AllServicesWithService))
    } else {
        Ok(ServiceScope::Matching)
    }
}

/// A text in lower case, as `str::to_lowercase` of the standard library gives it.
pub uninterp spec fn lowercase(text: Seq<char>) -> Seq<char>;

/// Calls `str::to_lowercase`. The standard library decides case by the
/// Unicode tables it was built with; nothing more is claimed of the result
/// than that the text decides it.
#[verifier::external_body]
fn to_lowercase(text: &str) -> (r: String)
    ensures
        r@ == lowercase(text@),
{
    text.to_lowercase()
}

/// The number that a text of decimal digits stands for; none for the empty
/// text and for a text with any other character in it.
pub open spec fn digits_value(digits: Seq<char>) -> Option<nat>
    decreases digits.len(),
{
    if digits.len() == 0 || digits.last() < '0' || digits.last() > '9' {
        None
    } else if digits.len() == 1 {
        Some((digits.last() as nat - 48) as nat)
    } else {
        match digits_value(digits.drop_last()) {
            Some(front) => Some((front * 10 + (digits.last() as nat - 48)) as nat),
            None => None,
        }
    }
}

/// The number that a text stands for: decimal digits, with one `+` or `-` in
/// front of them if the operator likes.
pub open spec fn signed_decimal(text: Seq<char>) -> Option<int> {
    if text.len() > 0 && text[0] == '-' {
        match digits_value(text.skip(1)) {
            Some(v) => Some(-(v as int)),
            None => None,
        }
    } else if text.len() > 0 && text[0] == '+' {
        match digits_value(text.skip(1)) {
            Some(v) => Some(v as int),
            None => None,
        }
    } else {
        match digits_value(text) {
            Some(v) => Some(v as int),
            None => None,
        }
    }
}

/// The words of the standard library's error for a text that it does not
/// take for an `i32`.
pub uninterp spec fn i32_parse_error(text: Seq<char>) -> Seq<char>;

/// What the standard library makes of a text as an `i32`: the number that the
/// text stands for, if it stands for one that an `i32` can hold, and else the
/// library's error.
pub open spec fn decimal_i32(text: Seq<char>) -> Result<i32, Seq<char>> {
    match signed_decimal(text) {
        Some(v) => if i32::MIN <= v <= i32::MAX {
            Ok(v as i32)
        } else {
            Err(i32_parse_error(text))
        },
        None => Err(i32_parse_error(text)),
    }
}

/// Calls `str::parse::<i32>`. The standard library takes an optional sign
/// followed by decimal digits, and nothing else: no blanks, no empty text, no
/// number outside the range of `i32`. Of the words of its error nothing more
/// is claimed than that the text decides them.
#[verifier::external_body]
fn parse_i32(text: &str) -> (r: Result<i32, String>)
    ensures
        match r {
            Ok(n) => signed_decimal(text@) == Some(n as int),
            Err(words) => words@ == i32_parse_error(text@) && match signed_decimal(text@) {
                Some(v) => v < i32::MIN || v > i32::MAX,
                None => true,
            },
        },
{
    match text.parse::<i32>() {
        Ok(n) => Ok(n),
        Err(e) => Err(e.to_string()),
    }
}

/// The duration that the operator's text stands for, if there is a text.
pub open spec fn duration_spec(duration: Option<String>) -> Result<
    Option<u32>,
    (ErrorKind, Seq<char>),
> {
    match duration {
        None => Ok(None),
        Some(text) => match decimal_i32(text@) {
            Err(words) => Err((ErrorKind::InvalidDuration, words)),
            Ok(n) => if n > 0 {
                Ok(Some(n as u32))
            } else {
                Err((ErrorKind::NonPositiveDuration, Seq::empty()))
            },
        },
    }
}

/// Takes the duration that was parsed off the operator's text: it must be a
/// number, and the number must be positive.
pub fn check_duration(parsed: Result<i32, String>) -> (r: Result<u32, CtlError>)
    ensures
        match parsed {
            Err(words) => fails_with(r, ErrorKind::InvalidDuration, words@),
            Ok(n) => if n > 0 {
                r == Ok::<u32, CtlError>(n as u32)
            } else {
                fails_with(r, ErrorKind::NonPositiveDuration, Seq::empty())
            },
        },
{
    match parsed {
        Err(words) => Err(CtlError::new(ErrorKind::InvalidDuration, words.as_str())),
        Ok(n) => if n > 0 {
            Ok(n as u32)
        } else {
            Err(CtlError::plain(ErrorKind::NonPositiveDuration))
        },
    }
}

/// Reads the duration of a downtime: a positive number of seconds, or nothing
/// where the operator gave none.
pub fn read_duration(duration: &Option<String>) -> (r: Result<Option<u32>, CtlError>)
    ensures
        match duration_spec(*duration) {
            Ok(d) => r == Ok::<Option<u32>, CtlError>(d),
            Err((kind, detail)) => fails_with(r, kind, detail),
        },
{
    match duration {
        None => Ok(None),
        Some(text) => match check_duration(parse_i32(text.as_str())) {
            Ok(n) => Ok(Some(n)),
            Err(e) => Err(e),
        },
    }
}

/// The child option that the operator's text stands for; without a text the
/// children are left alone.
pub open spec fn child_option_spec(child_opts: Option<String>) -> Result<
    ChildOption,
    (ErrorKind, Seq<char>),
> {
    match child_opts {
        None => Ok(ChildOption::NoChildren),
        Some(text) => match ChildOption::from_lowercase_spec(lowercase(text@)) {
            Some(option) => Ok(option),
            None => Err((ErrorKind::InvalidChildOption, text@)),
        },
    }
}

/// Reads the child option. Upper and lower case count alike. A text that
/// names no option is refused, with the text as the error's detail.
pub fn read_child_option(child_opts: &Option<String>) -> (r: Result<ChildOption, CtlError>)
    ensures
        match child_option_spec(*child_opts) {
            Ok(option) => r == Ok::<ChildOption, CtlError>(option),
            Err((kind, detail)) => fails_with(r, kind, detail),
        },
{
    match child_opts {
        None => Ok(ChildOption::NoChildren),
        Some(text) => {
            let lower = to_lowercase(text.as_str());
            match ChildOption::from_lowercase(lower.as_str()) {
                Some(option) => Ok(option),
                None => Err(CtlError::new(ErrorKind::InvalidChildOption, text.as_str())),
            }
        },
    }
}

/// The member of the payload that holds the duration, with the comma in front
/// of it; empty without a duration.
pub open spec fn duration_part(duration: Option<u32>) -> Seq<char> {
    match duration {
        Some(n) => ","@ + text_field("duration"@, decimal(n as nat)),
        None => Seq::empty(),
    }
}

/// The member of the payload that holds the trigger, with the comma in front
/// of it; empty without a trigger.
pub open spec fn trigger_part(trigger: Seq<char>) -> Seq<char> {
    if trigger.len() > 0 {
        ","@ + text_field("trigger_name"@, trigger)
    } else {
        Seq::empty()
    }
}

/// The payload that schedules a downtime.
pub open spec fn payload_spec(
    kind: TargetKind,
    filter: Seq<char>,
    author: Seq<char>,
    comment: Seq<char>,
    start: Seq<char>,
    end: Seq<char>,
    fixed: bool,
    duration: Option<u32>,
    all_services: bool,
    trigger: Seq<char>,
    child: ChildOption,
) -> Seq<char> {
    payload_head(kind, filter) + ","@ + text_field("author"@, author) + ","@ + text_field(
        "comment"@,
        comment,
    ) + ","@ + text_field("start_time"@, start) + ","@ + text_field("end_time"@, end) + ","@
        + bare_field("fixed"@, bool_text(fixed)) + duration_part(duration) + ","@ + bare_field(
        "all_services"@,
        bool_text(all_services),
    ) + trigger_part(trigger) + ","@ + text_field("child_options"@, child.payload_name_spec())
        + "}"@
}

/// The times, the duration and the flags of a downtime.
#[derive(Debug)]
pub struct Window {
    /// The start in seconds since the epoch, as a text of digits.
    pub start: String,
    /// The end in seconds since the epoch, as a text of digits.
    pub end: String,
    pub fixed: bool,
    /// The duration in seconds, if there is one.
    pub duration: Option<u32>,
    pub all_services: bool,
    /// The name of the triggering downtime; empty for none.
    pub trigger: String,
    pub child: ChildOption,
}

/// Writes the payload that schedules a downtime: the kind of object, the
/// filter, author and comment, start and end, whether the downtime is fixed,
/// the duration if there is one, whether all services of the hosts are meant,
/// the trigger if there is one, and what happens to the children.
pub fn payload(kind: TargetKind, filter: &str, author: &str, comment: &str, window: &Window) -> (r:
    String)
    ensures
        r@ == payload_spec(
            kind,
            filter@,
            author@,
            comment@,
            window.start@,
            window.end@,
            window.fixed,
            window.duration,
            window.all_services,
            window.trigger@,
            window.child,
        ),
{
    let mut r = start_payload(kind, filter);
    r.append(",");
    push_text_field(&mut r, "author", author);
    r.append(",");
    push_text_field(&mut r, "comment", comment);
    r.append(",");
    push_text_field(&mut r, "start_time", window.start.as_str());
    r.append(",");
    push_text_field(&mut r, "end_time", window.end.as_str());
    r.append(",");
    push_bare_field(&mut r, "fixed", bool_to_text(window.fixed));
    let mut duration = String::new();
    match window.duration {
        Some(n) => {
            duration.append(",");
            let seconds = u64_to_decimal(n as u64);
            push_text_field(&mut duration, "duration", seconds.as_str());
        },
        None => {},
    }
    r.append(duration.as_str());
    r.append(",");
    push_bare_field(&mut r, "all_services", bool_to_text(window.all_services));
    let mut trigger = String::new();
    if !window.trigger.as_str().is_empty() {
        trigger.append(",");
        push_text_field(&mut trigger, "trigger_name", window.trigger.as_str());
    }
    r.append(trigger.as_str());
    r.append(",");
    push_text_field(&mut r, "child_options", window.child.payload_name());
    r.append("}");
    r
}

/// What the command sends for the operator's options, given what the system
/// said of the effective user: the payload, or the first error in the order
/// of the checks. The comment comes first, then the author, the duration, the
/// child option, start and end; then a flexible downtime needs its duration,
/// all services and a service pattern exclude each other, and there must be a
/// selector.
pub open spec fn checked(o: AddDowntimeOptions, lookup: UserLookup) -> Result<
    Seq<char>,
    (ErrorKind, Seq<char>),
> {
    if o.comment is None {
        Err((ErrorKind::MissingComment, "Downtime"@))
    } else {
        match author_spec(o.author, lookup, "downtime"@) {
            Err(e) => Err(e),
            Ok(author) => match duration_spec(o.duration) {
                Err(e) => Err(e),
                Ok(duration) => match child_option_spec(o.child_opts) {
                    Err(e) => Err(e),
                    Ok(child) => match required_time(
                        o.start@,
                        ErrorKind::MissingStartTime,
                        ErrorKind::InvalidStartTime,
                    ) {
                        Err(e) => Err(e),
                        Ok(start) => match required_time(
                            o.end@,
                            ErrorKind::MissingEndTime,
                            ErrorKind::InvalidEndTime,
                        ) {
                            Err(e) => Err(e),
                            Ok(end) => if !o.fixed && duration is None {
                                Err((ErrorKind::FlexibleWithoutDuration, Seq::empty()))
                            } else if service_scope_spec(o.all_services, o.service@) is None {
                                Err((ErrorKind::AllServicesWithService, Seq::empty()))
                            } else if o.host@.len() == 0 && o.service@.len() == 0 {
                                Err((ErrorKind::MissingSelector, " for downtime addition"@))
                            } else {
                                Ok(
                                    payload_spec(
                                        selector_kind(o.host@, o.service@),
                                        selector_filter(o.host@, o.service@),
                                        author,
                                        o.comment->Some_0@,
                                        start,
                                        end,
                                        o.fixed,
                                        duration,
                                        service_scope_spec(o.all_services, o.service@)
                                            == Some(ServiceScope::AllServices),
                                        o.trigger@,
                                        child,
                                    ),
                                )
                            },
                        },
                    },
                },
            },
        }
    }
}

/// Builds the request that schedules a downtime, given what the system said
/// of the effective user. The answer of the system counts only where the
/// operator gave no author.
pub fn request_with(opts: &AddDowntimeOptions, lookup: &UserLookup) -> (r: Result<
    HttpRequest,
    CtlError,
>)
    ensures
        request_is(r, ICINGA2_ADD_DOWNTIME@, checked(*opts, *lookup)),
        !opts.fixed && opts.duration is None ==> r is Err,
        r is Err ==> r->Err_0.kind.class_spec() == crate::error::ErrorClass::Validation,
{
    let comment = match &opts.comment {
        Some(comment) => comment,
        None => {
            return Err(CtlError::new(ErrorKind::MissingComment, "Downtime"));
        },
    };
    let author = match resolve_author(&opts.author, lookup, "downtime") {
        Ok(author) => author,
        Err(e) => {
            return Err(e);
        },
    };
    let duration = match read_duration(&opts.duration) {
        Ok(duration) => duration,
        Err(e) => {
            return Err(e);
        },
    };
    let child = match read_child_option(&opts.child_opts) {
        Ok(child) => child,
        Err(e) => {
            return Err(e);
        },
    };
    let start = match read_required_time(
        opts.start.as_str(),
        ErrorKind::MissingStartTime,
        ErrorKind::InvalidStartTime,
    ) {
        Ok(start) => start,
        Err(e) => {
            return Err(e);
        },
    };
    let end = match read_required_time(
        opts.end.as_str(),
        ErrorKind::MissingEndTime,
        ErrorKind::InvalidEndTime,
    ) {
        Ok(end) => end,
        Err(e) => {
            return Err(e);
        },
    };
    if !opts.fixed && duration.is_none() {
        return Err(CtlError::plain(ErrorKind::FlexibleWithoutDuration));
    }
    let scope = match service_scope(opts.all_services, opts.service.as_str()) {
        Ok(scope) => scope,
        Err(e) => {
            return Err(e);
        },
    };
    let selector = ObjectSelector::new(opts.host.as_str(), opts.service.as_str());
    let (kind, filter) = match compile_selector_filter(&selector) {
        Ok(compiled) => compiled,
        Err(_) => {
            return Err(CtlError::new(ErrorKind::MissingSelector, " for downtime addition"));
        },
    };
    let window = Window {
        start,
        end,
        fixed: opts.fixed,
        duration,
        all_services: scope == ServiceScope::AllServices,
        trigger: opts.trigger.clone(),
        child,
    };
    let body = payload(kind, filter.as_str(), author.as_str(), comment.as_str(), &window);
    Ok(action_request(ICINGA2_ADD_DOWNTIME, body))
}

/// Builds the request that schedules a downtime. Where the operator gave no
/// author, the system is asked for the effective user; the request is then
/// the one that `request_with` builds for some answer of the system.
pub fn request(opts: &AddDowntimeOptions) -> (r: Result<HttpRequest, CtlError>)
    ensures
        exists|lookup: UserLookup|
            request_is(r, ICINGA2_ADD_DOWNTIME@, #[trigger] checked(*opts, lookup)),
        opts.author is Some ==> request_is(
            r,
            ICINGA2_ADD_DOWNTIME@,
            checked(*opts, UserLookup::Unavailable),
        ),
        !opts.fixed && opts.duration is None ==> r is Err,
        r is Err ==> r->Err_0.kind.class_spec() == crate::error::ErrorClass::Validation,
{
    let lookup = lookup_if_needed(&opts.author);
    request_with(opts, &lookup)
}

} // verus!
