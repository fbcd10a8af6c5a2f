//! The one error type of the crate.
//!
//! An error has a kind, which fixes the wording of its message, and a detail,
//! the variable part of the message (an offending value, a reason phrase). A
//! kind belongs to one of four classes.

use vstd::prelude::*;
use vstd::string::*;

verus! {

/// The four ways a command can fail.
#[derive(Clone, Copy, PartialEq, Eq, Structural, Debug)]
pub enum ErrorClass {
    /// Missing, contradictory or malformed input, found before any request is sent.
    Validation,
    /// The connection to the server failed.
    Transport,
    /// The server answered with a status code the command does not accept.
    UnexpectedStatus,
    /// The body of the answer is not the JSON the command expects.
    Decode,
}

/// What went wrong. The comment of each kind says what its detail holds.
#[derive(Clone, Copy, PartialEq, Eq, Structural, Debug)]
pub enum ErrorKind {
    /// Neither a host nor a service pattern; detail: empty, or ` for ` and what the
    /// objects were wanted for.
    MissingSelector,
    /// The acknowledgement option is none of `yes`, `no`, `sticky`; detail: the value.
    InvalidAckOption,
    /// No comment text; detail: the capitalised name of what the comment is for.
    MissingComment,
    /// No author given and the system knows no name for the effective user;
    /// detail: what the author is needed for.
    NoEffectiveUser,
    /// The effective user's name is not Unicode; detail: the quoted name.
    UserNameNotUnicode,
    /// The expiration time is not RFC 3339; detail: the parser's words.
    InvalidExpireTime,
    /// The start time is not RFC 3339; detail: the parser's words.
    InvalidStartTime,
    /// The end time is not RFC 3339; detail: the parser's words.
    InvalidEndTime,
    /// The time of the next check is not RFC 3339; detail: the parser's words.
    InvalidCheckTime,
    /// A downtime without a start time; no detail.
    MissingStartTime,
    /// A downtime without an end time; no detail.
    MissingEndTime,
    /// The duration is not a number; detail: the parser's words.
    InvalidDuration,
    /// The duration is zero or negative; no detail.
    NonPositiveDuration,
    /// A flexible downtime without a duration; no detail.
    FlexibleWithoutDuration,
    /// All services and one service pattern at once; no detail.
    AllServicesWithService,
    /// The child option is not one of the three known; detail: the value.
    InvalidChildOption,
    /// Neither an object name nor a selector; detail: `comment` or `downtime`.
    MissingNameOrSelector,
    /// An object name together with a selector; detail: `comment` or `downtime`.
    NameWithSelector,
    /// No common name for the ticket; no detail.
    MissingCommonName,
    /// Not the name of a command; detail: the name.
    UnknownCommand,
    /// No configuration directory can be derived from the environment; no detail.
    NoConfigDirectory,
    /// The configuration file cannot be read or is no INI file; detail: the
    /// reader's words.
    UnreadableConfiguration,
    /// The configuration has no URL; no detail.
    MissingUrl,
    /// Password authentication without a user; no detail.
    MissingAuthUser,
    /// Password authentication without a password; no detail.
    MissingAuthPassword,
    /// Certificate authentication without a certificate file; no detail.
    MissingAuthCertificate,
    /// The authentication method is neither of the two known; no detail.
    InvalidAuthMethod,
    /// The configured authentication type is neither `user` nor `cert`; detail: the value.
    InvalidAuthType,
    /// `insecure_ssl` is neither `true` nor `false`; detail: the value.
    InvalidBoolean,
    /// The URL cannot be parsed; detail: the parser's words.
    InvalidUrl,
    /// The URL's scheme is not https; no detail.
    InvalidScheme,
    /// The URL names no host; no detail.
    MissingHost,
    /// The request could not be sent or answered; detail: the transport's words.
    Transport,
    /// A query was not answered with 200; detail: the reason phrase of the status.
    StatusNotOk,
    /// An action on selected objects was answered with neither 200 nor 500;
    /// detail: the reason phrase of the status.
    StatusNotOkOrServerError,
    /// An action on a named object was answered with neither 200 nor 404;
    /// detail: the reason phrase of the status.
    StatusNotOkForNamed,
    /// The answer could not be decoded; detail: the decoder's words.
    Decode,
}

impl ErrorKind {
    /// The class a kind belongs to.
    pub open spec fn class_spec(self) -> ErrorClass {
        match self {
            ErrorKind::Transport => ErrorClass::Transport,
            ErrorKind::StatusNotOk => ErrorClass::UnexpectedStatus,
            ErrorKind::StatusNotOkOrServerError => ErrorClass::UnexpectedStatus,
            ErrorKind::StatusNotOkForNamed => ErrorClass::UnexpectedStatus,
            ErrorKind::Decode => ErrorClass::Decode,
            _ => ErrorClass::Validation,
        }
    }

    /// The class a kind belongs to.
    #[verifier::when_used_as_spec(class_spec)]
    pub fn class(self) -> (c: ErrorClass)
        ensures
            c == self.class_spec(),
    {
        match self {
            ErrorKind::Transport => ErrorClass::Transport,
            ErrorKind::StatusNotOk => ErrorClass::UnexpectedStatus,
            ErrorKind::StatusNotOkOrServerError => ErrorClass::UnexpectedStatus,
            ErrorKind::StatusNotOkForNamed => ErrorClass::UnexpectedStatus,
            ErrorKind::Decode => ErrorClass::Decode,
            _ => ErrorClass::Validation,
        }
    }

    /// The words of the message in front of the detail.
    pub open spec fn prefix_spec(self) -> Seq<char> {
        match self {
            ErrorKind::MissingSelector => "Provide a host and/or service"@,
            ErrorKind::InvalidAckOption => "Invalid value for acknowledgement option: "@,
            ErrorKind::MissingComment => ""@,
            ErrorKind::NoEffectiveUser => "Can't get effective user name from operating system. Please provide the author of the "@,
            ErrorKind::UserNameNotUnicode => "Can't convert effective user name into a String: "@,
            ErrorKind::InvalidExpireTime => "Can't parse expiration time as RFC3339 time: "@,
            ErrorKind::InvalidStartTime => "Can't parse start time as RFC3339 time: "@,
            ErrorKind::InvalidEndTime => "Can't parse end time as RFC3339 time: "@,
            ErrorKind::InvalidCheckTime => "Can't parse time as RFC3339 time: "@,
            ErrorKind::MissingStartTime => "Downtime start time is mandatory"@,
            ErrorKind::MissingEndTime => "Downtime end time is mandatory"@,
            ErrorKind::InvalidDuration => "Can't convert duration into a number: "@,
            ErrorKind::NonPositiveDuration => "A duration of 0 or less is rather pointless"@,
            ErrorKind::FlexibleWithoutDuration => "Flexible downtime must have a duration"@,
            ErrorKind::AllServicesWithService => "Adding downtime for all services and adding downtime for specific services are mutually exclusive"@,
            ErrorKind::InvalidChildOption => "Invalid child option "@,
            ErrorKind::MissingNameOrSelector => "Neither "@,
            ErrorKind::NameWithSelector => "Provide either a "@,
            ErrorKind::MissingCommonName => "Missing CN for ticket generation"@,
            ErrorKind::UnknownCommand => "Unknown command "@,
            ErrorKind::NoConfigDirectory => "Unable to get user configuration. Neither the environmant variable XDG_CONFIG_HOME nor HOME are set"@,
            ErrorKind::UnreadableConfiguration => ""@,
            ErrorKind::MissingUrl => "Missing Icinga2 URL"@,
            ErrorKind::MissingAuthUser => "User authentication enabled but no user set"@,
            ErrorKind::MissingAuthPassword => "User authentication enabled but no password set"@,
            ErrorKind::MissingAuthCertificate => "Client certificate authentication enabled but no certificate file set"@,
            ErrorKind::InvalidAuthMethod => "Invalid authentication method or authentication method not set"@,
            ErrorKind::InvalidAuthType => "Invalid authentication type "@,
            ErrorKind::InvalidBoolean => "Can't convert value "@,
            ErrorKind::InvalidUrl => ""@,
            ErrorKind::InvalidScheme => "Invalid scheme: Icinga2 only supports https"@,
            ErrorKind::MissingHost => "Missing host in URL"@,
            ErrorKind::Transport => ""@,
            ErrorKind::StatusNotOk => "Invalid status code received, exepected \"200 OK\", got \""@,
            ErrorKind::StatusNotOkOrServerError => "Invalid status code received, exepected HTTP status code 200 or 500, got \""@,
            ErrorKind::StatusNotOkForNamed => "Invalid status code received, exepected HTTP status code 200, got \""@,
            ErrorKind::Decode => ""@,
        }
    }

    /// The words of the message behind the detail.
    pub open spec fn suffix_spec(self) -> Seq<char> {
        match self {
            ErrorKind::MissingComment => " comment is mandatory"@,
            ErrorKind::NoEffectiveUser => " using the --author option"@,
            ErrorKind::MissingNameOrSelector => " name nor host/service filter provided"@,
            ErrorKind::NameWithSelector => " name or a host/service filter, but not both"@,
            ErrorKind::InvalidBoolean => " for insecure_ssl into a boolean: provided string was not `true` or `false`"@,
            ErrorKind::StatusNotOk => "\" instead"@,
            ErrorKind::StatusNotOkOrServerError => "\" instead"@,
            ErrorKind::StatusNotOkForNamed => "\" instead"@,
            _ => ""@,
        }
    }

    /// The words of the message in front of the detail.
    pub fn prefix(self) -> (r: &'static str)
        ensures
            r@ == self.prefix_spec(),
    {
        match self {
            ErrorKind::MissingSelector => "Provide a host and/or service",
            ErrorKind::InvalidAckOption => "Invalid value for acknowledgement option: ",
            ErrorKind::MissingComment => "",
            ErrorKind::NoEffectiveUser => "Can't get effective user name from operating system. Please provide the author of the ",
            ErrorKind::UserNameNotUnicode => "Can't convert effective user name into a String: ",
            ErrorKind::InvalidExpireTime => "Can't parse expiration time as RFC3339 time: ",
            ErrorKind::InvalidStartTime => "Can't parse start time as RFC3339 time: ",
            ErrorKind::InvalidEndTime => "Can't parse end time as RFC3339 time: ",
            ErrorKind::InvalidCheckTime => "Can't parse time as RFC3339 time: ",
            ErrorKind::MissingStartTime => "Downtime start time is mandatory",
            ErrorKind::MissingEndTime => "Downtime end time is mandatory",
            ErrorKind::InvalidDuration => "Can't convert duration into a number: ",
            ErrorKind::NonPositiveDuration => "A duration of 0 or less is rather pointless",
            ErrorKind::FlexibleWithoutDuration => "Flexible downtime must have a duration",
            ErrorKind::AllServicesWithService => "Adding downtime for all services and adding downtime for specific services are mutually exclusive",
            ErrorKind::InvalidChildOption => "Invalid child option ",
            ErrorKind::MissingNameOrSelector => "Neither ",
            ErrorKind::NameWithSelector => "Provide either a ",
            ErrorKind::MissingCommonName => "Missing CN for ticket generation",
            ErrorKind::UnknownCommand => "Unknown command ",
            ErrorKind::NoConfigDirectory => "Unable to get user configuration. Neither the environmant variable XDG_CONFIG_HOME nor HOME are set",
            ErrorKind::UnreadableConfiguration => "",
            ErrorKind::MissingUrl => "Missing Icinga2 URL",
            ErrorKind::MissingAuthUser => "User authentication enabled but no user set",
            ErrorKind::MissingAuthPassword => "User authentication enabled but no password set",
            ErrorKind::MissingAuthCertificate => "Client certificate authentication enabled but no certificate file set",
            ErrorKind::InvalidAuthMethod => "Invalid authentication method or authentication method not set",
            ErrorKind::InvalidAuthType => "Invalid authentication type ",
            ErrorKind::InvalidBoolean => "Can't convert value ",
            ErrorKind::InvalidUrl => "",
            ErrorKind::InvalidScheme => "Invalid scheme: Icinga2 only supports https",
            ErrorKind::MissingHost => "Missing host in URL",
            ErrorKind::Transport => "",
            ErrorKind::StatusNotOk => "Invalid status code received, exepected \"200 OK\", got \"",
            ErrorKind::StatusNotOkOrServerError => "Invalid status code received, exepected HTTP status code 200 or 500, got \"",
            ErrorKind::StatusNotOkForNamed => "Invalid status code received, exepected HTTP status code 200, got \"",
            ErrorKind::Decode => "",
        }
    }

    /// The words of the message behind the detail.
    pub fn suffix(self) -> (r: &'static str)
        ensures
            r@ == self.suffix_spec(),
    {
        match self {
            ErrorKind::MissingComment => " comment is mandatory",
            ErrorKind::NoEffectiveUser => " using the --author option",
            ErrorKind::MissingNameOrSelector => " name nor host/service filter provided",
            ErrorKind::NameWithSelector => " name or a host/service filter, but not both",
            ErrorKind::InvalidBoolean => " for insecure_ssl into a boolean: provided string was not `true` or `false`",
            ErrorKind::StatusNotOk => "\" instead",
            ErrorKind::StatusNotOkOrServerError => "\" instead",
            ErrorKind::StatusNotOkForNamed => "\" instead",
            _ => "",
        }
    }
}

/// An error of a command: its kind and the variable part of its message.
#[derive(Debug)]
pub struct CtlError {
    pub kind: ErrorKind,
    pub detail: String,
}

/// The message of an error: the kind's words around the detail.
pub open spec fn message_spec(kind: ErrorKind, detail: Seq<char>) -> Seq<char> {
    kind.prefix_spec() + detail + kind.suffix_spec()
}

/// The line shown to the operator for an error.
pub open spec fn error_line_spec(kind: ErrorKind, detail: Seq<char>) -> Seq<char> {
    "Error: "@ + message_spec(kind, detail)
}

impl CtlError {
    /// An error of the given kind with the given detail.
    pub fn new(kind: ErrorKind, detail: &str) -> (e: CtlError)
        ensures
            e.kind == kind,
            e.detail@ == detail@,
    {
        CtlError { kind, detail: String::from_str(detail) }
    }

    /// An error of a kind whose message has no variable part.
    pub fn plain(kind: ErrorKind) -> (e: CtlError)
        ensures
            e.kind == kind,
            e.detail@ == Seq::<char>::empty(),
    {
        CtlError { kind, detail: String::new() }
    }

    /// The class of the error.
    pub fn class(&self) -> (c: ErrorClass)
        ensures
            c == self.kind.class_spec(),
    {
        self.kind.class()
    }

    /// The message of the error.
    pub fn message(&self) -> (m: String)
        ensures
            m@ == message_spec(self.kind, self.detail@),
    {
        let mut m = String::from_str(self.kind.prefix());
        m.append(self.detail.as_str());
        m.append(self.kind.suffix());
        m
    }

    /// The line shown to the operator: the message behind `Error: `.
    pub fn error_line(&self) -> (line: String)
        ensures
            line@ == error_line_spec(self.kind, self.detail@),
    {
        let mut line = String::from_str("Error: ");
        let m = self.message();
        line.append(m.as_str());
        line
    }
}

/// Whether `r` is the error of the given kind and detail.
pub open spec fn fails_with<T>(r: Result<T, CtlError>, kind: ErrorKind, detail: Seq<char>) -> bool {
    match r {
        Ok(_) => false,
        Err(e) => e.kind == kind && e.detail@ == detail,
    }
}

/// The exit code of the process for the outcome of a command.
pub open spec fn exit_code_spec(failed: bool) -> int {
    if failed {
        1
    } else {
        0
    }
}

/// The exit code of the process: 0 where the command went through, also where
/// nothing matched or the named object was not there; 1 after any error.
pub fn exit_code(outcome: &Result<(), CtlError>) -> (code: i32)
    ensures
        code == exit_code_spec(outcome is Err),
{
    match outcome {
        Ok(_) => 0,
        Err(_) => 1,
    }
}

} // verus!
