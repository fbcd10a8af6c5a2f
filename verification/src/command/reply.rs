//! What the server's answer means: which status codes a command accepts, and
//! how the rows of an action's answer are shown.

use vstd::prelude::*;
use vstd::string::*;
use crate::error::{fails_with, CtlError, ErrorKind};
use crate::json_data::{Icinga2ActionReply, Icinga2ActionReplyResult};
use crate::text::str_eq;

verus! {

/// The commands of the client.
#[derive(Clone, Copy, PartialEq, Eq, Structural, Debug)]
pub enum Command {
    AddAck,
    AddComment,
    AddDowntime,
    DelAck,
    DelComment,
    DelDowntime,
    GenerateTicket,
    RescheduleCheck,
    Status,
}

/// Which status codes a command takes for an answer.
#[derive(Clone, Copy, PartialEq, Eq, Structural, Debug)]
pub enum StatusPolicy {
    /// Only 200 will do.
    OkOnly,
    /// 200, or 500: none of the selected objects was eligible for the action.
    OkOrServerError,
    /// 200, or 404: the named object does not exist.
    OkOrNotFound,
}

/// What to do with an answer whose status code the command accepts.
#[derive(Clone, Copy, PartialEq, Eq, Structural, Debug)]
pub enum Disposition {
    /// Decode the body and show its rows.
    ShowResults,
    /// Tell the operator that the named object does not exist.
    ReportMissing,
}

impl Command {
    /// The command of a name, if it is one.
    pub open spec fn from_name_spec(name: Seq<char>) -> Option<Command> {
        if name == "add-ack"@ {
            Some(Command::AddAck)
        } else if name == "add-comment"@ {
            Some(Command::AddComment)
        } else if name == "add-downtime"@ {
            Some(Command::AddDowntime)
        } else if name == "del-ack"@ {
            Some(Command::DelAck)
        } else if name == "del-comment"@ {
            Some(Command::DelComment)
        } else if name == "del-downtime"@ {
            Some(Command::DelDowntime)
        } else if name == "generate-ticket"@ {
            Some(Command::GenerateTicket)
        } else if name == "reschedule-check"@ {
            Some(Command::RescheduleCheck)
        } else if name == "status"@ {
            Some(Command::Status)
        } else {
            None
        }
    }

    /// The command that the operator calls `name`; `None` for any other text.
    pub fn from_name(name: &str) -> (c: Option<Command>)
        ensures
            c == Command::from_name_spec(name@),
    {
        if str_eq(name, "add-ack") {
            Some(Command::AddAck)
        } else if str_eq(name, "add-comment") {
            Some(Command::AddComment)
        } else if str_eq(name, "add-downtime") {
            Some(Command::AddDowntime)
        } else if str_eq(name, "del-ack") {
            Some(Command::DelAck)
        } else if str_eq(name, "del-comment") {
            Some(Command::DelComment)
        } else if str_eq(name, "del-downtime") {
            Some(Command::DelDowntime)
        } else if str_eq(name, "generate-ticket") {
            Some(Command::GenerateTicket)
        } else if str_eq(name, "reschedule-check") {
            Some(Command::RescheduleCheck)
        } else if str_eq(name, "status") {
            Some(Command::Status)
        } else {
            None
        }
    }

    /// Which status codes the command takes for an answer.
    pub open spec fn status_policy_spec(self) -> StatusPolicy {
        match self {
            Command::AddAck => StatusPolicy::OkOrServerError,
            Command::AddComment => StatusPolicy::OkOrServerError,
            Command::AddDowntime => StatusPolicy::OkOrServerError,
            Command::DelAck => StatusPolicy::OkOrServerError,
            Command::DelComment => StatusPolicy::OkOrNotFound,
            Command::DelDowntime => StatusPolicy::OkOrNotFound,
            Command::GenerateTicket => StatusPolicy::OkOnly,
            Command::RescheduleCheck => StatusPolicy::OkOnly,
            Command::Status => StatusPolicy::OkOnly,
        }
    }

    /// Which status codes the command takes for an answer. The query and the
    /// two commands without a selection of their own insist on 200. The
    /// actions on selected objects also take 500, the removals of a named
    /// object also 404.
    #[verifier::when_used_as_spec(status_policy_spec)]
    pub fn status_policy(self) -> (p: StatusPolicy)
        ensures
            p == self.status_policy_spec(),
    {
        match self {
            Command::AddAck => StatusPolicy::OkOrServerError,
            Command::AddComment => StatusPolicy::OkOrServerError,
            Command::AddDowntime => StatusPolicy::OkOrServerError,
            Command::DelAck => StatusPolicy::OkOrServerError,
            Command::DelComment => StatusPolicy::OkOrNotFound,
            Command::DelDowntime => StatusPolicy::OkOrNotFound,
            Command::GenerateTicket => StatusPolicy::OkOnly,
            Command::RescheduleCheck => StatusPolicy::OkOnly,
            Command::Status => StatusPolicy::OkOnly,
        }
    }
}

/// The reason phrase that the `http` crate knows for a status code, if the
/// number is a status code and the crate knows a phrase for it.
pub uninterp spec fn canonical_reason(code: u16) -> Option<Seq<char>>;

/// Calls `http::StatusCode::from_u16` and, on the status code it returns,
/// `canonical_reason`. A number that is no status code has no phrase. Nothing
/// more is claimed of the phrase than that the number decides it.
#[verifier::external_body]
fn reason_phrase(code: u16) -> (r: Option<String>)
    ensures
        match r {
            Some(phrase) => canonical_reason(code) == Some(phrase@),
            None => canonical_reason(code) is None,
        },
{
    match http::StatusCode::from_u16(code) {
        Ok(status) => status.canonical_reason().map(|phrase| phrase.to_string()),
        Err(_) => None,
    }
}

/// What a policy makes of a status code: what to do with the answer, or
/// `None` where the policy does not accept the code.
pub open spec fn disposition_of(policy: StatusPolicy, code: u16) -> Option<Disposition> {
    if code == 200 {
        Some(Disposition::ShowResults)
    } else if code == 500 && policy == StatusPolicy::OkOrServerError {
        Some(Disposition::ShowResults)
    } else if code == 404 && policy == StatusPolicy::OkOrNotFound {
        Some(Disposition::ReportMissing)
    } else {
        None
    }
}

/// The kind of the error for a status code that a policy does not accept.
pub open spec fn refusal_kind(policy: StatusPolicy) -> ErrorKind {
    match policy {
        StatusPolicy::OkOnly => ErrorKind::StatusNotOk,
        StatusPolicy::OkOrServerError => ErrorKind::StatusNotOkOrServerError,
        StatusPolicy::OkOrNotFound => ErrorKind::StatusNotOkForNamed,
    }
}

/// The words that stand for the reason phrase of a status: the phrase, or
/// `None` where there is none.
pub open spec fn reason_text(reason: Option<Seq<char>>) -> Seq<char> {
    match reason {
        Some(phrase) => phrase,
        None => "None"@,
    }
}

/// The error for a status code that a policy does not accept. `reason` is the
/// reason phrase of the status code, if it has one; it becomes the error's
/// detail, and `None` stands in where there is no phrase.
pub fn unexpected_status(policy: StatusPolicy, reason: Option<&str>) -> (e: CtlError)
    ensures
        e.kind == refusal_kind(policy),
        e.detail@ == reason_text(
            match reason {
                Some(phrase) => Some(phrase@),
                None => None,
            },
        ),
{
    let kind = match policy {
        StatusPolicy::OkOnly => ErrorKind::StatusNotOk,
        StatusPolicy::OkOrServerError => ErrorKind::StatusNotOkOrServerError,
        StatusPolicy::OkOrNotFound => ErrorKind::StatusNotOkForNamed,
    };
    match reason {
        Some(phrase) => CtlError::new(kind, phrase),
        None => CtlError::new(kind, "None"),
    }
}

/// Decides what a status code means under a policy. 200 always means that the
/// answer holds results to show. 500 means the same for an action on selected
/// objects: no object was eligible, which the answer reports row by row. 404
/// on the removal of a named object means that there is no such object, which
/// is reported and is no failure. Every other code is an error that carries
/// the reason phrase of the code.
pub fn interpret_status(policy: StatusPolicy, code: u16) -> (r: Result<Disposition, CtlError>)
    ensures
        match disposition_of(policy, code) {
            Some(d) => r == Ok::<Disposition, CtlError>(d),
            None => fails_with(r, refusal_kind(policy), reason_text(canonical_reason(code))),
        },
{
    if code == 200 {
        return Ok(Disposition::ShowResults);
    }
    match policy {
        StatusPolicy::OkOrServerError => {
            if code == 500 {
                return Ok(Disposition::ShowResults);
            }
        },
        StatusPolicy::OkOrNotFound => {
            if code == 404 {
                return Ok(Disposition::ReportMissing);
            }
        },
        StatusPolicy::OkOnly => {},
    }
    let reason = reason_phrase(code);
    match &reason {
        Some(phrase) => Err(unexpected_status(policy, Some(phrase.as_str()))),
        None => Err(unexpected_status(policy, None)),
    }
}

/// Every command takes 200 for an answer with results. Of the other codes
/// only two are taken, each by its own commands: 500 by the four actions on
/// selected objects, as an answer with results, and 404 by the two removals
/// of a named object, as the report that there is no such object.
pub proof fn lemma_soft_status_codes(command: Command)
    ensures
        disposition_of(command.status_policy_spec(), 200) == Some(Disposition::ShowResults),
        disposition_of(command.status_policy_spec(), 500) == if command == Command::AddAck
            || command == Command::DelAck || command == Command::AddComment || command
            == Command::AddDowntime {
            Some(Disposition::ShowResults)
        } else {
            None
        },
        disposition_of(command.status_policy_spec(), 404) == if command == Command::DelComment
            || command == Command::DelDowntime {
            Some(Disposition::ReportMissing)
        } else {
            None
        },
        forall|code: u16|
            code != 200 && code != 404 && code != 500 ==> disposition_of(
                command.status_policy_spec(),
                code,
            ) is None,
{
}

/// The line for one row of an action's answer.
pub open spec fn action_line(row: Icinga2ActionReplyResult) -> Seq<char> {
    match row.name {
        Some(name) => name@ + ": "@ + row.status@,
        None => row.status@,
    }
}

/// The line for one row of the answer to a ticket request.
pub open spec fn ticket_line(row: Icinga2ActionReplyResult) -> Seq<char> {
    (match row.ticket {
        Some(ticket) => ticket@,
        None => "-"@,
    }) + ": "@ + row.status@
}

/// The line for one row of an action's answer: the status text, behind the
/// object's name and a colon where the row has a name.
pub fn render_action_result(row: &Icinga2ActionReplyResult) -> (line: String)
    ensures
        line@ == action_line(*row),
{
    match &row.name {
        Some(name) => {
            let mut line = name.clone();
            line.append(": ");
            line.append(row.status.as_str());
            line
        },
        None => row.status.clone(),
    }
}

/// The line for one row of the answer to a ticket request: the ticket, or a
/// dash where the row has none, then a colon and the status text.
pub fn render_ticket_result(row: &Icinga2ActionReplyResult) -> (line: String)
    ensures
        line@ == ticket_line(*row),
{
    let mut line = match &row.ticket {
        Some(ticket) => ticket.clone(),
        None => String::from_str("-"),
    };
    line.append(": ");
    line.append(row.status.as_str());
    line
}

/// The lines for an action's answer: one for each row, in the order of the rows.
pub fn render_action_reply(reply: &Icinga2ActionReply) -> (lines: Vec<String>)
    ensures
        lines@.len() == reply.results@.len(),
        forall|i: int| 0 <= i < lines@.len() ==> (#[trigger] lines@[i])@ == action_line(reply.results@[i]),
{
    let mut lines: Vec<String> = Vec::new();
    let mut i: usize = 0;
    while i < reply.results.len()
        invariant
            i <= reply.results@.len(),
            lines@.len() == i,
            forall|k: int| 0 <= k < i ==> (#[trigger] lines@[k])@ == action_line(reply.results@[k]),
        decreases reply.results@.len() - i,
    {
        lines.push(render_action_result(&reply.results[i]));
        i = i + 1;
    }
    lines
}

/// The lines for the answer to a ticket request: one for each row, in the
/// order of the rows.
pub fn render_ticket_reply(reply: &Icinga2ActionReply) -> (lines: Vec<String>)
    ensures
        lines@.len() == reply.results@.len(),
        forall|i: int| 0 <= i < lines@.len() ==> (#[trigger] lines@[i])@ == ticket_line(reply.results@[i]),
{
    let mut lines: Vec<String> = Vec::new();
    let mut i: usize = 0;
    while i < reply.results.len()
        invariant
            i <= reply.results@.len(),
            lines@.len() == i,
            forall|k: int| 0 <= k < i ==> (#[trigger] lines@[k])@ == ticket_line(reply.results@[k]),
        decreases reply.results@.len() - i,
    {
        lines.push(render_ticket_result(&reply.results[i]));
        i = i + 1;
    }
    lines
}

} // verus!
