//! The help text of one command, asked for by the command's name.

use vstd::prelude::*;
use vstd::string::*;
use crate::command::reply::Command;
use crate::error::{fails_with, CtlError, ErrorKind};
use crate::usage::{
    add_ack,
    add_comment,
    add_downtime,
    del_ack,
    del_comment,
    del_downtime,
    generate_ticket,
    reschedule_check,
    status,
    version,
};

verus! {

/// The help text of a command without the version in front.
pub open spec fn command_text(command: Command) -> Seq<char> {
    match command {
        Command::AddAck => add_ack::TEXT@,
        Command::AddComment => add_comment::TEXT@,
        Command::AddDowntime => add_downtime::text(),
        Command::DelAck => del_ack::TEXT@,
        Command::DelComment => del_comment::TEXT@,
        Command::DelDowntime => del_downtime::TEXT@,
        Command::GenerateTicket => generate_ticket::TEXT@,
        Command::RescheduleCheck => reschedule_check::TEXT@,
        Command::Status => status::TEXT@,
    }
}

/// The help text of a command: the version, then what the command does and
/// takes.
pub open spec fn help_text(command: Command) -> Seq<char> {
    version::text() + command_text(command)
}

/// The help text of the command called `cmd`: the version, then the
/// command's own text. A name that is not the name of a command is refused,
/// with the name as the error's detail.
pub fn show(cmd: &str) -> (r: Result<String, CtlError>)
    ensures
        match Command::from_name_spec(cmd@) {
            Some(command) => r is Ok && r->Ok_0@ == help_text(command),
            None => fails_with(r, ErrorKind::UnknownCommand, cmd@),
        },
{
    let command = match Command::from_name(cmd) {
        Some(command) => command,
        None => {
            return Err(CtlError::new(ErrorKind::UnknownCommand, cmd));
        },
    };
    let text = match command {
        Command::AddAck => add_ack::show(),
        Command::AddComment => add_comment::show(),
        Command::AddDowntime => add_downtime::show(),
        Command::DelAck => del_ack::show(),
        Command::DelComment => del_comment::show(),
        Command::DelDowntime => del_downtime::show(),
        Command::GenerateTicket => generate_ticket::show(),
        Command::RescheduleCheck => reschedule_check::show(),
        Command::Status => status::show(),
    };
    let mut r = version::show();
    r.append(text.as_str());
    Ok(r)
}

} // verus!
