//! What the operator is told about the program and its commands. The
//! functions here make the texts; showing them is the caller's part.

pub mod add_ack;
pub mod add_comment;
pub mod add_downtime;
pub mod cmd_help;
pub mod del_ack;
pub mod del_comment;
pub mod del_downtime;
pub mod generate_ticket;
pub mod reschedule_check;
pub mod status;
pub mod usage;
pub mod version;

use vstd::prelude::*;
use vstd::string::*;
use crate::constants::NAME;

verus! {

/// The word in front of the program's name.
pub const USAGE_WORD: &'static str = "Usage: ";

/// The options that every command shares, and the heading of the commands.
pub const GENERAL: &'static str = " -c <cfg>|--config=<cfg> [-d|--debug] [-h|--help] [-v|--version] <command> [<command_options>...]

    -c <cfg>        Read configuration from <cfg>
    --config <cfg>  This parameter is mandatory

    -d              Enable debug output
    --debug

    -h              Shows this text
    --help

    -v              Show version information
    --version

  Commands:
\n";

/// The help texts of all commands, one after the other.
pub open spec fn commands_text() -> Seq<char> {
    add_ack::TEXT@ + add_comment::TEXT@ + add_downtime::text() + del_ack::TEXT@ + del_comment::TEXT@
        + del_downtime::TEXT@ + generate_ticket::TEXT@ + reschedule_check::TEXT@ + status::TEXT@
}

/// The whole help text.
pub open spec fn text() -> Seq<char> {
    version::text() + USAGE_WORD@ + NAME@ + GENERAL@ + commands_text()
}

/// The whole help text: the version, how the program is called, and the help
/// text of each command.
pub fn show() -> (r: String)
    ensures
        r@ == text(),
{
    let mut r = version::show();
    r.append(USAGE_WORD);
    r.append(NAME);
    r.append(GENERAL);
    let mut commands = add_ack::show();
    commands.append(add_comment::show().as_str());
    commands.append(add_downtime::show().as_str());
    commands.append(del_ack::show().as_str());
    commands.append(del_comment::show().as_str());
    commands.append(del_downtime::show().as_str());
    commands.append(generate_ticket::show().as_str());
    commands.append(reschedule_check::show().as_str());
    commands.append(status::show().as_str());
    r.append(commands.as_str());
    r
}

/// The version and the licence of the program.
pub fn show_version() -> (r: String)
    ensures
        r@ == version::text(),
{
    version::show()
}

/// The version, and how the program is called.
pub fn show_usage() -> (r: String)
    ensures
        r@ == usage::text(),
{
    usage::show()
}

/// The version and the help text of `status`.
pub fn show_usage_status() -> (r: String)
    ensures
        r@ == version::text() + status::TEXT@,
{
    let mut r = version::show();
    r.append(status::TEXT);
    r
}

/// The version and the help text of `add-ack`.
pub fn show_usage_add_ack() -> (r: String)
    ensures
        r@ == version::text() + add_ack::TEXT@,
{
    let mut r = version::show();
    r.append(add_ack::TEXT);
    r
}

/// The version and the help text of `del-ack`.
pub fn show_usage_del_ack() -> (r: String)
    ensures
        r@ == version::text() + del_ack::TEXT@,
{
    let mut r = version::show();
    r.append(del_ack::TEXT);
    r
}

/// The version and the help text of `add-downtime`.
pub fn show_usage_add_downtime() -> (r: String)
    ensures
        r@ == add_downtime::text(),
{
    add_downtime::show()
}

} // verus!
