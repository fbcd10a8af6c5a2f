//! The help text of `add-comment`.

use vstd::prelude::*;
use vstd::string::*;

verus! {

/// What the operator is told about adding a comment.
pub const TEXT: &'static str = "    add-comment - add a comment

        -C <comment>                Set comment comment.
        --comment=<comment>         This option is mandatory.

        -H <host_object>            Add comment for host <host_object>
        --host=<host_object>

        -S <service_object>         Add comment for service <service_object>
        --service=<service_object>

        -a <author>                 Set author of comment
        --author=<author>           Default: current user

        -h                          Show this text
        --help

\n";

/// The help text of the command.
pub fn show() -> (r: String)
    ensures
        r@ == TEXT@,
{
    String::from_str(TEXT)
}

} // verus!
