//! The help text of `generate-ticket`.

use vstd::prelude::*;
use vstd::string::*;

verus! {

/// What the operator is told about asking for a ticket.
pub const TEXT: &'static str = "    generate-ticket - generate PKI ticket for Icinga2 auto signing

        -C <cn>                     Common name attribute of the host for which the ticket
        --cn=<cn>                   should be created. This option is mandatory.

        -h                          Show this text
        --help
\n";

/// The help text of the command.
pub fn show() -> (r: String)
    ensures
        r@ == TEXT@,
{
    String::from_str(TEXT)
}

} // verus!
