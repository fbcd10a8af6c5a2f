//! The short form of the general help text.

use vstd::prelude::*;
use vstd::string::*;
use crate::constants::NAME;
use crate::usage::version;

verus! {

/// The word in front of the program's name.
pub const USAGE_WORD: &'static str = "Usage: ";

/// The options that every command shares.
pub const OPTIONS: &'static str = " -c <cfg>|--config=<cfg> [-h|--help] [-v|--version] <command> [<command_options>...]

    -c <cfg>        Read configuration from <cfg>
    --config <cfg>  This parameter is mandatory

    -h              Shows this text
    --help

    -v              Show version information
    --version
\n";

/// The version and the general options.
pub open spec fn text() -> Seq<char> {
    version::text() + USAGE_WORD@ + NAME@ + OPTIONS@
}

/// The version, and how the program is called.
pub fn show() -> (r: String)
    ensures
        r@ == text(),
{
    let mut r = version::show();
    r.append(USAGE_WORD);
    r.append(NAME);
    r.append(OPTIONS);
    r
}

} // verus!
