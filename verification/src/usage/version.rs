//! The version and the licence of the program.

use vstd::prelude::*;
use vstd::string::*;
use crate::constants::{NAME, VERSION};

verus! {

/// The words between the name and the version.
pub const VERSION_WORD: &'static str = " version ";

/// Who holds the copyright.
pub const COPYRIGHT: &'static str = "
Copyright (C) 2020 by Andreas Maus <maus@ypbind.de>
This program comes with ABSOLUTELY NO WARRANTY.

";

/// Under which terms the program is distributed.
pub const LICENCE: &'static str = " is distributed under the Terms of the GNU General
Public License Version 3. (http://www.gnu.org/copyleft/gpl.html)
\n";

/// The version and the licence of the program.
pub open spec fn text() -> Seq<char> {
    NAME@ + VERSION_WORD@ + VERSION@ + COPYRIGHT@ + NAME@ + LICENCE@
}

/// The version and the licence of the program, as shown to the operator.
pub fn show() -> (r: String)
    ensures
        r@ == text(),
{
    let mut r = String::from_str(NAME);
    r.append(VERSION_WORD);
    r.append(VERSION);
    r.append(COPYRIGHT);
    r.append(NAME);
    r.append(LICENCE);
    r
}

} // verus!
