//! The help text of `del-downtime`.

use vstd::prelude::*;
use vstd::string::*;

verus! {

/// What the operator is told about removing downtimes.
pub const TEXT: &'static str = "    del-downtime - remove downtime
        -A <author>                 Set downtime removal author to <author>
        --author=<author>

        -D <downtime>               Name of downtime to be removed (as it is returned by add-downtime).
        --downtime=<downtime>       Downtime name and host/service objects are mutually exclusive

        -H <host_object>            Limit downtime removal to host <host_object>
        --host=<host_object>        Downtime name and host/service objects are mutually exclusive

        -S <service_object>         Limit downtime removal to  service <service_object>
        --service=<service_object>  Downtime name and host/service objects are mutually exclusive

        -h                          Show this text
        --help
\n";

/// The help text of the command.
pub fn show() -> (r: String)
    ensures
        r@ == TEXT@,
{
    String::from_str(TEXT)
}

} // verus!
