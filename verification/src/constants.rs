//! Names, paths and codes that are fixed by the program or by the server's API.

use vstd::prelude::*;
use vstd::string::*;

verus! {

pub const NAME: &'static str = "icinga2ctl";

pub const VERSION: &'static str = "0.9.0-20201222";

pub const PROJECT_URL: &'static str = "https://git.ypbind.de/cgit/icinga2ctl";

/// Authentication by user name and password.
pub const AUTH_USER: u8 = 0x01;

/// Authentication by a client certificate.
pub const AUTH_CERT: u8 = 0x02;

pub const ICINGA2_OBJ_SERVICE: &'static str = "/v1/objects/services";

pub const ICINGA2_OBJ_HOST: &'static str = "/v1/objects/hosts";

pub const ICINGA2_ADD_ACK: &'static str = "/v1/actions/acknowledge-problem";

pub const ICINGA2_DEL_ACK: &'static str = "/v1/actions/remove-acknowledgement";

pub const ICINGA2_ADD_DOWNTIME: &'static str = "/v1/actions/schedule-downtime";

pub const ICINGA2_DEL_DOWNTIME: &'static str = "/v1/actions/remove-downtime";

pub const ICINGA2_RESCHEDULE_CHECK: &'static str = "/v1/actions/reschedule-check";

pub const ICINGA2_GENERATE_TICKET: &'static str = "/v1/actions/generate-ticket";

pub const ICINGA2_ADD_COMMENT: &'static str = "/v1/actions/add-comment";

pub const ICINGA2_DEL_COMMENT: &'static str = "/v1/actions/remove-comment";

/// Acknowledgement code of an object without acknowledgement.
pub const ICINGA2_ACK_NONE: i8 = 0;

/// Acknowledgement code of an acknowledged object.
pub const ICINGA2_ACK_ACK: i8 = 1;

/// Acknowledgement code of an object with a sticky acknowledgement.
pub const ICINGA2_ACK_STICKY: i8 = 2;

/// What the client calls itself towards the server.
pub open spec fn user_agent_spec() -> Seq<char> {
    NAME@ + "/"@ + VERSION@ + " (+"@ + PROJECT_URL@ + ")"@
}

/// The value of the `User-Agent` header: name, version and, in brackets, where
/// the project lives.
pub fn user_agent() -> (r: String)
    ensures
        r@ == user_agent_spec(),
{
    let mut r = String::from_str(NAME);
    r.append("/");
    r.append(VERSION);
    r.append(" (+");
    r.append(PROJECT_URL);
    r.append(")");
    r
}

} // verus!
