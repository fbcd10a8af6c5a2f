//! The two shapes of the server's answers, as values. The numbers of the wire
//! format are held as integers here.

use vstd::prelude::*;

verus! {

/// The answer to a query for objects.
#[derive(Debug)]
pub struct Icinga2Status {
    pub results: Vec<Icinga2StatusResult>,
}

/// One object of the answer to a query.
#[derive(Debug)]
pub struct Icinga2StatusResult {
    pub attrs: StatusResultAttrs,
    pub name: String,
}

/// The attributes of one object. A row with a `host_name` stands for a
/// service, whose own name is in `display_name`; a row without one stands for
/// the host called `name`.
#[derive(Debug)]
pub struct StatusResultAttrs {
    pub acknowledgement: i64,
    pub display_name: String,
    pub host_name: Option<String>,
    pub last_check_result: LastCheckResult,
    pub name: Option<String>,
    pub state: i64,
    pub state_type: i64,
}

/// What the last check of an object gave.
#[derive(Debug)]
pub struct LastCheckResult {
    pub active: bool,
    pub output: String,
}

/// The answer to an action.
#[derive(Debug)]
pub struct Icinga2ActionReply {
    pub results: Vec<Icinga2ActionReplyResult>,
}

/// What an action did to one object.
#[derive(Debug)]
pub struct Icinga2ActionReplyResult {
    pub code: i64,
    pub name: Option<String>,
    pub status: String,
    pub ticket: Option<String>,
}

} // verus!
