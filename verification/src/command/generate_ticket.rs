//! Asking the server for the ticket that lets a host enrol itself.

use vstd::prelude::*;
use vstd::string::*;
use crate::command::payload::{push_text_field, request_is, text_field};
use crate::constants::ICINGA2_GENERATE_TICKET;
use crate::error::{CtlError, ErrorClass, ErrorKind};
use crate::request::{action_request, HttpRequest};

verus! {

/// What the operator asked for.
#[derive(Debug)]
pub struct GenerateTicketOptions {
    /// The common name of the host that the ticket is for.
    pub cn: Option<String>,
}

/// The payload that asks for a ticket.
pub open spec fn payload_spec(cn: Seq<char>) -> Seq<char> {
    "{"@ + text_field("cn"@, cn) + "}"@
}

/// Writes the payload that asks for a ticket: the common name.
pub fn payload(cn: &str) -> (r: String)
    ensures
        r@ == payload_spec(cn@),
{
    let mut r = String::from_str("{");
    push_text_field(&mut r, "cn", cn);
    r.append("}");
    r
}

/// What the command sends for the operator's options: the payload, or the
/// error where there is no common name.
pub open spec fn checked(o: GenerateTicketOptions) -> Result<Seq<char>, (ErrorKind, Seq<char>)> {
    match o.cn {
        Some(cn) => Ok(payload_spec(cn@)),
        None => Err((ErrorKind::MissingCommonName, Seq::empty())),
    }
}

/// Builds the request that asks for a ticket. The common name is required.
pub fn request(opts: &GenerateTicketOptions) -> (r: Result<HttpRequest, CtlError>)
    ensures
        request_is(r, ICINGA2_GENERATE_TICKET@, checked(*opts)),
        r is Err ==> r->Err_0.kind.class_spec() == ErrorClass::Validation,
{
    match &opts.cn {
        Some(cn) => Ok(action_request(ICINGA2_GENERATE_TICKET, payload(cn.as_str()))),
        None => Err(CtlError::plain(ErrorKind::MissingCommonName)),
    }
}

} // verus!
