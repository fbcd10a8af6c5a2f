//! Removing a comment by its name, or the comments of the selected hosts or
//! services.

use vstd::prelude::*;
use crate::command::payload::request_is;
use crate::command::removal::{checked, Removable, RemovalOptions};
use crate::constants::ICINGA2_DEL_COMMENT;
use crate::error::{CtlError, ErrorClass};
use crate::request::HttpRequest;

verus! {

/// Builds the request that removes comments: the comment of the given name,
/// or the comments of the selected objects. The operator must give the one or
/// the other.
pub fn request(opts: &RemovalOptions) -> (r: Result<HttpRequest, CtlError>)
    ensures
        request_is(r, ICINGA2_DEL_COMMENT@, checked(Removable::Comment, *opts)),
        opts.name@.len() == 0 && opts.host@.len() == 0 && opts.service@.len() == 0 ==> r is Err,
        r is Err ==> r->Err_0.kind.class_spec() == ErrorClass::Validation,
{
    crate::command::removal::request(Removable::Comment, opts)
}

/// What the operator is told where the server knows no comment of the name.
pub fn missing_message(name: &str) -> (r: String)
    ensures
        r@ == "Comment"@ + " "@ + name@ + " does not exist"@,
{
    crate::command::removal::missing_message(Removable::Comment, name)
}

} // verus!
