//! Removing comments and downtimes. Both are removed in the same way: either
//! the one object of a given name, or those of the selected hosts or services.

use vstd::prelude::*;
use vstd::string::*;
use crate::command::payload::{push_text_field, request_is, text_field};
use crate::command::selector::{
    compile_selector_filter,
    selector_filter,
    selector_kind,
    ObjectSelector,
    TargetKind,
};
use crate::constants::{ICINGA2_DEL_COMMENT, ICINGA2_DEL_DOWNTIME};
use crate::error::{fails_with, CtlError, ErrorClass, ErrorKind};
use crate::request::{action_request, HttpRequest};
use crate::text::{escape_quotes, escape_quotes_spec};

verus! {

/// What is removed.
#[derive(Clone, Copy, PartialEq, Eq, Structural, Debug)]
pub enum Removable {
    Comment,
    Downtime,
}

impl Removable {
    /// The member of the payload that holds the name, which is also the word
    /// for the object in error messages.
    pub open spec fn key_spec(self) -> Seq<char> {
        match self {
            Removable::Comment => "comment"@,
            Removable::Downtime => "downtime"@,
        }
    }

    /// The word for the object at the start of a sentence.
    pub open spec fn label_spec(self) -> Seq<char> {
        match self {
            Removable::Comment => "Comment"@,
            Removable::Downtime => "Downtime"@,
        }
    }

    /// The path of the action that removes the object.
    pub open spec fn path_spec(self) -> Seq<char> {
        match self {
            Removable::Comment => ICINGA2_DEL_COMMENT@,
            Removable::Downtime => ICINGA2_DEL_DOWNTIME@,
        }
    }

    /// The member of the payload that holds the name.
    pub fn key(self) -> (r: &'static str)
        ensures
            r@ == self.key_spec(),
    {
        match self {
            Removable::Comment => "comment",
            Removable::Downtime => "downtime",
        }
    }

    /// The word for the object at the start of a sentence.
    pub fn label(self) -> (r: &'static str)
        ensures
            r@ == self.label_spec(),
    {
        match self {
            Removable::Comment => "Comment",
            Removable::Downtime => "Downtime",
        }
    }

    /// The path of the action that removes the object.
    pub fn path(self) -> (r: &'static str)
        ensures
            r@ == self.path_spec(),
    {
        match self {
            Removable::Comment => ICINGA2_DEL_COMMENT,
            Removable::Downtime => ICINGA2_DEL_DOWNTIME,
        }
    }
}

/// What the operator asked for.
#[derive(Debug)]
pub struct RemovalOptions {
    /// The pattern for host names; empty if not given.
    pub host: String,
    /// The pattern for service names; empty if not given.
    pub service: String,
    /// Who removes the object; empty if not given.
    pub author: String,
    /// The name of the object; empty if not given.
    pub name: String,
}

/// What a removal is aimed at: one object by its name, or the objects of
/// selected hosts or services. Never both, never neither.
#[derive(Debug)]
pub enum RemovalTarget {
    Named(String),
    Selected(TargetKind, String),
}

/// The aim of a removal as plain values.
pub enum RemovalTargetView {
    Named(Seq<char>),
    Selected(TargetKind, Seq<char>),
}

impl View for RemovalTarget {
    type V = RemovalTargetView;

    open spec fn view(&self) -> RemovalTargetView {
        match self {
            RemovalTarget::Named(name) => RemovalTargetView::Named(name@),
            RemovalTarget::Selected(kind, filter) => RemovalTargetView::Selected(*kind, filter@),
        }
    }
}

/// The aim that a name and two patterns stand for, or why they stand for none.
pub open spec fn target_spec(what: Removable, name: Seq<char>, host: Seq<char>, service: Seq<char>) -> Result<
    RemovalTargetView,
    (ErrorKind, Seq<char>),
> {
    if name.len() == 0 && host.len() == 0 && service.len() == 0 {
        Err((ErrorKind::MissingNameOrSelector, what.key_spec()))
    } else if name.len() > 0 && (host.len() > 0 || service.len() > 0) {
        Err((ErrorKind::NameWithSelector, what.key_spec()))
    } else if name.len() > 0 {
        Ok(RemovalTargetView::Named(name))
    } else {
        Ok(RemovalTargetView::Selected(selector_kind(host, service), selector_filter(host, service)))
    }
}

/// Decides what a removal is aimed at. The operator gives either the name of
/// the object or a selector. Giving neither is refused, and so is giving both.
pub fn removal_target(what: Removable, name: &str, selector: &ObjectSelector) -> (r: Result<
    RemovalTarget,
    CtlError,
>)
    ensures
        match target_spec(what, name@, selector.host_pattern@, selector.service_pattern@) {
            Ok(target) => r is Ok && r->Ok_0@ == target,
            Err((kind, detail)) => fails_with(r, kind, detail),
        },
{
    if name.is_empty() {
        match compile_selector_filter(selector) {
            Ok((kind, filter)) => Ok(RemovalTarget::Selected(kind, filter)),
            Err(_) => Err(CtlError::new(ErrorKind::MissingNameOrSelector, what.key())),
        }
    } else if selector.is_empty() {
        Ok(RemovalTarget::Named(String::from_str(name)))
    } else {
        Err(CtlError::new(ErrorKind::NameWithSelector, what.key()))
    }
}

/// The member of the payload that holds the author, with the comma in front
/// of it; empty without an author.
pub open spec fn author_part(author: Seq<char>) -> Seq<char> {
    if author.len() > 0 {
        ","@ + text_field("author"@, author)
    } else {
        Seq::empty()
    }
}

/// The members of the payload that hold the selection, with the comma in
/// front of them; empty for a removal by name.
pub open spec fn selection_part(target: RemovalTargetView) -> Seq<char> {
    match target {
        RemovalTargetView::Named(_) => Seq::empty(),
        RemovalTargetView::Selected(kind, filter) => ","@ + text_field(
            "filter"@,
            escape_quotes_spec(filter),
        ) + ","@ + text_field("type"@, kind.payload_name_spec()),
    }
}

/// The name that the payload carries: that of the object, empty for a
/// removal by selection.
pub open spec fn carried_name(target: RemovalTargetView) -> Seq<char> {
    match target {
        RemovalTargetView::Named(name) => name,
        RemovalTargetView::Selected(_, _) => Seq::empty(),
    }
}

/// The payload that removes comments or downtimes.
pub open spec fn payload_spec(what: Removable, target: RemovalTargetView, author: Seq<char>) -> Seq<
    char,
> {
    "{"@ + text_field(what.key_spec(), carried_name(target)) + author_part(author) + selection_part(
        target,
    ) + "}"@
}

/// Writes the payload that removes comments or downtimes: the name of the
/// object, which is empty for a removal by selection; the author if there is
/// one; and for a removal by selection the filter, with its quotes escaped,
/// and the kind of object.
pub fn payload(what: Removable, target: &RemovalTarget, author: &str) -> (r: String)
    ensures
        r@ == payload_spec(what, target@, author@),
{
    let mut r = String::from_str("{");
    match target {
        RemovalTarget::Named(name) => {
            push_text_field(&mut r, what.key(), name.as_str());
        },
        RemovalTarget::Selected(_, _) => {
            proof {
                reveal_strlit("");
            }
            push_text_field(&mut r, what.key(), "");
        },
    }
    let mut part = String::new();
    if !author.is_empty() {
        part.append(",");
        push_text_field(&mut part, "author", author);
    }
    r.append(part.as_str());
    let mut selection = String::new();
    match target {
        RemovalTarget::Named(_) => {},
        RemovalTarget::Selected(kind, filter) => {
            selection.append(",");
            let escaped = escape_quotes(filter.as_str());
            push_text_field(&mut selection, "filter", escaped.as_str());
            selection.append(",");
            push_text_field(&mut selection, "type", kind.payload_name());
        },
    }
    r.append(selection.as_str());
    r.append("}");
    r
}

/// What a removal sends for the operator's options: the payload, or the error.
pub open spec fn checked(what: Removable, o: RemovalOptions) -> Result<
    Seq<char>,
    (ErrorKind, Seq<char>),
> {
    match target_spec(what, o.name@, o.host@, o.service@) {
        Err(e) => Err(e),
        Ok(target) => Ok(payload_spec(what, target, o.author@)),
    }
}

/// Builds the request that removes comments or downtimes.
pub fn request(what: Removable, opts: &RemovalOptions) -> (r: Result<HttpRequest, CtlError>)
    ensures
        request_is(r, what.path_spec(), checked(what, *opts)),
        opts.name@.len() == 0 && opts.host@.len() == 0 && opts.service@.len() == 0 ==> r is Err,
        r is Err ==> r->Err_0.kind.class_spec() == ErrorClass::Validation,
{
    let selector = ObjectSelector::new(opts.host.as_str(), opts.service.as_str());
    let target = match removal_target(what, opts.name.as_str(), &selector) {
        Ok(target) => target,
        Err(e) => {
            return Err(e);
        },
    };
    let body = payload(what, &target, opts.author.as_str());
    Ok(action_request(what.path(), body))
}

/// What the operator is told where the named object does not exist.
pub open spec fn missing_message_spec(what: Removable, name: Seq<char>) -> Seq<char> {
    what.label_spec() + " "@ + name + " does not exist"@
}

/// What the operator is told where the server knows no object of the name:
/// `<Comment or Downtime> <name> does not exist`. This is an outcome of the
/// command, not a failure.
pub fn missing_message(what: Removable, name: &str) -> (r: String)
    ensures
        r@ == missing_message_spec(what, name@),
{
    let mut r = String::from_str(what.label());
    r.append(" ");
    r.append(name);
    r.append(" does not exist");
    r
}

} // verus!
