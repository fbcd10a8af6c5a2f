//! Showing the state of the selected hosts or services.

use vstd::prelude::*;
use vstd::string::*;
use crate::command::filter::{
    ack_filter,
    ack_of_option,
    compile_ack_filter,
    compile_state_filter,
    parse_ack_option,
    state_filter,
    states_of_flags,
    AckPredicate,
    StatePredicate,
};
use crate::command::payload::{push_text_field, text_field};
use crate::command::selector::{
    compile_selector_filter,
    selector_filter,
    selector_kind,
    ObjectSelector,
    TargetKind,
};
use crate::constants::{ICINGA2_OBJ_HOST, ICINGA2_OBJ_SERVICE};
use crate::error::{fails_with, CtlError, ErrorClass, ErrorKind};
use crate::json_data::{Icinga2Status, Icinga2StatusResult, StatusResultAttrs};
use crate::request::HttpRequest;
use crate::severity::state_name;
use crate::text::{collapse_newlines, collapse_newlines_spec, escape_quotes, escape_quotes_spec};
use crate::util::{paint_state, shown_state, state_to_string};

verus! {

/// What the operator asked for.
#[derive(Debug)]
pub struct StatusOptions {
    /// The pattern for host names; empty if not given.
    pub host: String,
    /// The pattern for service names; empty if not given.
    pub service: String,
    pub ok: bool,
    pub warning: bool,
    pub critical: bool,
    pub unknown: bool,
    /// The acknowledgement wanted, as the operator wrote it.
    pub ack: Option<String>,
    pub no_color: bool,
}

impl StatusOptions {
    /// Whether the lines are shown in colour: they are, unless the operator
    /// turned colour off.
    pub fn color(&self) -> (r: bool)
        ensures
            r == !self.no_color,
    {
        !self.no_color
    }
}

/// The attributes that a query for hosts asks for.
pub const HOST_ATTRS: &'static str =
    "attrs=name&attrs=display_name&attrs=last_check_result&attrs=state&attrs=acknowledgement";

/// The attributes that a query for services asks for.
pub const SERVICE_ATTRS: &'static str =
    "attrs=display_name&attrs=host_name&attrs=last_check_result&attrs=state&attrs=acknowledgement";

/// The filter expression of a query or of a check to reschedule: the
/// selector, the states and the acknowledgement, all of which must hold.
pub open spec fn full_filter(
    host: Seq<char>,
    service: Seq<char>,
    states: Seq<crate::severity::Severity>,
    ack: AckPredicate,
) -> Seq<char> {
    selector_filter(host, service) + " && "@ + state_filter(
        selector_kind(host, service).object_name_spec(),
        states,
    ) + " && "@ + ack_filter(selector_kind(host, service).object_name_spec(), ack.code_spec())
}

/// Puts the three parts of a filter expression together: the compiled
/// selector, then the state filter and the acknowledgement filter for the
/// selector's kind of object.
pub fn compose_filter(
    kind: TargetKind,
    selector: &str,
    states: &StatePredicate,
    ack: AckPredicate,
) -> (r: String)
    ensures
        r@ == selector@ + " && "@ + state_filter(kind.object_name_spec(), states@) + " && "@
            + ack_filter(kind.object_name_spec(), ack.code_spec()),
{
    let mut r = String::from_str(selector);
    r.append(" && ");
    r.append(compile_state_filter(kind, states).as_str());
    r.append(" && ");
    r.append(compile_ack_filter(kind, ack).as_str());
    r
}

/// The path that objects of a kind are queried at.
pub open spec fn query_path(kind: TargetKind) -> Seq<char> {
    match kind {
        TargetKind::Host => ICINGA2_OBJ_HOST@,
        TargetKind::Service => ICINGA2_OBJ_SERVICE@,
    }
}

/// The attributes that a query for objects of a kind asks for.
pub open spec fn query_attrs(kind: TargetKind) -> Seq<char> {
    match kind {
        TargetKind::Host => HOST_ATTRS@,
        TargetKind::Service => SERVICE_ATTRS@,
    }
}

/// The body of a query with the given filter expression.
pub open spec fn query_body(filter: Seq<char>) -> Seq<char> {
    "{"@ + text_field("filter"@, escape_quotes_spec(filter)) + "}"@
}

/// Whether `request` is the query for the objects of `kind` that pass `filter`.
pub open spec fn is_query(request: HttpRequest, kind: TargetKind, filter: Seq<char>) -> bool {
    &&& request.method_override@ == "GET"@
    &&& request.path@ == query_path(kind)
    &&& request.query@ == query_attrs(kind)
    &&& request.body@ == query_body(filter)
}

/// The query for the objects of `kind` that pass `filter`: a POST that the
/// server is to take for a GET, to the path of the kind, asking for the
/// attributes that a line of output needs.
pub fn query_request(kind: TargetKind, filter: &str) -> (request: HttpRequest)
    ensures
        is_query(request, kind, filter@),
{
    let mut body = String::from_str("{");
    let escaped = escape_quotes(filter);
    push_text_field(&mut body, "filter", escaped.as_str());
    body.append("}");
    match kind {
        TargetKind::Host => HttpRequest {
            method_override: String::from_str("GET"),
            path: String::from_str(ICINGA2_OBJ_HOST),
            query: String::from_str(HOST_ATTRS),
            body,
        },
        TargetKind::Service => HttpRequest {
            method_override: String::from_str("GET"),
            path: String::from_str(ICINGA2_OBJ_SERVICE),
            query: String::from_str(SERVICE_ATTRS),
            body,
        },
    }
}

/// The acknowledgement option of the command, as texts.
pub open spec fn ack_text(ack: Option<String>) -> Option<Seq<char>> {
    match ack {
        Some(v) => Some(v@),
        None => None,
    }
}

/// Builds the query of the command. The acknowledgement option is read first,
/// then the selector is compiled; the filter expression is the selector, the
/// state filter of the four state flags and the acknowledgement filter.
pub fn request(opts: &StatusOptions) -> (r: Result<HttpRequest, CtlError>)
    ensures
        match ack_of_option(ack_text(opts.ack)) {
            None => fails_with(r, ErrorKind::InvalidAckOption, opts.ack->Some_0@),
            Some(ack) => if opts.host@.len() == 0 && opts.service@.len() == 0 {
                fails_with(r, ErrorKind::MissingSelector, " for status display"@)
            } else {
                r is Ok && is_query(
                    r->Ok_0,
                    selector_kind(opts.host@, opts.service@),
                    full_filter(
                        opts.host@,
                        opts.service@,
                        states_of_flags(opts.ok, opts.warning, opts.critical, opts.unknown),
                        ack,
                    ),
                )
            },
        },
        r is Err ==> r->Err_0.kind.class_spec() == ErrorClass::Validation,
{
    let states = StatePredicate::from_flags(opts.ok, opts.warning, opts.critical, opts.unknown);
    let ack_option = match &opts.ack {
        Some(v) => Some(v.as_str()),
        None => None,
    };
    let ack = match parse_ack_option(ack_option) {
        Ok(ack) => ack,
        Err(e) => {
            return Err(e);
        },
    };
    let selector = ObjectSelector::new(opts.host.as_str(), opts.service.as_str());
    let (kind, compiled) = match compile_selector_filter(&selector) {
        Ok(compiled) => compiled,
        Err(_) => {
            return Err(CtlError::new(ErrorKind::MissingSelector, " for status display"));
        },
    };
    let filter = compose_filter(kind, compiled.as_str(), &states, ack);
    Ok(query_request(kind, filter.as_str()))
}

/// The line that reports an object, before any colour: for a service the
/// host, the service, the state and the output of the last check; for a host
/// its name, the state and the output. A row that names neither gives no line.
pub open spec fn status_line(attrs: StatusResultAttrs) -> Option<Seq<char>> {
    match attrs.host_name {
        Some(host) => Some(
            host@ + ": "@ + attrs.display_name@ + ": "@ + state_name(attrs.state as int) + ": "@
                + collapse_newlines_spec(attrs.last_check_result.output@),
        ),
        None => match attrs.name {
            Some(host) => Some(
                host@ + ": "@ + state_name(attrs.state as int) + ": "@ + collapse_newlines_spec(
                    attrs.last_check_result.output@,
                ),
            ),
            None => None,
        },
    }
}

/// The line that reports an object, as it is shown.
pub open spec fn shown_line(attrs: StatusResultAttrs, color: bool) -> Option<Seq<char>> {
    match status_line(attrs) {
        Some(line) => Some(
            shown_state(line, state_name(attrs.state as int), attrs.acknowledgement as int, color),
        ),
        None => None,
    }
}

/// Renders one object of the answer. A row with a host name is a service and
/// is shown as `<host>: <service>: <STATE>: <output>`; a row without one is
/// the host called `name` and is shown as `<host>: <STATE>: <output>`. Line
/// feeds in the output become spaces. With `color` the line gets the colour
/// of its state. A row that names neither a host nor itself gives no line.
pub fn render_row(attrs: &StatusResultAttrs, color: bool) -> (r: Option<String>)
    ensures
        match shown_line(*attrs, color) {
            Some(line) => r is Some && r->Some_0@ == line,
            None => r is None,
        },
{
    let state = state_to_string(attrs.state);
    let output = collapse_newlines(attrs.last_check_result.output.as_str());
    let mut line = match &attrs.host_name {
        Some(host) => {
            let mut line = host.clone();
            line.append(": ");
            line.append(attrs.display_name.as_str());
            line
        },
        None => match &attrs.name {
            Some(host) => host.clone(),
            None => {
                return None;
            },
        },
    };
    line.append(": ");
    line.append(state.as_str());
    line.append(": ");
    line.append(output.as_str());
    Some(paint_state(line.as_str(), state.as_str(), attrs.acknowledgement, color))
}

/// The lines for the rows of an answer, in the order of the rows; rows
/// without a line are passed over.
pub open spec fn shown_lines(rows: Seq<Icinga2StatusResult>, color: bool) -> Seq<Seq<char>>
    decreases rows.len(),
{
    if rows.len() == 0 {
        Seq::empty()
    } else {
        match shown_line(rows.last().attrs, color) {
            Some(line) => shown_lines(rows.drop_last(), color).push(line),
            None => shown_lines(rows.drop_last(), color),
        }
    }
}

/// The texts of a list of lines.
pub open spec fn texts(lines: Seq<String>) -> Seq<Seq<char>> {
    lines.map_values(|line: String| line@)
}

/// Renders the answer to a query: one line for each object, in the order of
/// the answer.
pub fn render(reply: &Icinga2Status, color: bool) -> (lines: Vec<String>)
    ensures
        texts(lines@) == shown_lines(reply.results@, color),
{
    let mut lines: Vec<String> = Vec::new();
    let mut i: usize = 0;
    while i < reply.results.len()
        invariant
            i <= reply.results@.len(),
            texts(lines@) == shown_lines(reply.results@.take(i as int), color),
        decreases reply.results@.len() - i,
    {
        assert(reply.results@.take(i + 1).drop_last() =~= reply.results@.take(i as int));
        match render_row(&reply.results[i].attrs, color) {
            Some(line) => {
                lines.push(line);
            },
            None => {},
        }
        i = i + 1;
    }
    assert(reply.results@.take(reply.results@.len() as int) =~= reply.results@);
    lines
}

} // verus!
