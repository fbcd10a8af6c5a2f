//! From the two object patterns of a command to the kind of object it
//! addresses and the filter expression that selects the objects.

use vstd::prelude::*;
use vstd::string::*;
use crate::error::{fails_with, CtlError, ErrorClass, ErrorKind};

verus! {

/// The kind of object a command addresses.
#[derive(Clone, Copy, PartialEq, Eq, Structural, Debug)]
pub enum TargetKind {
    Host,
    Service,
}

impl TargetKind {
    /// The kind as the `type` field of a payload names it.
    pub open spec fn payload_name_spec(self) -> Seq<char> {
        match self {
            TargetKind::Host => "Host"@,
            TargetKind::Service => "Service"@,
        }
    }

    /// The kind as a filter expression names it.
    pub open spec fn object_name_spec(self) -> Seq<char> {
        match self {
            TargetKind::Host => "host"@,
            TargetKind::Service => "service"@,
        }
    }

    /// The kind as the `type` field of a payload names it: `Host` or `Service`.
    pub fn payload_name(self) -> (r: &'static str)
        ensures
            r@ == self.payload_name_spec(),
    {
        match self {
            TargetKind::Host => "Host",
            TargetKind::Service => "Service",
        }
    }

    /// The kind as a filter expression names it: `host` or `service`.
    pub fn object_name(self) -> (r: &'static str)
        ensures
            r@ == self.object_name_spec(),
    {
        match self {
            TargetKind::Host => "host",
            TargetKind::Service => "service",
        }
    }
}

/// The objects a command is about: a pattern for host names, a pattern for
/// service names. An empty pattern stands for "not given".
#[derive(Debug)]
pub struct ObjectSelector {
    pub host_pattern: String,
    pub service_pattern: String,
}

/// The test of one name against one pattern.
pub open spec fn match_term(pattern: Seq<char>, object: Seq<char>) -> Seq<char> {
    "match(\""@ + pattern + "\", "@ + object + ".name)"@
}

/// The kind of object that two patterns address: services as soon as there is
/// a service pattern, hosts otherwise.
pub open spec fn selector_kind(host: Seq<char>, service: Seq<char>) -> TargetKind {
    if service.len() > 0 {
        TargetKind::Service
    } else {
        TargetKind::Host
    }
}

/// The filter expression of two patterns of which at least one is given.
pub open spec fn selector_filter(host: Seq<char>, service: Seq<char>) -> Seq<char> {
    if service.len() == 0 {
        match_term(host, "host"@)
    } else if host.len() == 0 {
        match_term(service, "service"@)
    } else {
        match_term(host, "host"@) + " && "@ + match_term(service, "service"@)
    }
}

/// Written out, the test of a host's name is `match("<pattern>", host.name)`
/// and that of a service's name `match("<pattern>", service.name)`.
pub proof fn lemma_match_term_written_out(pattern: Seq<char>)
    ensures
        match_term(pattern, "host"@) == "match(\""@ + pattern + "\", host.name)"@,
        match_term(pattern, "service"@) == "match(\""@ + pattern + "\", service.name)"@,
{
    reveal_strlit("\", ");
    reveal_strlit("host");
    reveal_strlit("service");
    reveal_strlit(".name)");
    reveal_strlit("\", host.name)");
    reveal_strlit("\", service.name)");
    assert("\", "@ + "host"@ + ".name)"@ =~= "\", host.name)"@);
    assert("\", "@ + "service"@ + ".name)"@ =~= "\", service.name)"@);
}

impl ObjectSelector {
    /// The selector of the two patterns.
    pub fn new(host_pattern: &str, service_pattern: &str) -> (s: ObjectSelector)
        ensures
            s.host_pattern@ == host_pattern@,
            s.service_pattern@ == service_pattern@,
    {
        ObjectSelector {
            host_pattern: String::from_str(host_pattern),
            service_pattern: String::from_str(service_pattern),
        }
    }

    /// Whether neither pattern is given.
    pub open spec fn is_empty_spec(&self) -> bool {
        self.host_pattern@.len() == 0 && self.service_pattern@.len() == 0
    }

    /// Whether neither pattern is given.
    #[verifier::when_used_as_spec(is_empty_spec)]
    pub fn is_empty(&self) -> (r: bool)
        ensures
            r == self.is_empty_spec(),
    {
        self.host_pattern.as_str().is_empty() && self.service_pattern.as_str().is_empty()
    }

    /// The kind of object the selector addresses.
    pub fn target_kind(&self) -> (k: TargetKind)
        ensures
            k == selector_kind(self.host_pattern@, self.service_pattern@),
    {
        if self.service_pattern.as_str().is_empty() {
            TargetKind::Host
        } else {
            TargetKind::Service
        }
    }
}

/// Appends the test of one name against `pattern` to `out`.
fn push_match_term(out: &mut String, pattern: &str, object: &str)
    ensures
        final(out)@ == old(out)@ + match_term(pattern@, object@),
{
    let mut term = String::from_str("match(\"");
    term.append(pattern);
    term.append("\", ");
    term.append(object);
    term.append(".name)");
    out.append(term.as_str());
}

/// Compiles a selector: the kind of object it addresses and the filter
/// expression. A host pattern alone selects hosts by name; a service pattern
/// alone selects services by name on any host; both select the services of
/// that name on the hosts of that name. The patterns are put between the
/// quotes as they are. A selector without any pattern is refused.
pub fn compile_selector_filter(selector: &ObjectSelector) -> (r: Result<(TargetKind, String), CtlError>)
    ensures
        selector.host_pattern@.len() > 0 && selector.service_pattern@.len() == 0 ==> r is Ok
            && r->Ok_0.0 == TargetKind::Host && r->Ok_0.1@ == match_term(
            selector.host_pattern@,
            "host"@,
        ),
        selector.host_pattern@.len() == 0 && selector.service_pattern@.len() > 0 ==> r is Ok
            && r->Ok_0.0 == TargetKind::Service && r->Ok_0.1@ == match_term(
            selector.service_pattern@,
            "service"@,
        ),
        selector.host_pattern@.len() > 0 && selector.service_pattern@.len() > 0 ==> r is Ok
            && r->Ok_0.0 == TargetKind::Service && r->Ok_0.1@ == match_term(
            selector.host_pattern@,
            "host"@,
        ) + " && "@ + match_term(selector.service_pattern@, "service"@),
        selector.is_empty_spec() ==> fails_with(r, ErrorKind::MissingSelector, Seq::empty())
            && r->Err_0.kind.class_spec() == ErrorClass::Validation,
        r is Ok ==> r->Ok_0.0 == selector_kind(selector.host_pattern@, selector.service_pattern@)
            && r->Ok_0.1@ == selector_filter(selector.host_pattern@, selector.service_pattern@),
{
    let host = selector.host_pattern.as_str();
    let service = selector.service_pattern.as_str();
    if host.is_empty() && service.is_empty() {
        return Err(CtlError::plain(ErrorKind::MissingSelector));
    }
    let mut filter = String::new();
    if service.is_empty() {
        push_match_term(&mut filter, host, "host");
        Ok((TargetKind::Host, filter))
    } else if host.is_empty() {
        push_match_term(&mut filter, service, "service");
        Ok((TargetKind::Service, filter))
    } else {
        push_match_term(&mut filter, host, "host");
        filter.append(" && ");
        push_match_term(&mut filter, service, "service");
        Ok((TargetKind::Service, filter))
    }
}

} // verus!
