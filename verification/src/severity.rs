//! The four states of a monitored object, their codes and their names.

use vstd::prelude::*;
use crate::text::str_eq;

verus! {

/// The state of a host or service as the server reports it.
#[derive(Clone, Copy, PartialEq, Eq, Structural, Debug)]
pub enum Severity {
    Okay,
    Warning,
    Critical,
    Unknown,
}

/// The name shown for a state code that is none of the four.
pub open spec fn no_state_name() -> Seq<char> {
    "???"@
}

impl Severity {
    /// The number the server uses for the state.
    pub open spec fn code_spec(self) -> int {
        match self {
            Severity::Okay => 0,
            Severity::Warning => 1,
            Severity::Critical => 2,
            Severity::Unknown => 3,
        }
    }

    /// The state with the given number, if there is one.
    pub open spec fn from_code_spec(code: int) -> Option<Severity> {
        if code == 0 {
            Some(Severity::Okay)
        } else if code == 1 {
            Some(Severity::Warning)
        } else if code == 2 {
            Some(Severity::Critical)
        } else if code == 3 {
            Some(Severity::Unknown)
        } else {
            None
        }
    }

    /// The name shown to the operator.
    pub open spec fn name_spec(self) -> Seq<char> {
        match self {
            Severity::Okay => "OK"@,
            Severity::Warning => "WARNING"@,
            Severity::Critical => "CRITICAL"@,
            Severity::Unknown => "UNKNOWN"@,
        }
    }

    /// The state that a name shown to the operator stands for.
    pub open spec fn from_name_spec(name: Seq<char>) -> Option<Severity> {
        if name == "OK"@ {
            Some(Severity::Okay)
        } else if name == "WARNING"@ {
            Some(Severity::Warning)
        } else if name == "CRITICAL"@ {
            Some(Severity::Critical)
        } else if name == "UNKNOWN"@ {
            Some(Severity::Unknown)
        } else {
            None
        }
    }

    /// The digit of the state's code, as a filter expression writes it.
    pub open spec fn digit_spec(self) -> Seq<char> {
        match self {
            Severity::Okay => "0"@,
            Severity::Warning => "1"@,
            Severity::Critical => "2"@,
            Severity::Unknown => "3"@,
        }
    }

    /// The number the server uses for the state.
    pub fn code(self) -> (c: i64)
        ensures
            c == self.code_spec(),
    {
        match self {
            Severity::Okay => 0,
            Severity::Warning => 1,
            Severity::Critical => 2,
            Severity::Unknown => 3,
        }
    }

    /// The state with the given number; `None` for every number but 0 to 3.
    pub fn from_code(code: i64) -> (s: Option<Severity>)
        ensures
            s == Severity::from_code_spec(code as int),
    {
        if code == 0 {
            Some(Severity::Okay)
        } else if code == 1 {
            Some(Severity::Warning)
        } else if code == 2 {
            Some(Severity::Critical)
        } else if code == 3 {
            Some(Severity::Unknown)
        } else {
            None
        }
    }

    /// The name shown to the operator: `OK`, `WARNING`, `CRITICAL` or `UNKNOWN`.
    pub fn name(self) -> (r: &'static str)
        ensures
            r@ == self.name_spec(),
    {
        match self {
            Severity::Okay => "OK",
            Severity::Warning => "WARNING",
            Severity::Critical => "CRITICAL",
            Severity::Unknown => "UNKNOWN",
        }
    }

    /// Reads a name back: the state called `name`, `None` for any other text.
    pub fn from_name(name: &str) -> (s: Option<Severity>)
        ensures
            s == Severity::from_name_spec(name@),
    {
        if str_eq(name, "OK") {
            Some(Severity::Okay)
        } else if str_eq(name, "WARNING") {
            Some(Severity::Warning)
        } else if str_eq(name, "CRITICAL") {
            Some(Severity::Critical)
        } else if str_eq(name, "UNKNOWN") {
            Some(Severity::Unknown)
        } else {
            None
        }
    }

    /// The digit of the state's code.
    pub fn digit(self) -> (r: &'static str)
        ensures
            r@ == self.digit_spec(),
    {
        match self {
            Severity::Okay => "0",
            Severity::Warning => "1",
            Severity::Critical => "2",
            Severity::Unknown => "3",
        }
    }
}

/// The name shown for a state code: the state's name for 0 to 3, `???` for
/// every other number.
pub open spec fn state_name(code: int) -> Seq<char> {
    match Severity::from_code_spec(code) {
        Some(s) => s.name_spec(),
        None => no_state_name(),
    }
}

/// The four names are pairwise different, and none of them is `???`.
pub proof fn lemma_names_differ()
    ensures
        forall|a: Severity, b: Severity| a.name_spec() == b.name_spec() ==> a == b,
        forall|a: Severity| a.name_spec() != no_state_name(),
{
    reveal_strlit("OK");
    reveal_strlit("WARNING");
    reveal_strlit("CRITICAL");
    reveal_strlit("UNKNOWN");
    reveal_strlit("???");
    assert forall|a: Severity, b: Severity| a.name_spec() == b.name_spec() implies a == b by {
        if a != b {
            assert(a.name_spec().len() != b.name_spec().len() || a.name_spec()[0]
                != b.name_spec()[0]);
        }
    }
    assert forall|a: Severity| a.name_spec() != no_state_name() by {
        assert(a.name_spec()[0] != no_state_name()[0]);
    }
}

/// A state code from 0 to 3 is shown under a name that reads back as the state
/// of that code: showing and reading are inverse on the four states.
pub proof fn lemma_code_name_round_trip(code: int)
    requires
        0 <= code <= 3,
    ensures
        Severity::from_code_spec(code) is Some,
        Severity::from_name_spec(state_name(code)) == Severity::from_code_spec(code),
        Severity::from_name_spec(state_name(code))->Some_0.code_spec() == code,
{
    lemma_names_differ();
    assert(Severity::Okay.name_spec() == "OK"@);
    assert(Severity::Warning.name_spec() == "WARNING"@);
    assert(Severity::Critical.name_spec() == "CRITICAL"@);
    assert(Severity::Unknown.name_spec() == "UNKNOWN"@);
}

/// A state code outside 0 to 3 is shown as `???`, which reads back as no state.
pub proof fn lemma_other_codes_have_no_name(code: int)
    requires
        code < 0 || code > 3,
    ensures
        state_name(code) == no_state_name(),
        Severity::from_name_spec(state_name(code)) is None,
{
    lemma_names_differ();
    assert(Severity::Okay.name_spec() == "OK"@);
    assert(Severity::Warning.name_spec() == "WARNING"@);
    assert(Severity::Critical.name_spec() == "CRITICAL"@);
    assert(Severity::Unknown.name_spec() == "UNKNOWN"@);
}

} // verus!
