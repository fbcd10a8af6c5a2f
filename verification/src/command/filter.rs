//! The two auxiliary predicates of a filter expression: the states an object
//! may be in, and how it may be acknowledged.

use vstd::prelude::*;
use vstd::string::*;
use crate::command::selector::TargetKind;
use crate::constants::{ICINGA2_ACK_ACK, ICINGA2_ACK_NONE, ICINGA2_ACK_STICKY};
use crate::error::{fails_with, CtlError, ErrorKind};
use crate::severity::Severity;
use crate::text::str_eq;

verus! {

/// The states asked for, in the order in which they were asked for. No state
/// occurs twice. Without any state the predicate holds of every object.
#[derive(Debug)]
pub struct StatePredicate {
    levels: Vec<Severity>,
}

impl View for StatePredicate {
    type V = Seq<Severity>;

    closed spec fn view(&self) -> Seq<Severity> {
        self.levels@
    }
}

/// The states that four flags ask for, in the fixed order of the flags.
pub open spec fn states_of_flags(ok: bool, warning: bool, critical: bool, unknown: bool) -> Seq<
    Severity,
> {
    (if ok {
        seq![Severity::Okay]
    } else {
        Seq::empty()
    }) + (if warning {
        seq![Severity::Warning]
    } else {
        Seq::empty()
    }) + (if critical {
        seq![Severity::Critical]
    } else {
        Seq::empty()
    }) + (if unknown {
        seq![Severity::Unknown]
    } else {
        Seq::empty()
    })
}

impl StatePredicate {
    #[verifier::type_invariant]
    spec fn distinct(&self) -> bool {
        self.levels@.no_duplicates()
    }

    /// The predicate that asks for no state.
    pub fn new() -> (p: StatePredicate)
        ensures
            p@ == Seq::<Severity>::empty(),
            p@.no_duplicates(),
    {
        StatePredicate { levels: Vec::new() }
    }

    /// How many states are asked for.
    pub fn len(&self) -> (n: usize)
        ensures
            n == self@.len(),
            self@.no_duplicates(),
    {
        proof {
            use_type_invariant(self);
        }
        self.levels.len()
    }

    /// Whether no state is asked for.
    pub fn is_empty(&self) -> (r: bool)
        ensures
            r == (self@.len() == 0),
    {
        self.levels.len() == 0
    }

    /// The state asked for at position `i`.
    pub fn get(&self, i: usize) -> (s: Severity)
        requires
            i < self@.len(),
        ensures
            s == self@[i as int],
    {
        self.levels[i]
    }

    /// Whether `s` is asked for.
    pub fn contains(&self, s: Severity) -> (r: bool)
        ensures
            r == self@.contains(s),
    {
        let mut i: usize = 0;
        while i < self.levels.len()
            invariant
                i <= self.levels@.len(),
                forall|j: int| 0 <= j < i ==> self.levels@[j] != s,
            decreases self.levels@.len() - i,
        {
            if self.levels[i] == s {
                return true;
            }
            i = i + 1;
        }
        false
    }

    /// Asks for `s` too. A state already asked for keeps its place.
    pub fn insert(&mut self, s: Severity)
        ensures
            old(self)@.contains(s) ==> final(self)@ == old(self)@,
            !old(self)@.contains(s) ==> final(self)@ == old(self)@.push(s),
            final(self)@.no_duplicates(),
    {
        proof {
            use_type_invariant(&*self);
        }
        if !self.contains(s) {
            let mut levels = self.levels.clone();
            levels.push(s);
            self.levels = levels;
        }
    }

    /// The predicate of four flags: the states whose flag is set, in the order
    /// OK, WARNING, CRITICAL, UNKNOWN.
    pub fn from_flags(ok: bool, warning: bool, critical: bool, unknown: bool) -> (p: StatePredicate)
        ensures
            p@ == states_of_flags(ok, warning, critical, unknown),
            p@.no_duplicates(),
    {
        let mut levels: Vec<Severity> = Vec::new();
        if ok {
            levels.push(Severity::Okay);
        }
        if warning {
            levels.push(Severity::Warning);
        }
        if critical {
            levels.push(Severity::Critical);
        }
        if unknown {
            levels.push(Severity::Unknown);
        }
        StatePredicate { levels }
    }
}

/// The test of an object's state against one state.
pub open spec fn state_term(n: Seq<char>, s: Severity) -> Seq<char> {
    n + ".state =="@ + s.digit_spec()
}

/// The tests of an object's state against each state of `levels`, joined by `||`.
pub open spec fn state_terms(n: Seq<char>, levels: Seq<Severity>) -> Seq<char>
    decreases levels.len(),
{
    if levels.len() == 0 {
        Seq::empty()
    } else if levels.len() == 1 {
        state_term(n, levels[0])
    } else {
        state_terms(n, levels.drop_last()) + " || "@ + state_term(n, levels.last())
    }
}

/// The state filter of the object called `n` for the states `levels`.
pub open spec fn state_filter(n: Seq<char>, levels: Seq<Severity>) -> Seq<char> {
    if levels.len() == 0 {
        n + ".state >= 0"@
    } else {
        "("@ + state_terms(n, levels) + ")"@
    }
}

/// Renders the state predicate `m` for the object called `n` (`host` or
/// `service`). Without any state the filter is `<n>.state >= 0`, which holds
/// of every object. Otherwise it is a disjunction in brackets with one term
/// `<n>.state ==<code>` for each state, in the order of the predicate.
pub fn build_state_filter(n: &str, m: &StatePredicate) -> (r: String)
    ensures
        r@ == state_filter(n@, m@),
        m@.len() == 0 ==> r@ == n@ + ".state >= 0"@,
{
    if m.is_empty() {
        let mut r = String::from_str(n);
        r.append(".state >= 0");
        return r;
    }
    let mut terms = String::new();
    let mut i: usize = 0;
    while i < m.len()
        invariant
            i <= m@.len(),
            terms@ == state_terms(n@, m@.take(i as int)),
        decreases m@.len() - i,
    {
        let mut term = String::from_str(n);
        term.append(".state ==");
        term.append(m.get(i).digit());
        assert(m@.take(i + 1).drop_last() =~= m@.take(i as int));
        if i > 0 {
            terms.append(" || ");
        }
        terms.append(term.as_str());
        i = i + 1;
    }
    assert(m@.take(m@.len() as int) =~= m@);
    let mut r = String::from_str("(");
    r.append(terms.as_str());
    r.append(")");
    r
}

/// The filter of a predicate that asks for no state is `<n>.state >= 0`,
/// whatever the object is called.
pub proof fn lemma_state_filter_of_none(n: Seq<char>)
    ensures
        state_filter(n, Seq::empty()) == n + ".state >= 0"@,
{
}

/// The filter of a predicate that asks for one state only is the single test
/// of that state in brackets.
pub proof fn lemma_state_filter_of_one(n: Seq<char>, s: Severity)
    ensures
        state_filter(n, seq![s]) == "("@ + (n + ".state =="@ + s.digit_spec()) + ")"@,
{
}

/// The filter of a predicate that asks for CRITICAL only is `(<n>.state ==2)`,
/// whatever the object is called.
pub proof fn lemma_state_filter_of_critical(n: Seq<char>)
    ensures
        state_filter(n, seq![Severity::Critical]) == "("@ + n + ".state ==2)"@,
{
    lemma_state_filter_of_one(n, Severity::Critical);
    reveal_strlit(".state ==");
    reveal_strlit("2");
    reveal_strlit(")");
    reveal_strlit(".state ==2)");
}

/// The filter expression of a command that changes acknowledgements: the
/// compiled selector, the demand for a hard state and, where states are asked
/// for, their filter as it is.
pub open spec fn hard_state_filter(kind: TargetKind, selector: Seq<char>, states: Seq<Severity>) -> Seq<
    char,
> {
    selector + " && "@ + kind.object_name_spec() + ".state_type == 1"@ + (if states.len() > 0 {
        " && "@ + state_filter(kind.object_name_spec(), states)
    } else {
        Seq::empty()
    })
}

/// Puts the filter expression of a command that changes acknowledgements
/// together. An acknowledgement has a meaning only once a check has settled in
/// its state, so the objects must be in a hard state: `state_type == 1` is
/// always part of the filter. The state filter is added only where states are
/// asked for.
pub fn compose_hard_state_filter(kind: TargetKind, selector: &str, states: &StatePredicate) -> (r:
    String)
    ensures
        r@ == hard_state_filter(kind, selector@, states@),
{
    let mut r = String::from_str(selector);
    r.append(" && ");
    r.append(kind.object_name());
    r.append(".state_type == 1");
    let mut rest = String::new();
    if !states.is_empty() {
        rest.append(" && ");
        rest.append(compile_state_filter(kind, states).as_str());
    }
    r.append(rest.as_str());
    r
}

/// How a command wants the objects to be acknowledged.
#[derive(Clone, Copy, PartialEq, Eq, Structural, Debug)]
pub enum AckPredicate {
    /// No restriction.
    Any,
    /// Objects without acknowledgement.
    Unacknowledged,
    /// Objects with a plain acknowledgement.
    Acknowledged,
    /// Objects with a sticky acknowledgement.
    Sticky,
}

impl AckPredicate {
    /// The acknowledgement code the predicate asks for; -1 where it asks for none.
    pub open spec fn code_spec(self) -> int {
        match self {
            AckPredicate::Any => -1,
            AckPredicate::Unacknowledged => ICINGA2_ACK_NONE as int,
            AckPredicate::Acknowledged => ICINGA2_ACK_ACK as int,
            AckPredicate::Sticky => ICINGA2_ACK_STICKY as int,
        }
    }

    /// The acknowledgement code the predicate asks for; -1 where it asks for none.
    pub fn code(self) -> (c: i8)
        ensures
            c == self.code_spec(),
    {
        match self {
            AckPredicate::Any => -1,
            AckPredicate::Unacknowledged => ICINGA2_ACK_NONE,
            AckPredicate::Acknowledged => ICINGA2_ACK_ACK,
            AckPredicate::Sticky => ICINGA2_ACK_STICKY,
        }
    }
}

/// The comparison that an acknowledgement code stands for.
pub open spec fn ack_comparison(ack: int) -> Seq<char> {
    if ack == ICINGA2_ACK_NONE {
        "== 0"@
    } else if ack == ICINGA2_ACK_ACK {
        "== 1"@
    } else if ack == ICINGA2_ACK_STICKY {
        "== 2"@
    } else {
        ">= 0"@
    }
}

/// The acknowledgement filter of the object called `n` for the code `ack`.
pub open spec fn ack_filter(n: Seq<char>, ack: int) -> Seq<char> {
    n + ".acknowledgement "@ + ack_comparison(ack)
}

/// Renders an acknowledgement code for the object called `n` (`host` or
/// `service`): `<n>.acknowledgement == 0` for objects without
/// acknowledgement, `== 1` for acknowledged ones, `== 2` for sticky ones.
/// Every other code gives `<n>.acknowledgement >= 0`, which holds of every
/// object.
pub fn build_ack_filter(n: &str, ack: i8) -> (r: String)
    ensures
        r@ == ack_filter(n@, ack as int),
{
    let mut r = String::from_str(n);
    r.append(".acknowledgement ");
    if ack == ICINGA2_ACK_NONE {
        r.append("== 0");
    } else if ack == ICINGA2_ACK_ACK {
        r.append("== 1");
    } else if ack == ICINGA2_ACK_STICKY {
        r.append("== 2");
    } else {
        r.append(">= 0");
    }
    r
}

/// The state filter of a kind of object.
pub fn compile_state_filter(kind: TargetKind, states: &StatePredicate) -> (r: String)
    ensures
        r@ == state_filter(kind.object_name_spec(), states@),
        states@.len() == 0 ==> r@ == kind.object_name_spec() + ".state >= 0"@,
{
    build_state_filter(kind.object_name(), states)
}

/// The acknowledgement filter of a kind of object.
pub fn compile_ack_filter(kind: TargetKind, ack: AckPredicate) -> (r: String)
    ensures
        r@ == ack_filter(kind.object_name_spec(), ack.code_spec()),
{
    build_ack_filter(kind.object_name(), ack.code())
}

/// The predicate that a value of the acknowledgement option stands for.
pub open spec fn ack_of_option(value: Option<Seq<char>>) -> Option<AckPredicate> {
    match value {
        None => Some(AckPredicate::Any),
        Some(v) => if v == "yes"@ {
            Some(AckPredicate::Acknowledged)
        } else if v == "no"@ {
            Some(AckPredicate::Unacknowledged)
        } else if v == "sticky"@ {
            Some(AckPredicate::Sticky)
        } else {
            None
        },
    }
}

/// Reads the acknowledgement option: `yes`, `no` or `sticky`; without the
/// option every object passes. Any other value is refused, with the value as
/// the error's detail.
pub fn parse_ack_option(value: Option<&str>) -> (r: Result<AckPredicate, CtlError>)
    ensures
        match ack_of_option(
            match value {
                Some(v) => Some(v@),
                None => None,
            },
        ) {
            Some(p) => r == Ok::<AckPredicate, CtlError>(p),
            None => fails_with(r, ErrorKind::InvalidAckOption, value->Some_0@),
        },
{
    match value {
        None => Ok(AckPredicate::Any),
        Some(v) => {
            if str_eq(v, "yes") {
                Ok(AckPredicate::Acknowledged)
            } else if str_eq(v, "no") {
                Ok(AckPredicate::Unacknowledged)
            } else if str_eq(v, "sticky") {
                Ok(AckPredicate::Sticky)
            } else {
                Err(CtlError::new(ErrorKind::InvalidAckOption, v))
            }
        },
    }
}

} // verus!
