//! The result algebra of validation runs and the validator protocol.
//!
//! A validation run produces a [`ValidationState`]: an ordered list of
//! conformance errors together with the set of reference identifiers that
//! could not be resolved. States from sub-validations are folded together
//! with an associative merge whose identity is the empty state.

use vstd::prelude::*;
use crate::error::{ErrorModel, ValidationError};
use crate::formats::{date_time_result, DateTime};
use crate::ref_::Ref;
use crate::required::{required_result, Required};
use crate::scope::{scope_lookup, Scope};
use crate::value::Value;
use crate::Outcome;

verus! {

/// The mathematical shape of a validation state: the error sequence and the
/// sequence of unresolved reference identifiers.
pub struct StateModel {
    pub errors: Seq<ErrorModel>,
    pub missing: Seq<Seq<char>>,
}

impl StateModel {
    /// The identity element of `merge`: no errors, nothing unresolved.
    pub open spec fn empty() -> StateModel {
        StateModel { errors: Seq::empty(), missing: Seq::empty() }
    }

    /// Concatenation of two states, in order.
    pub open spec fn merge(self, other: StateModel) -> StateModel {
        StateModel { errors: self.errors + other.errors, missing: self.missing + other.missing }
    }

    /// A run's overall outcome: errors dominate, then unresolved references.
    pub open spec fn spec_outcome(self) -> Outcome {
        if self.errors.len() > 0 {
            Outcome::Invalid
        } else if self.missing.len() > 0 {
            Outcome::Incomplete
        } else {
            Outcome::Valid
        }
    }
}

/// Law: merging validation states is associative.
pub proof fn lemma_merge_associative(a: StateModel, b: StateModel, c: StateModel)
    ensures
        a.merge(b).merge(c) == a.merge(b.merge(c)),
{
    assert(a.merge(b).merge(c).errors =~= a.merge(b.merge(c)).errors);
    assert(a.merge(b).merge(c).missing =~= a.merge(b.merge(c)).missing);
}

/// Law: the empty state is a left and right identity of merge.
pub proof fn lemma_merge_identity(a: StateModel)
    ensures
        a.merge(StateModel::empty()) == a,
        StateModel::empty().merge(a) == a,
{
    assert(a.merge(StateModel::empty()).errors =~= a.errors);
    assert(a.merge(StateModel::empty()).missing =~= a.missing);
    assert(StateModel::empty().merge(a).errors =~= a.errors);
    assert(StateModel::empty().merge(a).missing =~= a.missing);
}

/// The accumulated result of one validation run: every conformance violation
/// found, in discovery order, and every reference identifier that could not
/// be resolved within the runtime scope.
#[derive(Debug)]
pub struct ValidationState {
    pub errors: Vec<ValidationError>,
    pub missing: Vec<String>,
}

impl View for ValidationState {
    type V = StateModel;

    open spec fn view(&self) -> StateModel {
        StateModel { errors: self.errors.deep_view(), missing: self.missing.deep_view() }
    }
}

impl ValidationState {
    /// The empty state: a validation that found nothing wrong and nothing
    /// unresolved.
    pub fn new() -> (r: ValidationState)
        ensures
            r@ == StateModel::empty(),
    {
        let r = ValidationState { errors: Vec::new(), missing: Vec::new() };
        proof {
            assert(r@.errors =~= StateModel::empty().errors);
            assert(r@.missing =~= StateModel::empty().missing);
        }
        r
    }

    /// Folds `second` into this state: errors and unresolved references are
    /// appended, keeping discovery order.
    pub fn append(&mut self, second: ValidationState)
        ensures
            final(self)@ == old(self)@.merge(second@),
    {
        let ValidationState { mut errors, mut missing } = second;
        self.errors.append(&mut errors);
        self.missing.append(&mut missing);
        proof {
            assert(final(self)@.errors =~= old(self)@.merge(second@).errors);
            assert(final(self)@.missing =~= old(self)@.merge(second@).missing);
        }
    }

    /// Whether the run saw no conformance violation (unresolved references
    /// are not violations).
    pub fn is_valid(&self) -> (r: bool)
        ensures
            r == (self@.errors.len() == 0),
    {
        self.errors.len() == 0
    }

    /// The three-way outcome: invalid, incomplete, or valid.
    pub fn outcome(&self) -> (r: Outcome)
        ensures
            r == self@.spec_outcome(),
    {
        if self.errors.len() > 0 {
            Outcome::Invalid
        } else if self.missing.len() > 0 {
            Outcome::Incomplete
        } else {
            Outcome::Valid
        }
    }
}

/// The validator protocol: a compiled validator is a pure function of the
/// input value, its path, and the runtime scope, yielding a validation state.
pub trait Validator {
    /// The state this validator yields, as a function of its inputs.
    spec fn spec_result(&self, item: Value, path: Seq<char>, scope: Scope) -> StateModel;

    /// Runs the validator against `item`; `path` only annotates errors.
    fn validate(&self, item: &Value, path: &str, scope: &Scope) -> (r: ValidationState)
        ensures
            r@ == self.spec_result(*item, path@, *scope),
    ;
}

/// A compiled validator object of any of the supported kinds. `Noop` accepts
/// every input; the other kinds carry what they interned at compile time.
#[derive(Debug)]
pub enum BoxedValidator {
    Noop,
    DateTime(DateTime),
    Required(Required),
    Ref(Ref),
}

/// A compiled schema: the validators of its keywords, in registry order.
pub type Validators = Vec<BoxedValidator>;

/// Result of a reference validator with identifier `url`: an identifier that
/// the scope does not resolve is deferred (reported in `missing`, never an
/// error); a resolved one delegates to the target, spending one unit of
/// fuel. Exhausted fuel (a reference chain longer than the scope itself, so
/// necessarily cyclic) defers as well.
pub open spec fn ref_result(
    url: Seq<char>,
    item: Value,
    path: Seq<char>,
    scope: Scope,
    fuel: nat,
) -> StateModel
    decreases fuel, 0int,
{
    match scope_lookup(scope.entries@, url) {
        None => StateModel { errors: Seq::empty(), missing: seq![url] },
        Some(t) => if fuel == 0 {
            StateModel { errors: Seq::empty(), missing: seq![url] }
        } else {
            spec_validate(t, item, path, scope, (fuel - 1) as nat)
        },
    }
}

/// The state a validator yields on `item`, with `fuel` bounding reference
/// chains through the scope.
pub open spec fn spec_validate(
    v: BoxedValidator,
    item: Value,
    path: Seq<char>,
    scope: Scope,
    fuel: nat,
) -> StateModel
    decreases fuel, 1int,
{
    match v {
        BoxedValidator::Noop => StateModel::empty(),
        BoxedValidator::DateTime(_) => date_time_result(item, path),
        BoxedValidator::Required(r) => required_result(r.items.deep_view(), item, path),
        BoxedValidator::Ref(r) => ref_result(r.url@, item, path, scope, fuel),
    }
}

/// The fuel a validation run starts with: one unit per scope entry, enough
/// for any acyclic reference chain.
pub open spec fn start_fuel(scope: Scope) -> nat {
    scope.entries@.len() as nat
}

/// Runs `v` against `item` with an explicit fuel bound on reference chains.
pub fn validate_fuel(
    v: &BoxedValidator,
    item: &Value,
    path: &str,
    scope: &Scope,
    fuel: usize,
) -> (r: ValidationState)
    ensures
        r@ == spec_validate(*v, *item, path@, *scope, fuel as nat),
    decreases fuel,
{
    match v {
        BoxedValidator::Noop => ValidationState::new(),
        BoxedValidator::DateTime(d) => d.validate(item, path, scope),
        BoxedValidator::Required(rq) => rq.validate(item, path, scope),
        BoxedValidator::Ref(rf) => {
            match scope.lookup(rf.url.as_str()) {
                Some(t) => {
                    if fuel == 0 {
                        let mut st = ValidationState::new();
                        st.missing.push(rf.url.clone());
                        proof {
                            assert(st@.missing =~= seq![rf.url@]);
                        }
                        st
                    } else {
                        validate_fuel(t, item, path, scope, fuel - 1)
                    }
                },
                None => {
                    let mut st = ValidationState::new();
                    st.missing.push(rf.url.clone());
                    proof {
                        assert(st@.missing =~= seq![rf.url@]);
                    }
                    st
                },
            }
        },
    }
}

impl Validator for BoxedValidator {
    open spec fn spec_result(&self, item: Value, path: Seq<char>, scope: Scope) -> StateModel {
        spec_validate(*self, item, path, scope, start_fuel(scope))
    }

    fn validate(&self, item: &Value, path: &str, scope: &Scope) -> (r: ValidationState) {
        validate_fuel(self, item, path, scope, scope.entries.len())
    }
}

/// The merge-fold of the states of a sequence of validators, in order.
pub open spec fn spec_validate_all(
    vs: Seq<BoxedValidator>,
    item: Value,
    path: Seq<char>,
    scope: Scope,
    fuel: nat,
) -> StateModel
    decreases vs.len(),
{
    if vs.len() == 0 {
        StateModel::empty()
    } else {
        spec_validate_all(vs.drop_last(), item, path, scope, fuel).merge(
            spec_validate(vs.last(), item, path, scope, fuel),
        )
    }
}

/// Runs every validator of a compiled schema against `item` and folds the
/// states with the associative merge; no validator short-circuits another.
pub fn validate_all(vs: &Validators, item: &Value, path: &str, scope: &Scope) -> (r:
    ValidationState)
    ensures
        r@ == spec_validate_all(vs@, *item, path@, *scope, start_fuel(*scope)),
{
    let mut st = ValidationState::new();
    let n = vs.len();
    let mut i: usize = 0;
    proof {
        assert(vs@.subrange(0, 0) =~= Seq::<BoxedValidator>::empty());
    }
    while i < n
        invariant
            i <= n,
            n == vs@.len(),
            st@ == spec_validate_all(
                vs@.subrange(0, i as int),
                *item,
                path@,
                *scope,
                start_fuel(*scope),
            ),
        decreases n - i,
    {
        let v = &vs[i];
        let sub = v.validate(item, path, scope);
        st.append(sub);
        proof {
            assert(vs@.subrange(0, (i + 1) as int).drop_last() =~= vs@.subrange(0, i as int));
            assert(vs@.subrange(0, (i + 1) as int).last() == vs@[i as int]);
        }
        i += 1;
    }
    proof {
        assert(vs@.subrange(0, n as int) =~= vs@);
    }
    st
}

/// The mathematical shape of a compiled validator: its kind together with
/// what it interned, as character sequences.
pub enum ValidatorModel {
    Noop,
    DateTime,
    Required { items: Seq<Seq<char>> },
    Ref { url: Seq<char> },
}

impl DeepView for BoxedValidator {
    type V = ValidatorModel;

    open spec fn deep_view(&self) -> ValidatorModel {
        match self {
            BoxedValidator::Noop => ValidatorModel::Noop,
            BoxedValidator::DateTime(_) => ValidatorModel::DateTime,
            BoxedValidator::Required(r) => ValidatorModel::Required { items: r.items.deep_view() },
            BoxedValidator::Ref(r) => ValidatorModel::Ref { url: r.url@ },
        }
    }
}

/// Law: a validator's result is a function of its model alone: two compiled
/// validators of the same shape validate every input alike.
pub proof fn lemma_validate_by_model(
    v1: BoxedValidator,
    v2: BoxedValidator,
    item: Value,
    path: Seq<char>,
    scope: Scope,
    fuel: nat,
)
    requires
        v1.deep_view() == v2.deep_view(),
    ensures
        spec_validate(v1, item, path, scope, fuel) == spec_validate(v2, item, path, scope, fuel),
{
}

/// Law: the no-op validator accepts every input value in every scope.
pub proof fn lemma_noop_accepts(item: Value, path: Seq<char>, scope: Scope, fuel: nat)
    ensures
        spec_validate(BoxedValidator::Noop, item, path, scope, fuel) == StateModel::empty(),
{
}

/// Law: a validator that is not a reference yields the same state whatever
/// the fuel bound.
pub proof fn lemma_fuel_irrelevant(
    v: BoxedValidator,
    item: Value,
    path: Seq<char>,
    scope: Scope,
    f1: nat,
    f2: nat,
)
    requires
        !(v matches BoxedValidator::Ref(_)),
    ensures
        spec_validate(v, item, path, scope, f1) == spec_validate(v, item, path, scope, f2),
{
}

} // verus!
