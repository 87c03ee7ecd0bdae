//! The reference validator: at compile time only the target identifier is
//! captured; at validate time the runtime scope is consulted. An identifier
//! the scope does not resolve is a deferred outcome, never an error.

use vstd::prelude::*;
use crate::keywords::{Keyword, KeywordResult};
use crate::schema::{joined, SchemaError, SchemaErrorModel, WalkContext};
use crate::scope::{scope_lookup, Scope};
use crate::validators::{
    ref_result, start_fuel, validate_fuel, BoxedValidator, StateModel, ValidationState, Validator,
    ValidatorModel,
};
use crate::value::Value;

verus! {

/// The compiled validator of the `$ref` keyword: the reference identifier it
/// captured at compile time.
#[derive(Debug)]
pub struct Ref {
    pub url: String,
}

impl Validator for Ref {
    open spec fn spec_result(&self, item: Value, path: Seq<char>, scope: Scope) -> StateModel {
        ref_result(self.url@, item, path, scope, start_fuel(scope))
    }

    fn validate(&self, item: &Value, path: &str, scope: &Scope) -> (r: ValidationState) {
        match scope.lookup(self.url.as_str()) {
            Some(t) => {
                proof {
                    if scope.entries@.len() == 0 {
                        assert(scope_lookup(scope.entries@, self.url@) is None);
                    }
                }
                validate_fuel(t, item, path, scope, scope.entries.len() - 1)
            },
            None => {
                let mut st = ValidationState::new();
                st.missing.push(self.url.clone());
                proof {
                    assert(st@.missing =~= seq![self.url@]);
                }
                st
            },
        }
    }
}

/// Law: a reference to an identifier absent from the runtime scope yields no
/// errors and exactly that identifier as its one missing entry.
pub proof fn lemma_ref_unresolved(rf: Ref, item: Value, path: Seq<char>, scope: Scope)
    requires
        scope_lookup(scope.entries@, rf.url@) is None,
    ensures
        rf.spec_result(item, path, scope) == (StateModel {
            errors: Seq::empty(),
            missing: seq![rf.url@],
        }),
{
}

/// Law: a reference resolved in scope to a non-reference target delegates to
/// it and returns the target validator's exact result.
pub proof fn lemma_ref_resolved(
    rf: Ref,
    t: BoxedValidator,
    item: Value,
    path: Seq<char>,
    scope: Scope,
)
    requires
        scope_lookup(scope.entries@, rf.url@) == Some(t),
        !(t matches BoxedValidator::Ref(_)),
    ensures
        rf.spec_result(item, path, scope) == t.spec_result(item, path, scope),
{
    if scope.entries@.len() == 0 {
        assert(scope_lookup(scope.entries@, rf.url@) is None);
    }
    crate::validators::lemma_fuel_irrelevant(
        t,
        item,
        path,
        scope,
        (start_fuel(scope) - 1) as nat,
        start_fuel(scope),
    );
}

/// An absolute reference identifier resolved from `base` and `reference`,
/// when the pair resolves at all.
pub uninterp spec fn resolved_ref(base: Seq<char>, reference: Seq<char>) -> Option<Seq<char>>;

/// Relies on url::Url::parse and url::Url::join: parsing the base URL and
/// resolving the reference against it depend on the two strings alone, and
/// yield one absolute URL string, or nothing when either step fails.
#[verifier::external_body]
fn resolve_against(base: &str, reference: &str) -> (r: Option<String>)
    ensures
        match r {
            Some(u) => resolved_ref(base@, reference@) == Some(u@),
            None => resolved_ref(base@, reference@) is None,
        },
{
    match url::Url::parse(base) {
        Ok(b) => match b.join(reference) {
            Ok(u) => Some(String::from(u)),
            Err(_) => None,
        },
        Err(_) => None,
    }
}

/// The detail of the structural error a non-string `$ref` value raises.
pub open spec fn ref_detail() -> Seq<char> {
    "The value of $ref must be a string"@
}

/// The detail of the structural error an unresolvable `$ref` value raises.
pub open spec fn ref_resolve_detail() -> Seq<char> {
    "The value of $ref is not a valid reference"@
}

/// The `$ref` keyword compiler: captures the reference target identifier —
/// made absolute against the innermost base-URI scope, when one is active —
/// without attempting to resolve the target itself.
#[derive(Debug, Clone, Copy, PartialEq, Eq, Structural)]
pub struct RefKeyword;

impl Keyword for RefKeyword {
    open spec fn spec_compile(&self, def: Value, ctx: WalkContext) -> Result<
        Option<ValidatorModel>,
        SchemaErrorModel,
    > {
        match def.spec_get("$ref"@) {
            None => Ok(None),
            Some(v) => match v {
                Value::Str(s) => if ctx.scopes@.len() == 0 {
                    Ok(Some(ValidatorModel::Ref { url: s@ }))
                } else {
                    match resolved_ref(ctx.scopes@.last()@, s@) {
                        Some(u) => Ok(Some(ValidatorModel::Ref { url: u })),
                        None => Err(
                            SchemaErrorModel::Malformed {
                                path: joined(ctx.fragment.deep_view()),
                                detail: ref_resolve_detail(),
                            },
                        ),
                    }
                },
                _ => Err(
                    SchemaErrorModel::Malformed {
                        path: joined(ctx.fragment.deep_view()),
                        detail: ref_detail(),
                    },
                ),
            },
        }
    }

    fn compile(&self, def: &Value, ctx: &WalkContext) -> (r: KeywordResult) {
        match def.get("$ref") {
            None => Ok(None),
            Some(v) => match v {
                Value::Str(s) => {
                    if ctx.scopes.len() == 0 {
                        Ok(Some(BoxedValidator::Ref(Ref { url: s.clone() })))
                    } else {
                        let base = &ctx.scopes[ctx.scopes.len() - 1];
                        match resolve_against(base.as_str(), s.as_str()) {
                            Some(u) => Ok(Some(BoxedValidator::Ref(Ref { url: u }))),
                            None => Err(
                                SchemaError::Malformed {
                                    path: ctx.joined_fragment(),
                                    detail: "The value of $ref is not a valid reference".to_owned(),
                                },
                            ),
                        }
                    }
                },
                _ => Err(
                    SchemaError::Malformed {
                        path: ctx.joined_fragment(),
                        detail: "The value of $ref must be a string".to_owned(),
                    },
                ),
            },
        }
    }
}

/// Law: a fragment without `$ref` compiles to the absent outcome, never an
/// error.
pub proof fn lemma_ref_absent(k: RefKeyword, def: Value, ctx: WalkContext)
    requires
        def.spec_get("$ref"@) is None,
    ensures
        k.spec_compile(def, ctx) == Ok::<Option<ValidatorModel>, SchemaErrorModel>(None),
{
}

} // verus!
