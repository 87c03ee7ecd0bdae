//! The `required` keyword's validator: every property named in the schema's
//! required list must exist on an object input; each missing property is one
//! error of its own, so that every omission stays diagnosable.

use vstd::prelude::*;
use crate::error::{ErrorModel, ValidationError};
use crate::keywords::{Keyword, KeywordResult};
use crate::schema::{joined, SchemaError, SchemaErrorModel, WalkContext};
use crate::scope::Scope;
use crate::validators::{BoxedValidator, StateModel, ValidationState, Validator, ValidatorModel};
use crate::value::{obj_has_key, Value};

verus! {

/// The entries of an object value; the empty sequence for any other value.
pub open spec fn obj_entries(v: Value) -> Seq<(String, Value)> {
    match v {
        Value::Obj(entries) => entries@,
        _ => Seq::empty(),
    }
}

/// One `Required` error, in list order, for each required name that the
/// object's entries do not bind.
pub open spec fn required_errors(
    names: Seq<Seq<char>>,
    obj: Seq<(String, Value)>,
    path: Seq<char>,
) -> Seq<ErrorModel>
    decreases names.len(),
{
    if names.len() == 0 {
        Seq::empty()
    } else {
        let rest = required_errors(names.drop_last(), obj, path);
        if obj_has_key(obj, names.last()) {
            rest
        } else {
            rest.push(ErrorModel::Required { path: path, property: names.last() })
        }
    }
}

/// Result of the required validator: on an object, the errors of the names
/// it lacks; on any other value, vacuously the empty state.
pub open spec fn required_result(names: Seq<Seq<char>>, item: Value, path: Seq<char>) -> StateModel {
    match item {
        Value::Obj(_) => StateModel {
            errors: required_errors(names, obj_entries(item), path),
            missing: Seq::empty(),
        },
        _ => StateModel::empty(),
    }
}

/// The compiled validator of the `required` keyword: the property names it
/// interned from the schema fragment at compile time.
#[derive(Debug)]
pub struct Required {
    pub items: Vec<String>,
}

impl Validator for Required {
    open spec fn spec_result(&self, item: Value, path: Seq<char>, scope: Scope) -> StateModel {
        required_result(self.items.deep_view(), item, path)
    }

    fn validate(&self, item: &Value, path: &str, scope: &Scope) -> (r: ValidationState) {
        if !item.is_object() {
            return ValidationState::new();
        }
        let mut st = ValidationState::new();
        let n = self.items.len();
        let mut i: usize = 0;
        proof {
            assert(self.items.deep_view().subrange(0, 0) =~= Seq::<Seq<char>>::empty());
        }
        while i < n
            invariant
                i <= n,
                n == self.items@.len(),
                item.spec_is_object(),
                st@.errors == required_errors(
                    self.items.deep_view().subrange(0, i as int),
                    obj_entries(*item),
                    path@,
                ),
                st@.missing == Seq::<Seq<char>>::empty(),
            decreases n - i,
        {
            let ghost pre = st@.errors;
            let ghost names = self.items.deep_view();
            if item.get(self.items[i].as_str()).is_none() {
                st.errors.push(
                    ValidationError::Required {
                        path: path.to_owned(),
                        property: self.items[i].clone(),
                    },
                );
                proof {
                    assert(st@.errors =~= pre.push(
                        ErrorModel::Required { path: path@, property: names[i as int] },
                    ));
                }
            }
            proof {
                assert(names.subrange(0, (i + 1) as int).drop_last() =~= names.subrange(
                    0,
                    i as int,
                ));
                assert(names.subrange(0, (i + 1) as int).last() == names[i as int]);
            }
            i += 1;
        }
        proof {
            assert(self.items.deep_view().subrange(0, n as int) =~= self.items.deep_view());
        }
        st
    }
}

/// The property names of a list of string values, in order.
pub open spec fn required_names(items: Seq<Value>) -> Seq<Seq<char>> {
    Seq::new(
        items.len(),
        |i: int|
            match items[i] {
                Value::Str(s) => s@,
                _ => Seq::empty(),
            },
    )
}

/// Whether every element of a list is a string value.
pub open spec fn all_strings(items: Seq<Value>) -> bool {
    forall|i: int| 0 <= i < items.len() ==> (#[trigger] items[i]) matches Value::Str(_)
}

/// The detail of the structural error a malformed `required` value raises.
pub open spec fn required_detail() -> Seq<char> {
    "The value of required must be an array of strings"@
}

/// The `required` keyword compiler: interns the list of required property
/// names out of the schema fragment.
#[derive(Debug, Clone, Copy, PartialEq, Eq, Structural)]
pub struct RequiredKeyword;

impl Keyword for RequiredKeyword {
    open spec fn spec_compile(&self, def: Value, ctx: WalkContext) -> Result<
        Option<ValidatorModel>,
        SchemaErrorModel,
    > {
        match def.spec_get("required"@) {
            None => Ok(None),
            Some(v) => match v {
                Value::Arr(items) => if all_strings(items@) {
                    Ok(Some(ValidatorModel::Required { items: required_names(items@) }))
                } else {
                    Err(
                        SchemaErrorModel::Malformed {
                            path: joined(ctx.fragment.deep_view()),
                            detail: required_detail(),
                        },
                    )
                },
                _ => Err(
                    SchemaErrorModel::Malformed {
                        path: joined(ctx.fragment.deep_view()),
                        detail: required_detail(),
                    },
                ),
            },
        }
    }

    fn compile(&self, def: &Value, ctx: &WalkContext) -> (r: KeywordResult) {
        match def.get("required") {
            None => Ok(None),
            Some(v) => match v {
                Value::Arr(items) => {
                    let mut names: Vec<String> = Vec::new();
                    let n = items.len();
                    let mut i: usize = 0;
                    proof {
                        assert(names.deep_view() =~= required_names(items@.subrange(0, 0)));
                    }
                    while i < n
                        invariant
                            i <= n,
                            n == items@.len(),
                            def.spec_get("required"@) == Some(*v),
                            *v == Value::Arr(*items),
                            forall|j: int|
                                0 <= j < i ==> (#[trigger] items@[j]) matches Value::Str(_),
                            names.deep_view() == required_names(items@.subrange(0, i as int)),
                        decreases n - i,
                    {
                        let ghost pre = names.deep_view();
                        let element = &items[i];
                        match element.as_str() {
                            Some(s) => {
                                names.push(s.to_owned());
                                proof {
                                    assert(items@[i as int] matches Value::Str(s0) && s0@ == s@);
                                    assert(names.deep_view() =~= pre.push(s@));
                                    assert forall|k: int| 0 <= k < i + 1 implies pre.push(s@)[k]
                                        == required_names(items@.subrange(0, (i + 1) as int))[k] by {
                                        if k < i {
                                            assert(pre[k] == required_names(
                                                items@.subrange(0, i as int),
                                            )[k]);
                                        }
                                    }
                                    assert(pre.push(s@) =~= required_names(
                                        items@.subrange(0, (i + 1) as int),
                                    ));
                                    assert(names.deep_view() =~= required_names(
                                        items@.subrange(0, (i + 1) as int),
                                    ));
                                }
                            },
                            None => {
                                proof {
                                    assert(!(items@[i as int] matches Value::Str(_)));
                                    assert(!all_strings(items@));
                                }
                                return Err(
                                    SchemaError::Malformed {
                                        path: ctx.joined_fragment(),
                                        detail: "The value of required must be an array of strings".to_owned(),
                                    },
                                );
                            },
                        }
                        i += 1;
                    }
                    proof {
                        assert(items@.subrange(0, n as int) =~= items@);
                        assert(all_strings(items@));
                    }
                    Ok(Some(BoxedValidator::Required(Required { items: names })))
                },
                _ => Err(
                    SchemaError::Malformed {
                        path: ctx.joined_fragment(),
                        detail: "The value of required must be an array of strings".to_owned(),
                    },
                ),
            },
        }
    }
}

/// Law: a fragment without `required` compiles to the absent outcome,
/// never an error.
pub proof fn lemma_required_absent(k: RequiredKeyword, def: Value, ctx: WalkContext)
    requires
        def.spec_get("required"@) is None,
    ensures
        k.spec_compile(def, ctx) == Ok::<Option<ValidatorModel>, SchemaErrorModel>(None),
{
}

} // verus!
