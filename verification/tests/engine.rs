use simdjson_schema::error::ValidationError;
use simdjson_schema::format::{Format, FormatCompiler};
use simdjson_schema::formats::DateTime;
use simdjson_schema::keywords::{Keyword, KeywordRegistry};
use simdjson_schema::ref_::{Ref, RefKeyword};
use simdjson_schema::required::{Required, RequiredKeyword};
use simdjson_schema::schema::{Draft, SchemaError, WalkContext};
use simdjson_schema::scope::Scope;
use simdjson_schema::validators::{validate_all, BoxedValidator, ValidationState, Validator};
use simdjson_schema::value::Value;
use simdjson_schema::Outcome;

fn obj(entries: Vec<(&str, Value)>) -> Value {
    Value::Obj(entries.into_iter().map(|(k, v)| (k.to_string(), v)).collect())
}

fn s(text: &str) -> Value {
    Value::Str(text.to_string())
}

fn ctx() -> WalkContext {
    WalkContext::new(Draft::Draft7)
}

#[test]
fn absent_keyword_compiles_to_absence() {
    let fragment = obj(vec![("minimum", Value::Num(3))]);
    let c = ctx();
    assert!(matches!(Format::new().compile(&fragment, &c), Ok(None)));
    assert!(matches!(RequiredKeyword.compile(&fragment, &c), Ok(None)));
    assert!(matches!(RefKeyword.compile(&fragment, &c), Ok(None)));
}

#[test]
fn non_string_format_is_malformed_in_every_draft() {
    let fragment = obj(vec![("format", Value::Num(12))]);
    for draft in [Draft::Draft4, Draft::Draft6, Draft::Draft7] {
        let c = WalkContext::new(draft);
        match Format::new().compile(&fragment, &c) {
            Err(SchemaError::Malformed { path, detail }) => {
                assert_eq!(path, "");
                assert_eq!(detail, "The value of format must be a string");
            }
            other => panic!("expected a malformed error, got {:?}", other.is_ok()),
        }
    }
}

#[test]
fn malformed_error_carries_the_walk_path() {
    let fragment = obj(vec![("format", Value::Bool(true))]);
    let mut c = ctx();
    c.push_fragment("properties".to_string());
    c.push_fragment("when".to_string());
    match Format::new().compile(&fragment, &c) {
        Err(SchemaError::Malformed { path, .. }) => assert_eq!(path, "properties/when"),
        _ => panic!("expected a malformed error"),
    }
}

#[test]
fn registered_discriminator_delegates_to_its_sub_validator() {
    let fragment = obj(vec![("format", s("date-time"))]);
    let c = ctx();
    let compiled = match Format::new().compile(&fragment, &c) {
        Ok(Some(v)) => v,
        _ => panic!("expected a validator"),
    };
    let scope = Scope::new();
    let direct = DateTime;
    for input in [s("2020-01-01T00:00:00Z"), s("not-a-date"), Value::Num(7)] {
        let through_keyword = compiled.validate(&input, "", &scope);
        let through_sub = direct.validate(&input, "", &scope);
        assert_eq!(through_keyword.errors, through_sub.errors);
        assert_eq!(through_keyword.missing, through_sub.missing);
    }
}

#[test]
fn unknown_discriminator_is_a_permissive_noop() {
    let fragment = obj(vec![("format", s("telephone-booth"))]);
    let c = ctx();
    assert!(matches!(Format::new().compile(&fragment, &c), Ok(None)));
    let registry = KeywordRegistry::standard();
    let validators = registry.compile(&fragment, &c).expect("compilation succeeds");
    let scope = Scope::new();
    for input in [s("anything"), Value::Null, obj(vec![])] {
        let state = validate_all(&validators, &input, "", &scope);
        assert!(state.errors.is_empty());
        assert!(state.missing.is_empty());
        assert_eq!(state.outcome(), Outcome::Valid);
    }
}

#[test]
fn format_with_adds_discriminators_on_top_of_the_defaults() {
    let format = Format::with(|mut m| {
        simdjson_schema::format::formats_insert(
            &mut m,
            "anything-goes".to_string(),
            FormatCompiler::AlwaysValid,
        );
        m
    });
    let c = ctx();
    let fragment = obj(vec![("format", s("anything-goes"))]);
    let compiled = match format.compile(&fragment, &c) {
        Ok(Some(v)) => v,
        _ => panic!("expected a validator"),
    };
    let scope = Scope::new();
    let state = compiled.validate(&s("certainly-not-a-date"), "", &scope);
    assert!(state.errors.is_empty());
    // The defaults stay registered.
    let fragment = obj(vec![("format", s("date-time"))]);
    assert!(matches!(format.compile(&fragment, &c), Ok(Some(_))));
}

fn one_error_state(path: &str, property: &str) -> ValidationState {
    ValidationState {
        errors: vec![ValidationError::Required {
            path: path.to_string(),
            property: property.to_string(),
        }],
        missing: vec![],
    }
}

fn merged(mut a: ValidationState, b: ValidationState) -> ValidationState {
    a.append(b);
    a
}

#[test]
fn merge_is_associative_with_the_empty_state_as_identity() {
    let make_a = || one_error_state("a", "x");
    let make_b = || ValidationState {
        errors: vec![],
        missing: vec!["urn:left".to_string()],
    };
    let make_c = || one_error_state("c", "z");
    let left = merged(merged(make_a(), make_b()), make_c());
    let right = merged(make_a(), merged(make_b(), make_c()));
    assert_eq!(left.errors, right.errors);
    assert_eq!(left.missing, right.missing);
    let with_identity = merged(make_a(), ValidationState::new());
    assert_eq!(with_identity.errors, make_a().errors);
    assert_eq!(with_identity.missing, make_a().missing);
    let identity_first = merged(ValidationState::new(), make_a());
    assert_eq!(identity_first.errors, make_a().errors);
    assert_eq!(identity_first.missing, make_a().missing);
}

#[test]
fn required_reports_one_error_per_missing_property() {
    let validator = Required {
        items: vec!["a".to_string(), "b".to_string()],
    };
    let scope = Scope::new();
    let input = obj(vec![("a", Value::Num(1))]);
    let state = validator.validate(&input, "item", &scope);
    assert_eq!(state.errors.len(), 1);
    match &state.errors[0] {
        ValidationError::Required { path, property } => {
            assert_eq!(path, "item");
            assert_eq!(property, "b");
        }
        other => panic!("unexpected error {:?}", other),
    }
    assert!(state.missing.is_empty());
    let state = validator.validate(&Value::Num(3), "item", &scope);
    assert!(state.errors.is_empty());
}

#[test]
fn required_compiles_the_name_list_and_rejects_other_shapes() {
    let c = ctx();
    let fragment = obj(vec![("required", Value::Arr(vec![s("a"), s("b")]))]);
    match RequiredKeyword.compile(&fragment, &c) {
        Ok(Some(BoxedValidator::Required(r))) => {
            assert_eq!(r.items, vec!["a".to_string(), "b".to_string()]);
        }
        _ => panic!("expected a required validator"),
    }
    for bad in [
        obj(vec![("required", Value::Arr(vec![s("a"), Value::Num(5)]))]),
        obj(vec![("required", s("a"))]),
    ] {
        match RequiredKeyword.compile(&bad, &c) {
            Err(SchemaError::Malformed { detail, .. }) => {
                assert_eq!(detail, "The value of required must be an array of strings");
            }
            _ => panic!("expected a malformed error"),
        }
    }
}

#[test]
fn unresolved_reference_defers_instead_of_failing() {
    let validator = Ref {
        url: "urn:elsewhere".to_string(),
    };
    let scope = Scope::new();
    let state = validator.validate(&s("anything"), "", &scope);
    assert!(state.errors.is_empty());
    assert_eq!(state.missing, vec!["urn:elsewhere".to_string()]);
    assert_eq!(state.outcome(), Outcome::Incomplete);
}

#[test]
fn resolved_reference_returns_the_target_result() {
    let validator = Ref {
        url: "urn:date".to_string(),
    };
    let mut scope = Scope::new();
    scope.add("urn:date".to_string(), BoxedValidator::DateTime(DateTime));
    let target = DateTime;
    for input in [s("2020-01-01T00:00:00Z"), s("nope"), Value::Null] {
        let through_ref = validator.validate(&input, "p", &scope);
        let direct = target.validate(&input, "p", &scope);
        assert_eq!(through_ref.errors, direct.errors);
        assert_eq!(through_ref.missing, direct.missing);
    }
}

#[test]
fn reference_compilation_resolves_against_the_innermost_scope() {
    let c = ctx();
    let fragment = obj(vec![("$ref", s("other.json"))]);
    match RefKeyword.compile(&fragment, &c) {
        Ok(Some(BoxedValidator::Ref(r))) => assert_eq!(r.url, "other.json"),
        _ => panic!("expected a reference validator"),
    }
    let mut scoped = ctx();
    scoped.push_scope("http://example.com/dir/base.json".to_string());
    match RefKeyword.compile(&fragment, &scoped) {
        Ok(Some(BoxedValidator::Ref(r))) => {
            assert_eq!(r.url, "http://example.com/dir/other.json");
        }
        _ => panic!("expected a reference validator"),
    }
    let mut bad_base = ctx();
    bad_base.push_scope("not a url at all".to_string());
    match RefKeyword.compile(&fragment, &bad_base) {
        Err(SchemaError::Malformed { detail, .. }) => {
            assert_eq!(detail, "The value of $ref is not a valid reference");
        }
        _ => panic!("expected a malformed error"),
    }
    let non_string = obj(vec![("$ref", Value::Num(1))]);
    match RefKeyword.compile(&non_string, &c) {
        Err(SchemaError::Malformed { detail, .. }) => {
            assert_eq!(detail, "The value of $ref must be a string");
        }
        _ => panic!("expected a malformed error"),
    }
}

#[test]
fn date_time_scenario() {
    let c = ctx();
    let fragment = obj(vec![("format", s("date-time"))]);
    let registry = KeywordRegistry::standard();
    let validators = registry.compile(&fragment, &c).expect("compilation succeeds");
    let scope = Scope::new();
    let good = validate_all(&validators, &s("2020-01-01T00:00:00Z"), "", &scope);
    assert!(good.errors.is_empty());
    assert!(good.missing.is_empty());
    assert_eq!(good.outcome(), Outcome::Valid);
    let bad = validate_all(&validators, &s("not-a-date"), "", &scope);
    assert_eq!(bad.errors.len(), 1);
    match &bad.errors[0] {
        ValidationError::Format { detail, .. } => {
            assert_eq!(detail, "Malformed date-time string");
        }
        other => panic!("unexpected error {:?}", other),
    }
    assert_eq!(bad.outcome(), Outcome::Invalid);
}

#[test]
fn date_time_grammar_edges() {
    let scope = Scope::new();
    let check = |text: &str| DateTime.validate(&s(text), "", &scope).errors.is_empty();
    assert!(check("2020-01-01T00:00:00Z"));
    assert!(check("1999-12-31T23:59:59+01:30"));
    assert!(check("2020-06-15T10:20:30.123456Z"));
    assert!(check("2020-06-15T10:20:30.5-08:00"));
    assert!(!check("2020-13-01T00:00:00Z"));
    assert!(!check("2020-00-01T00:00:00Z"));
    assert!(!check("2020-01-32T00:00:00Z"));
    assert!(!check("2020-01-01T24:00:00Z"));
    assert!(!check("2020-01-01T00:60:00Z"));
    assert!(!check("2020-01-01T00:00:00"));
    assert!(!check("2020-01-01t00:00:00z"));
    assert!(!check("2020-01-01T00:00:00.Z"));
    assert!(!check("2020-01-01T00:00:00+25:00"));
    assert!(!check("2020-01-01 00:00:00Z"));
    assert!(!check(""));
}

#[test]
fn registry_register_overrides_and_extends() {
    let mut registry = KeywordRegistry::new();
    registry.register(
        "format".to_string(),
        simdjson_schema::keywords::KeywordCompiler::Format(Format::new()),
    );
    registry.register(
        "required".to_string(),
        simdjson_schema::keywords::KeywordCompiler::Required(RequiredKeyword),
    );
    assert_eq!(registry.entries.len(), 2);
    registry.register(
        "format".to_string(),
        simdjson_schema::keywords::KeywordCompiler::Format(Format::new()),
    );
    assert_eq!(registry.entries.len(), 2);
    assert_eq!(registry.entries[0].0, "format");
}

#[test]
fn registry_compiles_several_keywords_and_aborts_on_the_first_error() {
    let c = ctx();
    let registry = KeywordRegistry::standard();
    let fragment = obj(vec![
        ("format", s("date-time")),
        ("required", Value::Arr(vec![s("when")])),
    ]);
    let validators = registry.compile(&fragment, &c).expect("compilation succeeds");
    assert_eq!(validators.len(), 2);
    let scope = Scope::new();
    let input = obj(vec![("other", Value::Num(1))]);
    let state = validate_all(&validators, &input, "", &scope);
    assert_eq!(state.errors.len(), 1);
    let malformed = obj(vec![("format", Value::Num(1)), ("required", s("x"))]);
    match registry.compile(&malformed, &c) {
        Err(SchemaError::Malformed { detail, .. }) => {
            assert_eq!(detail, "The value of format must be a string");
        }
        _ => panic!("expected the first structural error"),
    }
}

#[test]
fn outcome_distinguishes_invalid_incomplete_and_valid() {
    assert_eq!(ValidationState::new().outcome(), Outcome::Valid);
    let incomplete = ValidationState {
        errors: vec![],
        missing: vec!["urn:x".to_string()],
    };
    assert_eq!(incomplete.outcome(), Outcome::Incomplete);
    assert!(incomplete.is_valid());
    let invalid = merged(one_error_state("", "k"), incomplete);
    assert_eq!(invalid.outcome(), Outcome::Invalid);
    assert!(!invalid.is_valid());
}

#[test]
fn error_accessors_expose_path_and_description() {
    let e = ValidationError::Format {
        path: "a/b".to_string(),
        detail: "Malformed date-time string".to_string(),
    };
    assert_eq!(e.path(), "a/b");
    assert_eq!(e.describe(), "Malformed date-time string");
    let e = ValidationError::Required {
        path: "p".to_string(),
        property: "name".to_string(),
    };
    assert_eq!(e.path(), "p");
    assert_eq!(e.describe(), "name");
}

#[test]
fn walk_context_tracks_fragments_and_scopes_as_a_stack() {
    let mut c = ctx();
    c.push_fragment("properties".to_string());
    c.push_fragment("x".to_string());
    assert_eq!(c.joined_fragment(), "properties/x");
    c.pop_fragment();
    assert_eq!(c.joined_fragment(), "properties");
    c.push_scope("http://example.com/".to_string());
    c.pop_scope();
    assert_eq!(c.scopes.len(), 0);
}
