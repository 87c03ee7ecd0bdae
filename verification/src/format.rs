//! The `format` keyword compiler: delegates to a sub-compiler registered
//! under the format discriminator string. Unknown discriminators are
//! permissive no-ops by design; a non-string `format` value is a hard
//! structural error.

use vstd::prelude::*;
use hashbrown::HashMap;
use crate::formats::DateTime;
use crate::keywords::{Keyword, KeywordResult};
use crate::schema::{joined, SchemaError, SchemaErrorModel, WalkContext};
use crate::validators::{BoxedValidator, ValidatorModel};
use crate::value::Value;

verus! {

/// A format sub-compiler: what a discriminator is registered to.
#[derive(Debug, Clone, Copy, PartialEq, Eq, Structural)]
pub enum FormatCompiler {
    /// Compiles to the date-time validator.
    DateTime,
    /// Compiles to the validator that accepts every input value.
    AlwaysValid,
}

/// The validator a format sub-compiler compiles to.
pub open spec fn entry_validator(e: FormatCompiler) -> ValidatorModel {
    match e {
        FormatCompiler::DateTime => ValidatorModel::DateTime,
        FormatCompiler::AlwaysValid => ValidatorModel::Noop,
    }
}

impl Keyword for FormatCompiler {
    /// A sub-compiler always yields its validator: the enclosing format
    /// compiler has already checked presence and shape.
    open spec fn spec_compile(&self, def: Value, ctx: WalkContext) -> Result<
        Option<ValidatorModel>,
        SchemaErrorModel,
    > {
        Ok(Some(entry_validator(*self)))
    }

    fn compile(&self, def: &Value, ctx: &WalkContext) -> (r: KeywordResult) {
        match self {
            FormatCompiler::DateTime => Ok(Some(BoxedValidator::DateTime(DateTime))),
            FormatCompiler::AlwaysValid => Ok(Some(BoxedValidator::Noop)),
        }
    }
}

/// The format registry: discriminator strings mapped to sub-compilers.
/// Holds the hash map of an outside crate; the library reads and writes it
/// only through the contracted functions below.
#[verifier::external_body]
pub struct FormatBuilders {
    map: HashMap<String, FormatCompiler>,
}

/// The discriminator-to-sub-compiler mapping a format registry holds.
pub uninterp spec fn format_entries(m: FormatBuilders) -> Map<Seq<char>, FormatCompiler>;

/// The mapping of a format registry that holds no entry.
pub open spec fn no_format_entries() -> Map<Seq<char>, FormatCompiler> {
    Map::empty()
}

/// Relies on hashbrown::HashMap::new: the fresh map holds no entry.
#[verifier::external_body]
pub fn formats_new() -> (r: FormatBuilders)
    ensures
        format_entries(r) == no_format_entries(),
{
    FormatBuilders { map: HashMap::new() }
}

/// Relies on hashbrown::HashMap::insert: binds `k` to `v`, replacing any
/// earlier binding of `k` and leaving other bindings as they were.
#[verifier::external_body]
pub fn formats_insert(m: &mut FormatBuilders, k: String, v: FormatCompiler)
    ensures
        format_entries(*final(m)) == format_entries(*old(m)).insert(k@, v),
{
    m.map.insert(k, v);
}

/// Relies on hashbrown::HashMap::get: yields the value bound to `k`, if any.
#[verifier::external_body]
pub fn formats_get(m: &FormatBuilders, k: &str) -> (r: Option<FormatCompiler>)
    ensures
        r == if format_entries(*m).dom().contains(k@) {
            Some(format_entries(*m)[k@])
        } else {
            None::<FormatCompiler>
        },
{
    m.map.get(k).copied()
}

/// The entries every format registry starts from: the built-in
/// discriminators.
pub open spec fn default_format_entries() -> Map<Seq<char>, FormatCompiler> {
    Map::empty().insert("date-time"@, FormatCompiler::DateTime)
}

/// The format registry pre-populated with the built-in discriminators.
fn default_formats() -> (r: FormatBuilders)
    ensures
        format_entries(r) == default_format_entries(),
{
    let mut r = formats_new();
    formats_insert(&mut r, "date-time".to_owned(), FormatCompiler::DateTime);
    proof {
        assert(format_entries(r) =~= default_format_entries());
    }
    r
}

/// The detail of the structural error a non-string `format` value raises.
pub open spec fn format_detail() -> Seq<char> {
    "The value of format must be a string"@
}

/// The `format` keyword compiler, with its registry of sub-compilers.
pub struct Format {
    pub formats: FormatBuilders,
}

impl Format {
    /// A format compiler with the built-in discriminators.
    pub fn new() -> (r: Format)
        ensures
            format_entries(r.formats) == default_format_entries(),
    {
        Format { formats: default_formats() }
    }

    /// A format compiler derived from the defaults by a caller-supplied
    /// registration pass, which may add or override discriminator entries
    /// on top of them.
    pub fn with<F: FnOnce(FormatBuilders) -> FormatBuilders>(build_formats: F) -> (r: Format)
        requires
            forall|m: FormatBuilders|
                format_entries(m) == default_format_entries() ==> #[trigger] call_requires(
                    build_formats,
                    (m,),
                ),
        ensures
            exists|m: FormatBuilders|
                format_entries(m) == default_format_entries() && #[trigger] call_ensures(
                    build_formats,
                    (m,),
                    r.formats,
                ),
    {
        let formats = default_formats();
        let ghost start = formats;
        let formats = build_formats(formats);
        let r = Format { formats };
        proof {
            assert(format_entries(start) == default_format_entries() && call_ensures(
                build_formats,
                (start,),
                r.formats,
            ));
        }
        r
    }
}

impl Keyword for Format {
    open spec fn spec_compile(&self, def: Value, ctx: WalkContext) -> Result<
        Option<ValidatorModel>,
        SchemaErrorModel,
    > {
        match def.spec_get("format"@) {
            None => Ok(None),
            Some(v) => match v {
                Value::Str(s) => if format_entries(self.formats).dom().contains(s@) {
                    Ok(Some(entry_validator(format_entries(self.formats)[s@])))
                } else {
                    Ok(None)
                },
                _ => Err(
                    SchemaErrorModel::Malformed {
                        path: joined(ctx.fragment.deep_view()),
                        detail: format_detail(),
                    },
                ),
            },
        }
    }

    fn compile(&self, def: &Value, ctx: &WalkContext) -> (r: KeywordResult) {
        match def.get("format") {
            None => Ok(None),
            Some(v) => match v.as_str() {
                Some(s) => match formats_get(&self.formats, s) {
                    Some(entry) => entry.compile(def, ctx),
                    None => Ok(None),
                },
                None => Err(
                    SchemaError::Malformed {
                        path: ctx.joined_fragment(),
                        detail: "The value of format must be a string".to_owned(),
                    },
                ),
            },
        }
    }
}

/// Law: a fragment without `format` compiles to the absent outcome, never
/// an error.
pub proof fn lemma_format_absent(f: Format, def: Value, ctx: WalkContext)
    requires
        def.spec_get("format"@) is None,
    ensures
        f.spec_compile(def, ctx) == Ok::<Option<ValidatorModel>, SchemaErrorModel>(None),
{
}

/// Law: a present but non-string `format` value is malformed, its detail
/// the string-type requirement — and the outcome does not depend on the
/// draft/version configuration.
pub proof fn lemma_format_non_string(f: Format, def: Value, ctx: WalkContext, c2: WalkContext)
    requires
        def.spec_get("format"@) matches Some(v) && !(v matches Value::Str(_)),
        c2.fragment == ctx.fragment,
    ensures
        f.spec_compile(def, ctx) == Err::<Option<ValidatorModel>, SchemaErrorModel>(
            (SchemaErrorModel::Malformed {
                path: joined(ctx.fragment.deep_view()),
                detail: format_detail(),
            }),
        ),
        f.spec_compile(def, c2) == f.spec_compile(def, ctx),
{
}

/// Law: a registered discriminator delegates compilation to its
/// sub-compiler: the format keyword's outcome is the sub-compiler's.
pub proof fn lemma_format_delegates(
    f: Format,
    def: Value,
    ctx: WalkContext,
    d: Seq<char>,
    e: FormatCompiler,
)
    requires
        def.spec_get("format"@) matches Some(Value::Str(s)) && s@ == d,
        format_entries(f.formats).dom().contains(d),
        format_entries(f.formats)[d] == e,
    ensures
        f.spec_compile(def, ctx) == e.spec_compile(def, ctx),
{
}

/// Law: for a registered discriminator, compiling `{"format": d}` and
/// validating with the outcome is the same as compiling and validating
/// directly with the sub-compiler registered under `d`: any validator of
/// the shape the format keyword compiled and any of the shape the
/// sub-compiler yields validate every input alike.
pub proof fn lemma_format_delegation_validates_alike(
    f: Format,
    def: Value,
    ctx: WalkContext,
    d: Seq<char>,
    e: FormatCompiler,
    v1: BoxedValidator,
    v2: BoxedValidator,
    item: Value,
    path: Seq<char>,
    scope: crate::scope::Scope,
    fuel: nat,
)
    requires
        def.spec_get("format"@) matches Some(Value::Str(s)) && s@ == d,
        format_entries(f.formats).dom().contains(d),
        format_entries(f.formats)[d] == e,
        f.spec_compile(def, ctx) == Ok::<Option<ValidatorModel>, SchemaErrorModel>(
            Some(v1.deep_view()),
        ),
        e.spec_compile(def, ctx) == Ok::<Option<ValidatorModel>, SchemaErrorModel>(
            Some(v2.deep_view()),
        ),
    ensures
        crate::validators::spec_validate(v1, item, path, scope, fuel)
            == crate::validators::spec_validate(v2, item, path, scope, fuel),
{
    lemma_format_delegates(f, def, ctx, d, e);
    crate::validators::lemma_validate_by_model(v1, v2, item, path, scope, fuel);
}

/// Law: an unknown discriminator compiles to the absent outcome — the
/// permissive no-op — never an error.
pub proof fn lemma_format_unknown(f: Format, def: Value, ctx: WalkContext, d: Seq<char>)
    requires
        def.spec_get("format"@) matches Some(Value::Str(s)) && s@ == d,
        !format_entries(f.formats).dom().contains(d),
    ensures
        f.spec_compile(def, ctx) == Ok::<Option<ValidatorModel>, SchemaErrorModel>(None),
{
}

} // verus!
