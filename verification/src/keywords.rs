//! The keyword compiler protocol and the keyword registry: a compiler
//! consumes a whole schema fragment and a walk context and yields no
//! validator (keyword absent), one validator, or a structural error; a
//! registry tries each registered compiler over the same fragment, in
//! order, and folds the produced validators into a compiled schema.

use vstd::prelude::*;
use crate::schema::{SchemaError, SchemaErrorModel, WalkContext};
use crate::validators::{BoxedValidator, ValidatorModel, Validators};
use crate::value::Value;
use crate::format::Format;
use crate::ref_::RefKeyword;
use crate::required::RequiredKeyword;

verus! {

/// What a keyword compiler yields: no validator, one validator, or a
/// structural error.
pub type KeywordResult = Result<Option<BoxedValidator>, SchemaError>;

/// Whether the executable outcome `r` has the model `m`.
pub open spec fn compile_matches(
    r: KeywordResult,
    m: Result<Option<ValidatorModel>, SchemaErrorModel>,
) -> bool {
    match r {
        Ok(None) => m == Ok::<Option<ValidatorModel>, SchemaErrorModel>(None),
        Ok(Some(v)) => m == Ok::<Option<ValidatorModel>, SchemaErrorModel>(Some(v.deep_view())),
        Err(e) => m == Err::<Option<ValidatorModel>, SchemaErrorModel>(e.deep_view()),
    }
}

/// The keyword compiler protocol: one independently compilable unit of
/// schema semantics. The compiler extracts its own keyword from the
/// fragment; a fragment that lacks it is the absent outcome, not an error.
pub trait Keyword {
    /// The compile outcome this compiler yields on a fragment.
    spec fn spec_compile(&self, def: Value, ctx: WalkContext) -> Result<
        Option<ValidatorModel>,
        SchemaErrorModel,
    >;

    /// Compiles this compiler's keyword out of `def`: `Ok(None)` when the
    /// fragment does not carry the keyword, `Ok(Some(..))` when it does and
    /// is well formed, `Err(..)` when it is present with the wrong shape.
    fn compile(&self, def: &Value, ctx: &WalkContext) -> (r: KeywordResult)
        ensures
            compile_matches(r, self.spec_compile(*def, *ctx)),
    ;
}

/// A registered keyword compiler of any of the supported kinds.
pub enum KeywordCompiler {
    Format(Format),
    Required(RequiredKeyword),
    Ref(RefKeyword),
}

impl Keyword for KeywordCompiler {
    open spec fn spec_compile(&self, def: Value, ctx: WalkContext) -> Result<
        Option<ValidatorModel>,
        SchemaErrorModel,
    > {
        match self {
            KeywordCompiler::Format(f) => f.spec_compile(def, ctx),
            KeywordCompiler::Required(k) => k.spec_compile(def, ctx),
            KeywordCompiler::Ref(k) => k.spec_compile(def, ctx),
        }
    }

    fn compile(&self, def: &Value, ctx: &WalkContext) -> (r: KeywordResult) {
        match self {
            KeywordCompiler::Format(f) => f.compile(def, ctx),
            KeywordCompiler::Required(k) => k.compile(def, ctx),
            KeywordCompiler::Ref(k) => k.compile(def, ctx),
        }
    }
}

/// The fold of a registry over one fragment: compilers run in registry
/// order, absent outcomes are skipped, and the first structural error
/// aborts the whole compilation.
pub open spec fn registry_compile(
    entries: Seq<(String, KeywordCompiler)>,
    def: Value,
    ctx: WalkContext,
) -> Result<Seq<ValidatorModel>, SchemaErrorModel>
    decreases entries.len(),
{
    if entries.len() == 0 {
        Ok(Seq::empty())
    } else {
        match registry_compile(entries.drop_last(), def, ctx) {
            Err(e) => Err(e),
            Ok(vs) => match entries.last().1.spec_compile(def, ctx) {
                Err(e) => Err(e),
                Ok(None) => Ok(vs),
                Ok(Some(v)) => Ok(vs.push(v)),
            },
        }
    }
}

/// An error in a prefix of the registry decides the whole fold.
proof fn lemma_registry_extends_err(
    entries: Seq<(String, KeywordCompiler)>,
    def: Value,
    ctx: WalkContext,
    k: int,
)
    requires
        0 <= k <= entries.len(),
        registry_compile(entries.subrange(0, k), def, ctx) is Err,
    ensures
        registry_compile(entries, def, ctx) == registry_compile(entries.subrange(0, k), def, ctx),
    decreases entries.len() - k,
{
    if k == entries.len() {
        assert(entries.subrange(0, k) =~= entries);
    } else {
        assert(entries.subrange(0, k + 1).drop_last() =~= entries.subrange(0, k));
        lemma_registry_extends_err(entries, def, ctx, k + 1);
    }
}

/// The keyword compiler registry: one compiler per keyword name, the name
/// unique, built before compilation and immutable during it.
pub struct KeywordRegistry {
    pub entries: Vec<(String, KeywordCompiler)>,
}

impl KeywordRegistry {
    /// A registry with no compilers.
    pub fn new() -> (r: KeywordRegistry)
        ensures
            r.entries@.len() == 0,
    {
        KeywordRegistry { entries: Vec::new() }
    }

    /// The registry pre-populated with the built-in keyword compilers.
    pub fn standard() -> (r: KeywordRegistry)
        ensures
            r.entries@.len() == 3,
            r.entries@[0].0@ == "format"@,
            r.entries@[0].1 matches KeywordCompiler::Format(f) && crate::format::format_entries(
                f.formats,
            ) == crate::format::default_format_entries(),
            r.entries@[1].0@ == "required"@,
            r.entries@[1].1 == KeywordCompiler::Required(RequiredKeyword),
            r.entries@[2].0@ == "$ref"@,
            r.entries@[2].1 == KeywordCompiler::Ref(RefKeyword),
    {
        let mut entries: Vec<(String, KeywordCompiler)> = Vec::new();
        entries.push(("format".to_owned(), KeywordCompiler::Format(Format::new())));
        entries.push(("required".to_owned(), KeywordCompiler::Required(RequiredKeyword)));
        entries.push(("$ref".to_owned(), KeywordCompiler::Ref(RefKeyword)));
        KeywordRegistry { entries }
    }

    /// Registers `compiler` under `name`: overrides the entry already
    /// registered under that name, or appends a new one.
    pub fn register(&mut self, name: String, compiler: KeywordCompiler)
        ensures
            ({
                let entries = old(self).entries@;
                if exists|j: int| 0 <= j < entries.len() && entries[j].0@ == name@ {
                    exists|j: int|
                        0 <= j < entries.len() && entries[j].0@ == name@
                            && final(self).entries@ == entries.update(j, (name, compiler))
                } else {
                    final(self).entries@ == entries.push((name, compiler))
                }
            }),
    {
        let n = self.entries.len();
        let mut i: usize = 0;
        while i < n
            invariant
                i <= n,
                n == self.entries@.len(),
                self.entries == old(self).entries,
                forall|j: int| 0 <= j < i ==> self.entries@[j].0@ != name@,
            decreases n - i,
        {
            if crate::value::str_eq(self.entries[i].0.as_str(), name.as_str()) {
                self.entries.set(i, (name, compiler));
                return ;
            }
            i += 1;
        }
        self.entries.push((name, compiler));
    }

    /// Compiles one schema fragment with every registered compiler, in
    /// order, folding the produced validators into a compiled schema; the
    /// first structural error aborts.
    pub fn compile(&self, def: &Value, ctx: &WalkContext) -> (r: Result<Validators, SchemaError>)
        ensures
            ({
                let m = registry_compile(self.entries@, *def, *ctx);
                match r {
                    Ok(vs) => m == Ok::<Seq<ValidatorModel>, SchemaErrorModel>(vs.deep_view()),
                    Err(e) => m == Err::<Seq<ValidatorModel>, SchemaErrorModel>(e.deep_view()),
                }
            }),
    {
        let mut out: Vec<BoxedValidator> = Vec::new();
        let n = self.entries.len();
        let mut i: usize = 0;
        proof {
            assert(self.entries@.subrange(0, 0) =~= Seq::<(String, KeywordCompiler)>::empty());
            assert(out.deep_view() =~= Seq::<ValidatorModel>::empty());
        }
        while i < n
            invariant
                i <= n,
                n == self.entries@.len(),
                registry_compile(self.entries@.subrange(0, i as int), *def, *ctx) == Ok::<
                    Seq<ValidatorModel>,
                    SchemaErrorModel,
                >(out.deep_view()),
            decreases n - i,
        {
            let ghost pre = out.deep_view();
            let c = &self.entries[i].1;
            proof {
                assert(self.entries@.subrange(0, (i + 1) as int).drop_last() =~= self.entries@
                    .subrange(0, i as int));
                assert(self.entries@.subrange(0, (i + 1) as int).last() == self.entries@[i as int]);
            }
            match c.compile(def, ctx) {
                Err(e) => {
                    proof {
                        lemma_registry_extends_err(self.entries@, *def, *ctx, i + 1);
                    }
                    return Err(e);
                },
                Ok(Some(v)) => {
                    out.push(v);
                    proof {
                        assert(out.deep_view() =~= pre.push(out@[out@.len() - 1].deep_view()));
                    }
                },
                Ok(None) => {},
            }
            i += 1;
        }
        proof {
            assert(self.entries@.subrange(0, n as int) =~= self.entries@);
        }
        Ok(out)
    }
}

} // verus!
