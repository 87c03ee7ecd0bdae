//! Compile-time walk state: the path from the document root to the node
//! being compiled, the stack of base-URI scopes, and the draft marker; and
//! the structural error a malformed schema fragment raises.

use vstd::prelude::*;

verus! {

/// The schema draft/version a compilation is configured for.
#[derive(Debug, Clone, Copy, PartialEq, Eq, Structural)]
pub enum Draft {
    Draft4,
    Draft6,
    Draft7,
}

/// The mathematical shape of a structural compile error.
pub enum SchemaErrorModel {
    Malformed { path: Seq<char>, detail: Seq<char> },
}

/// A structural error: a schema fragment violated the shape a keyword
/// demands. Fatal to the enclosing compilation.
#[derive(Debug, PartialEq)]
pub enum SchemaError {
    Malformed { path: String, detail: String },
}

impl DeepView for SchemaError {
    type V = SchemaErrorModel;

    open spec fn deep_view(&self) -> SchemaErrorModel {
        match self {
            SchemaError::Malformed { path, detail } => SchemaErrorModel::Malformed {
                path: path@,
                detail: detail@,
            },
        }
    }
}

/// `segs` joined with `/` between consecutive segments.
pub open spec fn joined(segs: Seq<Seq<char>>) -> Seq<char>
    decreases segs.len(),
{
    if segs.len() == 0 {
        Seq::empty()
    } else if segs.len() == 1 {
        segs.last()
    } else {
        joined(segs.drop_last()) + seq!['/'] + segs.last()
    }
}

/// Compile-time-only state, threaded through the recursive descent: the
/// path segments from the document root to the current node, the stack of
/// base-URI scopes for reference resolution, and the draft marker. Callers
/// push on descent and pop on return, so sibling compilations never observe
/// each other's extensions.
#[derive(Debug)]
pub struct WalkContext {
    pub fragment: Vec<String>,
    pub scopes: Vec<String>,
    pub version: Draft,
}

impl WalkContext {
    /// The context a top-level compile call starts from: empty path, empty
    /// scope stack.
    pub fn new(version: Draft) -> (r: WalkContext)
        ensures
            r.fragment@.len() == 0,
            r.scopes@.len() == 0,
            r.version == version,
    {
        WalkContext { fragment: Vec::new(), scopes: Vec::new(), version }
    }

    /// Descends into a child node named `seg`.
    pub fn push_fragment(&mut self, seg: String)
        ensures
            final(self).fragment@ == old(self).fragment@.push(seg),
            final(self).scopes == old(self).scopes,
            final(self).version == old(self).version,
    {
        self.fragment.push(seg);
    }

    /// Returns from a child node.
    pub fn pop_fragment(&mut self)
        requires
            old(self).fragment@.len() > 0,
        ensures
            final(self).fragment@ == old(self).fragment@.drop_last(),
            final(self).scopes == old(self).scopes,
            final(self).version == old(self).version,
    {
        self.fragment.pop();
    }

    /// Enters a new base-URI scope.
    pub fn push_scope(&mut self, base: String)
        ensures
            final(self).scopes@ == old(self).scopes@.push(base),
            final(self).fragment == old(self).fragment,
            final(self).version == old(self).version,
    {
        self.scopes.push(base);
    }

    /// Leaves the innermost base-URI scope.
    pub fn pop_scope(&mut self)
        requires
            old(self).scopes@.len() > 0,
        ensures
            final(self).scopes@ == old(self).scopes@.drop_last(),
            final(self).fragment == old(self).fragment,
            final(self).version == old(self).version,
    {
        self.scopes.pop();
    }

    /// The current path as a slash-joined pointer string, used to locate
    /// structural errors.
    pub fn joined_fragment(&self) -> (r: String)
        ensures
            r@ == joined(self.fragment.deep_view()),
    {
        let mut out = String::new();
        let n = self.fragment.len();
        let mut i: usize = 0;
        proof {
            assert(self.fragment.deep_view().subrange(0, 0) =~= Seq::<Seq<char>>::empty());
        }
        while i < n
            invariant
                i <= n,
                n == self.fragment@.len(),
                out@ == joined(self.fragment.deep_view().subrange(0, i as int)),
            decreases n - i,
        {
            if i > 0 {
                out.append("/");
            }
            out.append(self.fragment[i].as_str());
            proof {
                let segs = self.fragment.deep_view();
                assert(segs.subrange(0, (i + 1) as int).drop_last() =~= segs.subrange(0, i as int));
                assert(segs.subrange(0, (i + 1) as int).last() == segs[i as int]);
                reveal_strlit("/");
                assert("/"@ =~= seq!['/']);
                if i == 0 {
                    assert(out@ =~= segs[0]);
                }
            }
            i += 1;
        }
        proof {
            assert(self.fragment.deep_view().subrange(0, n as int) =~= self.fragment.deep_view());
        }
        out
    }
}

} // verus!
