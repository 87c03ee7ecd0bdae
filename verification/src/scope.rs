//! The runtime scope: the registry of resolved schemas, keyed by identifier,
//! that reference validators consult at validate time. It is built before a
//! validation run and read-only during it.

use vstd::prelude::*;
use crate::validators::BoxedValidator;
use crate::value::str_eq;

verus! {

/// The validator bound to `id`, if any; the first binding wins.
pub open spec fn scope_lookup(
    entries: Seq<(String, BoxedValidator)>,
    id: Seq<char>,
) -> Option<BoxedValidator>
    decreases entries.len(),
{
    if entries.len() == 0 {
        None
    } else if entries[0].0@ == id {
        Some(entries[0].1)
    } else {
        scope_lookup(entries.drop_first(), id)
    }
}

/// The resolution context of a validation run: identifiers bound to the
/// validators compiled for the schema documents they denote.
#[derive(Debug)]
pub struct Scope {
    pub entries: Vec<(String, BoxedValidator)>,
}

impl Scope {
    /// A scope that resolves nothing.
    pub fn new() -> (r: Scope)
        ensures
            r.entries@.len() == 0,
    {
        Scope { entries: Vec::new() }
    }

    /// Binds `id` to `v`. An identifier already bound keeps its earlier
    /// binding: lookups take the first match.
    pub fn add(&mut self, id: String, v: BoxedValidator)
        ensures
            final(self).entries@ == old(self).entries@.push((id, v)),
    {
        self.entries.push((id, v));
    }

    /// Resolves `id` to the validator bound to it, if any.
    pub fn lookup<'a>(&'a self, id: &str) -> (r: Option<&'a BoxedValidator>)
        ensures
            match r {
                Some(v) => scope_lookup(self.entries@, id@) == Some(*v),
                None => scope_lookup(self.entries@, id@) is None,
            },
    {
        let n = self.entries.len();
        let mut i: usize = 0;
        proof {
            assert(self.entries@.subrange(0, n as int) =~= self.entries@);
        }
        while i < n
            invariant
                i <= n,
                n == self.entries@.len(),
                scope_lookup(self.entries@, id@) == scope_lookup(
                    self.entries@.subrange(i as int, n as int),
                    id@,
                ),
            decreases n - i,
        {
            proof {
                assert(self.entries@.subrange(i as int, n as int)[0] == self.entries@[i as int]);
            }
            if str_eq(self.entries[i].0.as_str(), id) {
                proof {
                    assert(scope_lookup(self.entries@.subrange(i as int, n as int), id@) == Some(
                        self.entries@[i as int].1,
                    ));
                }
                return Some(&self.entries[i].1);
            }
            proof {
                assert(self.entries@.subrange(i as int, n as int).drop_first() =~= self.entries@
                    .subrange((i + 1) as int, n as int));
            }
            i += 1;
        }
        None
    }
}

} // verus!
