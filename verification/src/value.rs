//! The generic structured value that schema documents and input documents
//! are given in: objects, arrays, strings, integers, booleans and null.
//! Compilation and validation read values only through the accessors here.

use vstd::prelude::*;

verus! {

/// Character-for-character equality of two string slices.
pub fn str_eq(a: &str, b: &str) -> (r: bool)
    ensures
        r == (a@ == b@),
{
    let n = a.unicode_len();
    let m = b.unicode_len();
    if n != m {
        return false;
    }
    let mut i: usize = 0;
    while i < n
        invariant
            i <= n,
            n == a@.len(),
            n == b@.len(),
            forall|j: int| 0 <= j < i ==> a@[j] == b@[j],
        decreases n - i,
    {
        if a.get_char(i) != b.get_char(i) {
            return false;
        }
        i += 1;
    }
    proof {
        assert(a@ =~= b@);
    }
    true
}

/// A structured value: the parsed form of a schema document or of an input
/// document under validation.
#[derive(Debug, PartialEq)]
pub enum Value {
    Null,
    Bool(bool),
    Num(i64),
    Str(String),
    Arr(Vec<Value>),
    Obj(Vec<(String, Value)>),
}

/// The value bound to `key` in an object's entry list; the first binding wins.
pub open spec fn obj_lookup(entries: Seq<(String, Value)>, key: Seq<char>) -> Option<Value>
    decreases entries.len(),
{
    if entries.len() == 0 {
        None
    } else if entries[0].0@ == key {
        Some(entries[0].1)
    } else {
        obj_lookup(entries.drop_first(), key)
    }
}

/// Whether an object's entry list binds `key`.
pub open spec fn obj_has_key(entries: Seq<(String, Value)>, key: Seq<char>) -> bool {
    obj_lookup(entries, key) is Some
}

impl Value {
    /// The member bound to `key`, if this value is an object that has one.
    pub open spec fn spec_get(self, key: Seq<char>) -> Option<Value> {
        match self {
            Value::Obj(entries) => obj_lookup(entries@, key),
            _ => None,
        }
    }

    /// The character sequence held, if this value is a string.
    pub open spec fn spec_as_str(self) -> Option<Seq<char>> {
        match self {
            Value::Str(s) => Some(s@),
            _ => None,
        }
    }

    pub open spec fn spec_is_object(self) -> bool {
        self matches Value::Obj(_)
    }

    /// Looks `key` up among this value's members; `None` when this value is
    /// not an object or has no such member.
    pub fn get<'a>(&'a self, key: &str) -> (r: Option<&'a Value>)
        ensures
            match r {
                Some(v) => self.spec_get(key@) == Some(*v),
                None => self.spec_get(key@) is None,
            },
    {
        match self {
            Value::Obj(entries) => {
                let n = entries.len();
                let mut i: usize = 0;
                proof {
                    assert(entries@.subrange(0, n as int) =~= entries@);
                }
                while i < n
                    invariant
                        i <= n,
                        n == entries@.len(),
                        *self == Value::Obj(*entries),
                        obj_lookup(entries@, key@) == obj_lookup(
                            entries@.subrange(i as int, n as int),
                            key@,
                        ),
                    decreases n - i,
                {
                    proof {
                        assert(entries@.subrange(i as int, n as int)[0] == entries@[i as int]);
                    }
                    if str_eq(entries[i].0.as_str(), key) {
                        proof {
                            let sub = entries@.subrange(i as int, n as int);
                            assert(obj_lookup(sub, key@) == Some(entries@[i as int].1));
                            assert(*self == Value::Obj(*entries));
                        }
                        return Some(&entries[i].1);
                    }
                    proof {
                        assert(entries@.subrange(i as int, n as int).drop_first() =~= entries@
                            .subrange((i + 1) as int, n as int));
                    }
                    i += 1;
                }
                None
            },
            _ => None,
        }
    }

    /// The string slice held, if this value is a string.
    pub fn as_str(&self) -> (r: Option<&str>)
        ensures
            match r {
                Some(s) => self.spec_as_str() == Some(s@),
                None => self.spec_as_str() is None,
            },
    {
        match self {
            Value::Str(s) => Some(s.as_str()),
            _ => None,
        }
    }

    pub fn is_object(&self) -> (r: bool)
        ensures
            r == self.spec_is_object(),
    {
        match self {
            Value::Obj(_) => true,
            _ => false,
        }
    }
}

} // verus!
