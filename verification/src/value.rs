//! The generic decoded tree that an external parser hands to this crate.

use vstd::prelude::*;

use crate::time::TimeInterval;

verus! {

/// One node of the generic self-describing tree: a scalar (signed integer,
/// timer-interval number, or text), an ordered sequence of nodes, or a
/// dictionary of string-keyed nodes in source order.
pub enum Value {
    /// A signed 64-bit integer scalar.
    Integer(i64),
    /// A timer-interval number scalar (seconds since the format epoch).
    Real(TimeInterval),
    /// A text scalar.
    Text(String),
    /// An ordered sequence of nodes.
    Sequence(Vec<Value>),
    /// A dictionary of string-keyed nodes, in source order; lookups take the
    /// first entry with a matching key.
    Dictionary(Vec<(String, Value)>),
}

/// The first value stored under `key`, if any.
pub open spec fn spec_dict_get(entries: Seq<(String, Value)>, key: Seq<char>) -> Option<Value>
    decreases entries.len(),
{
    if entries.len() == 0 {
        None
    } else if entries[0].0@ == key {
        Some(entries[0].1)
    } else {
        spec_dict_get(entries.drop_first(), key)
    }
}

/// Character-for-character string comparison.
pub fn str_eq(a: &str, b: &str) -> (r: bool)
    ensures
        r == (a@ == b@),
{
    let na = a.unicode_len();
    let nb = b.unicode_len();
    if na != nb {
        return false;
    }
    let mut i: usize = 0;
    while i < na
        invariant
            na == a@.len(),
            na == b@.len(),
            i <= na,
            forall|k: int| 0 <= k < i ==> a@[k] == b@[k],
        decreases na - i,
    {
        if a.get_char(i) != b.get_char(i) {
            return false;
        }
        i += 1;
    }
    proof {
        assert(a@ =~= b@);
    }
    true
}

/// Looks `key` up in a dictionary's entries: the first entry whose key
/// matches, or `None` when no entry does.
pub fn dict_get<'a>(entries: &'a Vec<(String, Value)>, key: &str) -> (r: Option<&'a Value>)
    ensures
        match r {
            Some(v) => spec_dict_get(entries@, key@) == Some(*v),
            None => spec_dict_get(entries@, key@) is None,
        },
{
    let ghost es = entries@;
    proof {
        assert(es.skip(0) =~= es);
    }
    let mut i: usize = 0;
    while i < entries.len()
        invariant
            es == entries@,
            i <= es.len(),
            spec_dict_get(es, key@) == spec_dict_get(es.skip(i as int), key@),
        decreases es.len() - i,
    {
        proof {
            assert(es.skip(i as int)[0] == es[i as int]);
            assert(es.skip(i as int).drop_first() =~= es.skip(i as int + 1));
        }
        if str_eq(entries[i].0.as_str(), key) {
            return Some(&entries[i].1);
        }
        i += 1;
    }
    proof {
        assert(es.skip(es.len() as int) =~= Seq::<(String, Value)>::empty());
    }
    None
}

} // verus!
