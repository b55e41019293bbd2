//! Last-wins association lists: the common core of the daemon's shared
//! tables (routes, health pids, environment variables). Entries are only
//! ever appended; a key's binding is the most recently appended entry.

use vstd::prelude::*;
use crate::strutil::str_eq;

verus! {

/// The value bound to `key`: the most recently appended entry wins.
pub open spec fn spec_assoc<V>(entries: Seq<(String, V)>, key: Seq<char>) -> Option<V>
    decreases entries.len(),
{
    if entries.len() == 0 {
        None
    } else if entries.last().0@ == key {
        Some(entries.last().1)
    } else {
        spec_assoc(entries.drop_last(), key)
    }
}

/// Appending an entry binds its key and leaves every other key unchanged.
pub proof fn lemma_assoc_push<V>(entries: Seq<(String, V)>, e: (String, V), key: Seq<char>)
    ensures
        spec_assoc(entries.push(e), key) == if e.0@ == key {
            Some(e.1)
        } else {
            spec_assoc(entries, key)
        },
{
    assert(entries.push(e).last() == e);
    assert(entries.push(e).drop_last() =~= entries);
}

/// Concatenation: a key bound in the right-hand list takes its value from
/// there; otherwise the left-hand binding shows through.
pub proof fn lemma_assoc_add<V>(a: Seq<(String, V)>, b: Seq<(String, V)>, key: Seq<char>)
    ensures
        spec_assoc(a + b, key) == if spec_assoc(b, key) is Some {
            spec_assoc(b, key)
        } else {
            spec_assoc(a, key)
        },
    decreases b.len(),
{
    if b.len() == 0 {
        assert(a + b =~= a);
    } else {
        assert((a + b).last() == b.last());
        assert((a + b).drop_last() =~= a + b.drop_last());
        lemma_assoc_add(a, b.drop_last(), key);
    }
}

/// Finds the binding of `key`: the index of the last entry carrying it.
pub fn assoc_find<V>(entries: &Vec<(String, V)>, key: &str) -> (r: Option<usize>)
    ensures
        match r {
            Some(i) => i < entries@.len() && entries@[i as int].0@ == key@ && spec_assoc(
                entries@,
                key@,
            ) == Some(entries@[i as int].1),
            None => spec_assoc(entries@, key@) is None,
        },
{
    let n = entries.len();
    assert(entries@.take(n as int) =~= entries@);
    let mut i: usize = n;
    while i > 0
        invariant
            i <= n,
            n == entries@.len(),
            spec_assoc(entries@, key@) == spec_assoc(entries@.take(i as int), key@),
        decreases i,
    {
        proof {
            assert(entries@.take(i as int).drop_last() =~= entries@.take(i - 1));
            assert(entries@.take(i as int).last() == entries@[i - 1]);
        }
        if str_eq(entries[i - 1].0.as_str(), key) {
            return Some(i - 1);
        }
        i -= 1;
    }
    assert(entries@.take(0) =~= Seq::<(String, V)>::empty());
    None
}

} // verus!
