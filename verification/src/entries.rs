//! Lists of named entries, looked up by exact name: the first entry with
//! the name counts.

use vstd::prelude::*;

verus! {

/// What the first entry of `entries` called `name` holds, if there is one.
/// Names are compared as they stand.
pub open spec fn lookup<V>(entries: Seq<(Seq<char>, V)>, name: Seq<char>) -> Option<V>
    decreases entries.len(),
{
    if entries.len() == 0 {
        None
    } else if entries[0].0 == name {
        Some(entries[0].1)
    } else {
        lookup(entries.drop_first(), name)
    }
}

/// No entry of `entries` is called `name`.
pub open spec fn lacks<V>(entries: Seq<(Seq<char>, V)>, name: Seq<char>) -> bool {
    forall|i: int| 0 <= i < entries.len() ==> (#[trigger] entries[i]).0 != name
}

/// A lookup passes over entries with other names.
pub proof fn lemma_lookup_skips_others<V>(entries: Seq<(Seq<char>, V)>, name: Seq<char>, n: int)
    requires
        0 <= n <= entries.len(),
        forall|j: int| 0 <= j < n ==> (#[trigger] entries[j]).0 != name,
    ensures
        lookup(entries, name) == lookup(entries.skip(n), name),
    decreases n,
{
    if n == 0 {
        assert(entries.skip(0) =~= entries);
    } else {
        assert(entries[0].0 != name);
        let rest = entries.drop_first();
        assert forall|j: int| 0 <= j < n - 1 implies (#[trigger] rest[j]).0 != name by {
            assert(rest[j] == entries[j + 1]);
        }
        lemma_lookup_skips_others(rest, name, n - 1);
        assert(rest.skip(n - 1) =~= entries.skip(n));
    }
}

/// A lookup finds the first entry with the name.
pub proof fn lemma_lookup_finds_first<V>(entries: Seq<(Seq<char>, V)>, name: Seq<char>, at: int)
    requires
        0 <= at < entries.len(),
        entries[at].0 == name,
        forall|j: int| 0 <= j < at ==> (#[trigger] entries[j]).0 != name,
    ensures
        lookup(entries, name) == Some(entries[at].1),
{
    lemma_lookup_skips_others(entries, name, at);
    assert(entries.skip(at)[0] == entries[at]);
}

/// A lookup finds nothing exactly where no entry has the name.
pub proof fn lemma_lookup_none_iff_lacks<V>(entries: Seq<(Seq<char>, V)>, name: Seq<char>)
    ensures
        lookup(entries, name) is None <==> lacks(entries, name),
    decreases entries.len(),
{
    if entries.len() > 0 {
        let rest = entries.drop_first();
        lemma_lookup_none_iff_lacks(rest, name);
        if entries[0].0 == name {
        } else if lacks(rest, name) {
            assert forall|i: int| 0 <= i < entries.len() implies (#[trigger] entries[i]).0
                != name by {
                if i > 0 {
                    assert(entries[i] == rest[i - 1]);
                }
            }
        } else {
            let i = choose|i: int| 0 <= i < rest.len() && (#[trigger] rest[i]).0 == name;
            assert(entries[i + 1] == rest[i]);
        }
    }
}

} // verus!
