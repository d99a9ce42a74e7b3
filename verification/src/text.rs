//! Text primitives the filter is built on: substring search and
//! concatenation over sequences of characters.

use vstd::prelude::*;
use vstd::string::StringExecFns;

verus! {

/// The text of an optional string.
pub open spec fn text_of(text: Option<String>) -> Option<Seq<char>> {
    match text {
        Some(s) => Some(s@),
        None => None,
    }
}

/// `needle` lies in `hay` starting at character position `at`.
pub open spec fn occurs_at(needle: Seq<char>, hay: Seq<char>, at: int) -> bool {
    &&& 0 <= at
    &&& at + needle.len() <= hay.len()
    &&& hay.subrange(at, at + needle.len()) == needle
}

/// `needle` is a contiguous run of characters of `hay`. The empty sequence
/// occurs in every sequence, the empty one included.
pub open spec fn occurs_in(needle: Seq<char>, hay: Seq<char>) -> bool {
    exists|at: int| occurs_at(needle, hay, at)
}

/// The empty sequence occurs in every sequence.
pub proof fn lemma_empty_occurs_everywhere(hay: Seq<char>)
    ensures
        occurs_in(Seq::<char>::empty(), hay),
{
    assert(hay.subrange(0, 0) =~= Seq::<char>::empty());
    assert(occurs_at(Seq::<char>::empty(), hay, 0));
}

/// Only the empty sequence occurs in the empty sequence.
pub proof fn lemma_occurs_in_empty(needle: Seq<char>)
    ensures
        occurs_in(needle, Seq::<char>::empty()) <==> needle.len() == 0,
{
    if needle.len() == 0 {
        assert(needle =~= Seq::<char>::empty());
        lemma_empty_occurs_everywhere(Seq::<char>::empty());
    }
}

/// A sequence occurs at the end of anything it was appended to.
pub proof fn lemma_occurs_as_suffix(prefix: Seq<char>, needle: Seq<char>)
    ensures
        occurs_in(needle, prefix + needle),
{
    let hay = prefix + needle;
    assert(hay.subrange(prefix.len() as int, prefix.len() as int + needle.len()) =~= needle);
    assert(occurs_at(needle, hay, prefix.len() as int));
}

/// The characters of `s`, in order.
pub fn chars_of(s: &str) -> (out: Vec<char>)
    ensures
        out@ == s@,
{
    let mut out: Vec<char> = Vec::new();
    for c in it: s.chars()
        invariant
            out@ == it.seq().take(it.index() as int),
    {
        out.push(c);
    }
    out
}

/// Compares `needle` with the run of `hay` that starts at `at`. Where `hay`
/// has no run of that length from there, the answer is no.
pub fn matches_at(hay: &Vec<char>, needle: &Vec<char>, at: usize) -> (same: bool)
    ensures
        same == occurs_at(needle@, hay@, at as int),
{
    if at > hay.len() || needle.len() > hay.len() - at {
        return false;
    }
    let mut k: usize = 0;
    while k < needle.len()
        invariant
            k <= needle.len(),
            at + needle.len() <= hay.len(),
            forall|j: int| 0 <= j < k ==> hay@[at + j] == needle@[j],
        decreases needle.len() - k,
    {
        if hay[at + k] != needle[k] {
            assert(hay@.subrange(at as int, at + needle.len())[k as int] == hay@[at + k]);
            return false;
        }
        k += 1;
    }
    assert(hay@.subrange(at as int, at + needle.len()) =~= needle@);
    true
}

/// Whether `needle` occurs in `hay` as a substring, compared character by
/// character with no normalisation.
pub fn contains(hay: &str, needle: &str) -> (found: bool)
    ensures
        found == occurs_in(needle@, hay@),
{
    let h = chars_of(hay);
    let n = chars_of(needle);
    if n.len() > h.len() {
        return false;
    }
    let last: usize = h.len() - n.len();
    let mut at: usize = 0;
    loop
        invariant
            h@ == hay@,
            n@ == needle@,
            n.len() <= h.len(),
            last == h.len() - n.len(),
            at <= last,
            forall|i: int| 0 <= i < at ==> !occurs_at(n@, h@, i),
        decreases last - at,
    {
        if matches_at(&h, &n, at) {
            return true;
        }
        if at == last {
            return false;
        }
        at += 1;
    }
}

/// `first` followed by `second`, with nothing put between them.
pub fn join(first: &str, second: &str) -> (joined: String)
    ensures
        joined@ == first@ + second@,
{
    String::from_str(first).concat(second)
}

} // verus!
