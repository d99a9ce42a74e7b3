//! The request as the filter sees it: an ordered list of headers and
//! pseudo-headers, looked up by exact name.

use vstd::prelude::*;
use vstd::string::StringExecFns;
use crate::entries::{lacks, lemma_lookup_finds_first, lemma_lookup_none_iff_lacks, lookup};
use crate::text::text_of;

verus! {

/// The pseudo-header that carries the request path.
pub const PATH_HEADER: &'static str = ":path";

/// The header that carries the request's host.
pub const HOST_HEADER: &'static str = "host";

/// A list of headers as plain text: pairs of name and value, in order.
pub type HeaderSeq = Seq<(Seq<char>, Seq<char>)>;

/// The value of the first header called `name`, or the empty text where
/// there is none.
pub open spec fn lookup_or_empty(headers: HeaderSeq, name: Seq<char>) -> Seq<char> {
    match lookup(headers, name) {
        Some(value) => value,
        None => Seq::empty(),
    }
}

/// `headers` with every header called `name` taken out, the others in their
/// order.
pub open spec fn without(headers: HeaderSeq, name: Seq<char>) -> HeaderSeq {
    headers.filter(called_otherwise(name))
}

/// The test that a header is not called `name`.
pub open spec fn called_otherwise(name: Seq<char>) -> spec_fn((Seq<char>, Seq<char>)) -> bool {
    |header: (Seq<char>, Seq<char>)| header.0 != name
}

/// After the headers called `name` are taken out, none is left.
pub proof fn lemma_without_lacks(headers: HeaderSeq, name: Seq<char>)
    ensures
        lacks(without(headers, name), name),
{
    let kept = without(headers, name);
    assert forall|i: int| 0 <= i < kept.len() implies (#[trigger] kept[i]).0 != name by {
        headers.lemma_filter_pred(called_otherwise(name), i);
    }
}

/// Taking out the headers called `name` leaves the lookup of every other
/// name as it was.
pub proof fn lemma_without_keeps_others(headers: HeaderSeq, name: Seq<char>, other: Seq<char>)
    requires
        other != name,
    ensures
        lookup(without(headers, name), other) == lookup(headers, other),
    decreases headers.len(),
{
    let keep = called_otherwise(name);
    if headers.len() == 0 {
        reveal(Seq::filter);
    } else {
        let first = headers[0];
        let rest = headers.drop_first();
        lemma_without_keeps_others(rest, name, other);
        assert(headers =~= seq![first] + rest);
        Seq::filter_distributes_over_add(seq![first], rest, keep);
        assert(seq![first].filter(keep) =~= if keep(first) {
            seq![first]
        } else {
            Seq::empty()
        }) by {
            reveal_with_fuel(Seq::filter, 2);
            assert(seq![first].drop_last() =~= Seq::<(Seq<char>, Seq<char>)>::empty());
            assert(seq![first].last() == first);
        }
        if keep(first) {
            let kept = seq![first] + rest.filter(keep);
            assert(without(headers, name) == kept);
            assert(kept[0] == first);
            assert(kept.drop_first() =~= rest.filter(keep));
        } else {
            assert(without(headers, name) =~= rest.filter(keep));
        }
    }
}

/// One header of a request.
#[derive(Debug, PartialEq, Eq)]
pub struct Header {
    pub name: String,
    pub value: String,
}

impl View for Header {
    type V = (Seq<char>, Seq<char>);

    open spec fn view(&self) -> (Seq<char>, Seq<char>) {
        (self.name@, self.value@)
    }
}

impl Header {
    /// The header `name: value`.
    pub fn new(name: String, value: String) -> (header: Header)
        ensures
            header@ == (name@, value@),
    {
        Header { name, value }
    }
}

impl Clone for Header {
    fn clone(&self) -> (copy: Header)
        ensures
            copy@ == self@,
    {
        Header { name: self.name.clone(), value: self.value.clone() }
    }
}

/// The headers as plain text.
pub open spec fn header_views(headers: Seq<Header>) -> HeaderSeq {
    headers.map_values(|header: Header| header@)
}

/// The headers and pseudo-headers of one request, as the host shows them.
#[derive(Debug, PartialEq, Eq)]
pub struct RequestView {
    headers: Vec<Header>,
}

impl View for RequestView {
    type V = HeaderSeq;

    closed spec fn view(&self) -> HeaderSeq {
        header_views(self.headers@)
    }
}

impl RequestView {
    /// A request without headers.
    pub fn new() -> (request: RequestView)
        ensures
            request@ == HeaderSeq::empty(),
    {
        let request = RequestView { headers: Vec::new() };
        assert(request@ =~= HeaderSeq::empty());
        request
    }

    /// A request with the given headers, in their order.
    pub fn from_headers(headers: Vec<Header>) -> (request: RequestView)
        ensures
            request@ == header_views(headers@),
    {
        RequestView { headers }
    }

    /// The number of headers.
    pub fn len(&self) -> (n: usize)
        ensures
            n == self@.len(),
    {
        self.headers.len()
    }

    /// Puts a header behind those that are there.
    pub fn push_header(&mut self, name: String, value: String)
        ensures
            final(self)@ == old(self)@.push((name@, value@)),
    {
        let header = Header::new(name, value);
        self.headers.push(header);
        assert(self@ =~= old(self)@.push((name@, value@)));
    }

    /// The value of the first header called `name`.
    pub fn get_header(&self, name: &str) -> (value: Option<String>)
        ensures
            text_of(value) == lookup(self@, name@),
    {
        let wanted = String::from_str(name);
        let mut i: usize = 0;
        while i < self.headers.len()
            invariant
                i <= self.headers.len(),
                wanted@ == name@,
                forall|j: int| 0 <= j < i ==> (#[trigger] self@[j]).0 != name@,
            decreases self.headers.len() - i,
        {
            if self.headers[i].name == wanted {
                proof {
                    assert(self@[i as int] == self.headers@[i as int]@);
                    lemma_lookup_finds_first(self@, name@, i as int);
                }
                return Some(self.headers[i].value.clone());
            }
            assert(self@[i as int] == self.headers@[i as int]@);
            i += 1;
        }
        proof {
            lemma_lookup_none_iff_lacks(self@, name@);
        }
        None
    }

    /// Whether a header called `name` is there.
    pub fn has_header(&self, name: &str) -> (present: bool)
        ensures
            present == !lacks(self@, name@),
    {
        proof {
            lemma_lookup_none_iff_lacks(self@, name@);
        }
        self.get_header(name).is_some()
    }

    /// The request path: the value of `:path`, or the empty text where the
    /// request has none.
    pub fn path(&self) -> (path: String)
        ensures
            path@ == lookup_or_empty(self@, PATH_HEADER@),
    {
        match self.get_header(PATH_HEADER) {
            Some(path) => path,
            None => String::new(),
        }
    }

    /// The request's host: the value of `host`, or the empty text where the
    /// request has none.
    pub fn host(&self) -> (host: String)
        ensures
            host@ == lookup_or_empty(self@, HOST_HEADER@),
    {
        match self.get_header(HOST_HEADER) {
            Some(host) => host,
            None => String::new(),
        }
    }

    /// Takes every header called `name` out of the request.
    pub fn remove_header(&mut self, name: &str)
        ensures
            final(self)@ == without(old(self)@, name@),
    {
        let ghost keep = called_otherwise(name@);
        let wanted = String::from_str(name);
        let mut kept: Vec<Header> = Vec::new();
        let mut i: usize = 0;
        proof {
            reveal(Seq::filter);
            assert(self@.take(0) =~= HeaderSeq::empty());
            assert(header_views(kept@) =~= HeaderSeq::empty());
        }
        while i < self.headers.len()
            invariant
                i <= self.headers.len(),
                wanted@ == name@,
                keep == called_otherwise(name@),
                header_views(kept@) == self@.take(i as int).filter(keep),
            decreases self.headers.len() - i,
        {
            let ghost before = header_views(kept@);
            proof {
                assert(self@[i as int] == self.headers@[i as int]@);
                assert(self@.take(i + 1) =~= self@.take(i as int).push(self@[i as int]));
                self@.take(i as int).lemma_filter_push(self@[i as int], keep);
            }
            if self.headers[i].name != wanted {
                kept.push(self.headers[i].clone());
                assert(header_views(kept@) =~= before.push(self@[i as int]));
            }
            i += 1;
        }
        assert(self@.take(i as int) =~= self@);
        self.headers = kept;
    }
}

} // verus!
