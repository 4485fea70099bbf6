//! The request model: method, path, headers and a fully buffered body.
//!
//! The transport hands the library plain values; header names are stored
//! lowercase, the way an HTTP/1.1 parser normalizes them.

use vstd::prelude::*;
use vstd::utf8::{decode_utf8, encode_utf8};

verus! {

/// An HTTP request method.
#[derive(Clone, Copy, Debug, Hash, PartialEq, Eq, Structural)]
pub enum Method {
    Get,
    Post,
    Put,
    Delete,
    Head,
    Options,
    Connect,
    Patch,
    Trace,
}

/// An incoming request, buffered into plain values.
pub struct Request {
    pub method: Method,
    pub path: String,
    pub headers: Vec<(String, String)>,
    pub body: Vec<u8>,
}

/// The head of a request, after the body has been split off.
pub struct RequestParts {
    pub method: Method,
    pub path: String,
    pub headers: Vec<(String, String)>,
}

/// The mathematical value of a request.
pub struct RequestView {
    pub method: Method,
    pub path: Seq<char>,
    pub headers: Seq<(Seq<char>, Seq<char>)>,
    pub body: Seq<u8>,
}

/// The value of a header list: each name and value as a character sequence.
pub open spec fn headers_view(headers: Seq<(String, String)>) -> Seq<(Seq<char>, Seq<char>)> {
    headers.map_values(|h: (String, String)| (h.0@, h.1@))
}

impl View for Request {
    type V = RequestView;

    open spec fn view(&self) -> RequestView {
        RequestView {
            method: self.method,
            path: self.path@,
            headers: headers_view(self.headers@),
            body: self.body@,
        }
    }
}

impl Request {
    /// Splits the request into its head and its body. The split consumes
    /// the request, so a body can be taken at most once.
    pub fn into_parts(self) -> (r: (RequestParts, Vec<u8>))
        ensures
            r.0.method == self.method,
            r.0.path == self.path,
            r.0.headers == self.headers,
            r.1 == self.body,
    {
        let Request { method, path, headers, body } = self;
        (RequestParts { method, path, headers }, body)
    }

    /// Hands out the buffered body, consuming the request.
    pub fn body_bytes(self) -> (r: Vec<u8>)
        ensures
            r == self.body,
    {
        self.body
    }
}

/// The value of the first header whose name equals `name`, if any.
pub open spec fn header_lookup(headers: Seq<(Seq<char>, Seq<char>)>, name: Seq<char>) -> Option<
    Seq<char>,
>
    decreases headers.len(),
{
    if headers.len() == 0 {
        None
    } else if headers[0].0 == name {
        Some(headers[0].1)
    } else {
        header_lookup(headers.drop_first(), name)
    }
}

/// The header list with every pair named `name` removed, order kept.
pub open spec fn headers_remove(
    headers: Seq<(Seq<char>, Seq<char>)>,
    name: Seq<char>,
) -> Seq<(Seq<char>, Seq<char>)>
    decreases headers.len(),
{
    if headers.len() == 0 {
        Seq::<(Seq<char>, Seq<char>)>::empty()
    } else if headers[0].0 == name {
        headers_remove(headers.drop_first(), name)
    } else {
        seq![headers[0]] + headers_remove(headers.drop_first(), name)
    }
}

/// Removal commutes with appending one pair: the appended pair survives
/// exactly when its name differs from the removed one.
pub(crate) proof fn lemma_headers_remove_push(
    s: Seq<(Seq<char>, Seq<char>)>,
    x: (Seq<char>, Seq<char>),
    name: Seq<char>,
)
    ensures
        headers_remove(s.push(x), name) == (if x.0 == name {
            headers_remove(s, name)
        } else {
            headers_remove(s, name).push(x)
        }),
    decreases s.len(),
{
    let t = s.push(x);
    if s.len() == 0 {
        assert(t[0] == x);
        assert(t.drop_first() =~= Seq::<(Seq<char>, Seq<char>)>::empty());
        assert(headers_remove(Seq::<(Seq<char>, Seq<char>)>::empty(), name)
            =~= Seq::<(Seq<char>, Seq<char>)>::empty());
        if x.0 != name {
            assert(seq![x] + Seq::<(Seq<char>, Seq<char>)>::empty() =~= Seq::<(
                Seq<char>,
                Seq<char>,
            )>::empty().push(x));
        }
    } else {
        assert(t[0] == s[0]);
        assert(t.drop_first() =~= s.drop_first().push(x));
        lemma_headers_remove_push(s.drop_first(), x, name);
        if s[0].0 != name && x.0 != name {
            assert(seq![s[0]] + headers_remove(s.drop_first(), name).push(x) =~= (seq![s[0]]
                + headers_remove(s.drop_first(), name)).push(x));
        }
    }
}

/// After removal, lookup of the removed name finds nothing.
pub(crate) proof fn lemma_headers_remove_finds_nothing(
    s: Seq<(Seq<char>, Seq<char>)>,
    name: Seq<char>,
)
    ensures
        header_lookup(headers_remove(s, name), name) is None,
    decreases s.len(),
{
    if s.len() == 0 {
    } else {
        lemma_headers_remove_finds_nothing(s.drop_first(), name);
        if s[0].0 != name {
            let rest = headers_remove(s.drop_first(), name);
            assert((seq![s[0]] + rest)[0] == s[0]);
            assert((seq![s[0]] + rest).drop_first() =~= rest);
        }
    }
}

/// Removal leaves lookup of every other name unchanged.
pub(crate) proof fn lemma_headers_remove_keeps_others(
    s: Seq<(Seq<char>, Seq<char>)>,
    name: Seq<char>,
    n: Seq<char>,
)
    requires
        n != name,
    ensures
        header_lookup(headers_remove(s, name), n) == header_lookup(s, n),
    decreases s.len(),
{
    if s.len() == 0 {
    } else {
        lemma_headers_remove_keeps_others(s.drop_first(), name, n);
        if s[0].0 != name {
            let rest = headers_remove(s.drop_first(), name);
            assert((seq![s[0]] + rest)[0] == s[0]);
            assert((seq![s[0]] + rest).drop_first() =~= rest);
        }
    }
}

/// Appending a pair whose name is absent makes lookup of that name find it.
pub(crate) proof fn lemma_header_lookup_push_fresh(
    s: Seq<(Seq<char>, Seq<char>)>,
    name: Seq<char>,
    value: Seq<char>,
)
    requires
        header_lookup(s, name) is None,
    ensures
        header_lookup(s.push((name, value)), name) == Some(value),
    decreases s.len(),
{
    let t = s.push((name, value));
    if s.len() == 0 {
        assert(t[0] == (name, value));
    } else {
        assert(t[0] == s[0]);
        assert(t.drop_first() =~= s.drop_first().push((name, value)));
        lemma_header_lookup_push_fresh(s.drop_first(), name, value);
    }
}

/// Appending a pair leaves lookup of every other name unchanged.
pub(crate) proof fn lemma_header_lookup_push_other(
    s: Seq<(Seq<char>, Seq<char>)>,
    x: (Seq<char>, Seq<char>),
    n: Seq<char>,
)
    requires
        x.0 != n,
    ensures
        header_lookup(s.push(x), n) == header_lookup(s, n),
    decreases s.len(),
{
    let t = s.push(x);
    if s.len() == 0 {
        assert(t[0] == x);
        assert(t.drop_first() =~= Seq::<(Seq<char>, Seq<char>)>::empty());
        assert(header_lookup(Seq::<(Seq<char>, Seq<char>)>::empty(), n) is None);
    } else {
        assert(t[0] == s[0]);
        if s[0].0 != n {
            assert(t.drop_first() =~= s.drop_first().push(x));
            lemma_header_lookup_push_other(s.drop_first(), x, n);
        }
    }
}

/// String equality, decided by comparing the UTF-8 encodings.
pub fn str_eq(a: &str, b: &str) -> (r: bool)
    ensures
        r == (a@ == b@),
{
    proof {
        vstd::utf8::encode_utf8_decode_utf8(a@);
        vstd::utf8::encode_utf8_decode_utf8(b@);
    }
    let ab = a.as_bytes();
    let bb = b.as_bytes();
    if ab.len() != bb.len() {
        return false;
    }
    let n = ab.len();
    let mut i: usize = 0;
    while i < n
        invariant
            n == ab@.len(),
            ab@.len() == bb@.len(),
            ab@ == encode_utf8(a@),
            bb@ == encode_utf8(b@),
            i <= n,
            forall|j: int| 0 <= j < i ==> ab@[j] == bb@[j],
        decreases n - i,
    {
        if ab[i] != bb[i] {
            return false;
        }
        i += 1;
    }
    proof {
        assert(ab@ =~= bb@);
        vstd::utf8::encode_utf8_decode_utf8(a@);
        vstd::utf8::encode_utf8_decode_utf8(b@);
    }
    true
}

/// Finds the value of the first header named `name`, by exact comparison.
pub fn header_value<'a>(headers: &'a Vec<(String, String)>, name: &str) -> (r: Option<&'a String>)
    ensures
        match r {
            Some(v) => header_lookup(headers_view(headers@), name@) == Some(v@),
            None => header_lookup(headers_view(headers@), name@) is None,
        },
{
    let ghost hv = headers_view(headers@);
    proof {
        assert(hv.skip(0) =~= hv);
    }
    let n = headers.len();
    let mut i: usize = 0;
    while i < n
        invariant
            n == headers@.len(),
            hv == headers_view(headers@),
            hv.len() == headers@.len(),
            i <= n,
            header_lookup(hv, name@) == header_lookup(hv.skip(i as int), name@),
        decreases n - i,
    {
        if str_eq(headers[i].0.as_str(), name) {
            proof {
                assert(hv.skip(i as int)[0] == hv[i as int]);
            }
            return Some(&headers[i].1);
        }
        proof {
            assert(hv.skip(i as int)[0] == hv[i as int]);
            assert(hv.skip(i as int).drop_first() =~= hv.skip(i as int + 1));
        }
        i += 1;
    }
    proof {
        assert(hv.skip(n as int) =~= Seq::<(Seq<char>, Seq<char>)>::empty());
    }
    None
}

} // verus!
