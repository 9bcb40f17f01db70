//! Request and Response values, their mathematical views, and verified deep
//! copies. The pipeline treats both as opaque carriers: a middleware may read
//! or rebuild them, but the composition engine itself never inspects them.

use vstd::prelude::*;

verus! {

/// An already-parsed inbound request: method, path, headers and body.
/// Transport parsing is the external server's job; the pipeline only
/// consumes this value.
#[derive(Debug)]
pub struct Request {
    pub method: String,
    pub path: String,
    pub headers: Vec<(String, String)>,
    pub body: String,
}

/// The response a handler or a short-circuiting middleware produces:
/// status, headers and body.
#[derive(Debug)]
pub struct Response {
    pub status: u16,
    pub headers: Vec<(String, String)>,
    pub body: String,
}

/// Mathematical view of a header list: each name/value pair as character
/// sequences.
pub open spec fn headers_view(h: Seq<(String, String)>) -> Seq<(Seq<char>, Seq<char>)> {
    h.map_values(|p: (String, String)| (p.0@, p.1@))
}

/// Mathematical view of a `Request`.
#[verifier::ext_equal]
pub struct RequestView {
    pub method: Seq<char>,
    pub path: Seq<char>,
    pub headers: Seq<(Seq<char>, Seq<char>)>,
    pub body: Seq<char>,
}

/// Mathematical view of a `Response`.
#[verifier::ext_equal]
pub struct ResponseView {
    pub status: u16,
    pub headers: Seq<(Seq<char>, Seq<char>)>,
    pub body: Seq<char>,
}

impl View for Request {
    type V = RequestView;

    open spec fn view(&self) -> RequestView {
        RequestView {
            method: self.method@,
            path: self.path@,
            headers: headers_view(self.headers@),
            body: self.body@,
        }
    }
}

impl View for Response {
    type V = ResponseView;

    open spec fn view(&self) -> ResponseView {
        ResponseView {
            status: self.status,
            headers: headers_view(self.headers@),
            body: self.body@,
        }
    }
}

/// A copy of a string with the same characters.
pub fn copy_string(s: &String) -> (out: String)
    ensures
        out@ == s@,
{
    String::from_str(s.as_str())
}

/// A copy of a header list with the same view.
fn copy_headers(h: &Vec<(String, String)>) -> (out: Vec<(String, String)>)
    ensures
        headers_view(out@) == headers_view(h@),
{
    let mut out: Vec<(String, String)> = Vec::new();
    let mut i: usize = 0;
    while i < h.len()
        invariant
            i <= h@.len(),
            out@.len() == i,
            forall|j: int| 0 <= j < i ==> out@[j].0@ == h@[j].0@ && out@[j].1@ == h@[j].1@,
        decreases h@.len() - i,
    {
        let p = &h[i];
        out.push((copy_string(&p.0), copy_string(&p.1)));
        i = i + 1;
    }
    proof {
        assert(headers_view(out@) =~= headers_view(h@));
    }
    out
}

/// A copy of a response with the same view. The composed pipeline is built
/// once and reused, so responses stored inside it are handed out as copies.
pub fn copy_response(r: &Response) -> (out: Response)
    ensures
        out@ == r@,
{
    Response {
        status: r.status,
        headers: copy_headers(&r.headers),
        body: copy_string(&r.body),
    }
}

} // verus!
