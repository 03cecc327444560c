//! HTTP requests that the scrapers ask the host to perform.
use vstd::prelude::*;
use crate::text::{chars_of, string_of};

verus! {

/// HTTP method of a request.
#[derive(Debug, Clone, Copy, PartialEq, Eq, Structural)]
pub enum Method {
    Get,
    Post,
}

/// A request for the host: `host::get(url, headers)` or
/// `host::post(url, body, headers)`; no headers means `None`.
#[derive(Debug)]
pub struct Request {
    pub method: Method,
    pub url: String,
    pub body: String,
    pub headers: Vec<(String, String)>,
}

/// Mathematical value of a [`Request`].
pub struct RequestView {
    pub method: Method,
    pub url: Seq<char>,
    pub body: Seq<char>,
    pub headers: Seq<(Seq<char>, Seq<char>)>,
}

impl View for Request {
    type V = RequestView;

    open spec fn view(&self) -> RequestView {
        RequestView {
            method: self.method,
            url: self.url@,
            body: self.body@,
            headers: self.headers@.map_values(|h: (String, String)| (h.0@, h.1@)),
        }
    }
}

/// Views of an optional request.
pub open spec fn oreq(o: Option<Request>) -> Option<RequestView> {
    match o {
        Some(r) => Some(r@),
        None => None,
    }
}

/// A GET request without headers.
pub open spec fn get_spec(url: Seq<char>) -> RequestView {
    RequestView { method: Method::Get, url, body: Seq::empty(), headers: Seq::empty() }
}

/// A GET request without headers.
pub fn get_request(url: &Vec<char>) -> (r: Request)
    ensures
        r@ == get_spec(url@),
{
    let r = Request {
        method: Method::Get,
        url: string_of(url),
        body: String::new(),
        headers: Vec::new(),
    };
    assert(r@.headers =~= Seq::<(Seq<char>, Seq<char>)>::empty());
    r
}

/// Adds a header to a request.
pub fn with_header(r: Request, name: &str, value: &Vec<char>) -> (out: Request)
    ensures
        out@ == (RequestView { headers: r@.headers.push((name@, value@)), ..r@ }),
{
    let mut r = r;
    let ghost before = r@.headers;
    r.headers.push((String::from_str(name), string_of(value)));
    assert(r@.headers =~= before.push((name@, value@)));
    r
}

/// A POST request without headers.
pub open spec fn post_spec(url: Seq<char>, body: Seq<char>) -> RequestView {
    RequestView { method: Method::Post, url, body, headers: Seq::empty() }
}

/// A POST request without headers.
pub fn post_request(url: &Vec<char>, body: &Vec<char>) -> (r: Request)
    ensures
        r@ == post_spec(url@, body@),
{
    let r = Request {
        method: Method::Post,
        url: string_of(url),
        body: string_of(body),
        headers: Vec::new(),
    };
    assert(r@.headers =~= Seq::<(Seq<char>, Seq<char>)>::empty());
    r
}

/// Characters of a string literal, as a vector.
pub fn lit(s: &str) -> (v: Vec<char>)
    ensures
        v@ == s@,
{
    chars_of(s)
}

} // verus!
