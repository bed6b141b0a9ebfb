//! The ephemeral request value: an absolute URL, an HTTP method, an ordered
//! header list and an optional body. One is built fresh for every API call
//! and handed to whatever transport the caller runs.

use vstd::prelude::*;

use crate::text::string_pairs_view;

verus! {

/// An HTTP method.
#[derive(Debug, Clone, Copy, PartialEq, Eq, Structural)]
pub enum Method {
    Get,
    Head,
    Post,
    Put,
    Patch,
    Delete,
}

/// The mathematical shape of a request.
#[verifier::ext_equal]
pub struct RequestV {
    pub method: Method,
    pub url: Seq<char>,
    pub headers: Seq<(Seq<char>, Seq<char>)>,
    pub body: Option<Seq<u8>>,
}

/// An HTTP request ready to send. The URL is held as its serialization.
#[derive(Debug)]
pub struct Request {
    pub method: Method,
    pub url: String,
    pub headers: Vec<(String, String)>,
    pub body: Option<Vec<u8>>,
}

impl View for Request {
    type V = RequestV;

    open spec fn view(&self) -> RequestV {
        RequestV {
            method: self.method,
            url: self.url@,
            headers: string_pairs_view(self.headers@),
            body: match self.body {
                Some(b) => Some(b@),
                None => None,
            },
        }
    }
}

impl Request {
    /// A request with the given method and URL, no headers and no body.
    pub fn new(method: Method, url: String) -> (r: Request)
        ensures
            r@ == (RequestV {
                method,
                url: url@,
                headers: Seq::<(Seq<char>, Seq<char>)>::empty(),
                body: None,
            }),
    {
        let r = Request { method, url, headers: Vec::new(), body: None };
        proof {
            assert(r@.headers =~= Seq::<(Seq<char>, Seq<char>)>::empty());
            assert(r@ =~= (RequestV {
                method,
                url: r.url@,
                headers: Seq::<(Seq<char>, Seq<char>)>::empty(),
                body: None,
            }));
        }
        r
    }
}

} // verus!
