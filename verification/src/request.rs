//! What is handed to the transport: one HTTP request, ready to send.

use vstd::prelude::*;
use crate::text::texts;

verus! {

/// The HTTP methods that the exchange's API is called with.
#[derive(Clone, Copy, Debug, PartialEq, Eq, Structural)]
pub enum Method {
    Get,
    Post,
    Delete,
}

impl Method {
    /// The method's name in capitals, as it stands in the request line and
    /// in the text that is signed.
    pub open spec fn name(self) -> Seq<char> {
        match self {
            Method::Get => "GET"@,
            Method::Post => "POST"@,
            Method::Delete => "DELETE"@,
        }
    }

    /// The method's name in capitals.
    pub fn as_str(&self) -> (s: &'static str)
        ensures
            s@ == self.name(),
    {
        match self {
            Method::Get => "GET",
            Method::Post => "POST",
            Method::Delete => "DELETE",
        }
    }
}

/// One request: where it goes, what it carries, and the header lines that
/// go with it, each in the form `Name: value`.
#[derive(Debug)]
pub struct Request {
    pub method: Method,
    pub url: String,
    pub headers: Vec<String>,
    pub body: String,
}

/// What a `Request` holds, as text.
pub ghost struct RequestModel {
    pub method: Method,
    pub url: Seq<char>,
    pub headers: Seq<Seq<char>>,
    pub body: Seq<char>,
}

impl View for Request {
    type V = RequestModel;

    open spec fn view(&self) -> RequestModel {
        RequestModel {
            method: self.method,
            url: self.url@,
            headers: texts(self.headers@),
            body: self.body@,
        }
    }
}

} // verus!
