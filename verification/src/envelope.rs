//! The inbound event as the load balancer hands it over, before any
//! type-specific decoding.

use std::collections::HashMap;
use vstd::prelude::*;

verus! {

/// One HTTP-style event. It only holds its fields: nothing is validated when
/// it is built, a missing body means "no payload", and `is_base64_encoded`
/// is advice that nothing here acts on.
#[derive(Clone, Debug, PartialEq)]
pub struct Envelope {
    /// The HTTP method.
    pub method: String,
    /// The request path.
    pub path: String,
    /// The headers, one value for each name.
    pub headers: HashMap<String, String>,
    /// The headers, every value of each name in the order received.
    pub multi_headers: HashMap<String, Vec<String>>,
    /// The query parameters, one value for each name.
    pub query: HashMap<String, String>,
    /// The query parameters, every value of each name in the order received.
    pub multi_query: HashMap<String, Vec<String>>,
    /// The raw payload, not yet decoded.
    pub body: Option<String>,
    /// Whether the sender says that `body` is base64 text.
    pub is_base64_encoded: bool,
}

/// What an `Envelope` holds.
pub struct EnvelopeView {
    pub method: Seq<char>,
    pub path: Seq<char>,
    pub headers: Map<Seq<char>, Seq<char>>,
    pub multi_headers: Map<Seq<char>, Seq<Seq<char>>>,
    pub query: Map<Seq<char>, Seq<char>>,
    pub multi_query: Map<Seq<char>, Seq<Seq<char>>>,
    pub body: Option<Seq<char>>,
    pub is_base64_encoded: bool,
}

impl View for Envelope {
    type V = EnvelopeView;

    open spec fn view(&self) -> EnvelopeView {
        EnvelopeView {
            method: self.method@,
            path: self.path@,
            headers: self.headers.deep_view(),
            multi_headers: self.multi_headers.deep_view(),
            query: self.query.deep_view(),
            multi_query: self.multi_query.deep_view(),
            body: match self.body {
                Some(text) => Some(text@),
                None => None,
            },
            is_base64_encoded: self.is_base64_encoded,
        }
    }
}

impl Envelope {
    /// The text that a typed request is parsed from: the body as it came,
    /// if there is one. `is_base64_encoded` plays no part: the text is handed
    /// on as it stands, whatever the flag says.
    pub fn payload(&self) -> (text: Option<&str>)
        ensures
            text is None <==> self.body is None,
            text matches Some(t) ==> self.body matches Some(b) && t@ == b@,
    {
        match &self.body {
            Some(body) => Some(body.as_str()),
            None => None,
        }
    }
}

} // verus!
