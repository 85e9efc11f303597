//! What goes on the wire for one operation: method, endpoint, query and body.

use vstd::prelude::*;
use vstd::string::StringExecFns;
use crate::json::{json_of, JsonModel};

verus! {

/// The HTTP methods that the bindings use.
#[derive(Clone, Copy, Debug, PartialEq, Eq, Hash, Structural)]
pub enum Method {
    Get,
    Post,
    Put,
    Delete,
}

impl Method {
    /// The method's name as HTTP writes it.
    pub open spec fn name(self) -> Seq<char> {
        match self {
            Method::Get => "GET"@,
            Method::Post => "POST"@,
            Method::Put => "PUT"@,
            Method::Delete => "DELETE"@,
        }
    }

    /// The method's name as HTTP writes it.
    pub fn as_str(&self) -> (text: &'static str)
        ensures
            text@ == self.name(),
    {
        match self {
            Method::Get => "GET",
            Method::Post => "POST",
            Method::Put => "PUT",
            Method::Delete => "DELETE",
        }
    }
}

/// A resource of the service: the collection of networks, or one network by its identifier.
#[derive(Clone, Debug, PartialEq, Eq)]
pub enum Endpoint {
    Networks,
    Network(String),
}

/// The mathematical model of an [`Endpoint`].
pub enum EndpointView {
    Networks,
    Network(Seq<char>),
}

impl EndpointView {
    /// The path of the resource below the service's base address.
    pub open spec fn path(self) -> Seq<char> {
        match self {
            EndpointView::Networks => "/networks"@,
            EndpointView::Network(id) => "/networks/"@ + id,
        }
    }
}

impl View for Endpoint {
    type V = EndpointView;

    open spec fn view(&self) -> EndpointView {
        match self {
            Endpoint::Networks => EndpointView::Networks,
            Endpoint::Network(id) => EndpointView::Network(id@),
        }
    }
}

impl Endpoint {
    /// The path of the resource below the service's base address: `/networks` for the
    /// collection, `/networks/` followed by the identifier for one network.
    pub fn path(&self) -> (path: String)
        ensures
            path@ == self@.path(),
    {
        match self {
            Endpoint::Networks => String::from_str("/networks"),
            Endpoint::Network(id) => String::from_str("/networks/").concat(id.as_str()),
        }
    }
}

/// One request to the service, ready for a transport to send.
///
/// `body` is `None` where the request carries no body at all; a body of JSON `null`
/// is `Some` of the null value.
#[derive(Clone, Debug, PartialEq, Eq)]
pub struct Request {
    pub method: Method,
    pub endpoint: Endpoint,
    pub query: Vec<(String, String)>,
    pub body: Option<serde_json::Value>,
}

/// The mathematical model of a [`Request`].
pub struct RequestView {
    pub method: Method,
    pub endpoint: EndpointView,
    pub query: Seq<(Seq<char>, Seq<char>)>,
    pub body: Option<JsonModel>,
}

impl View for Request {
    type V = RequestView;

    open spec fn view(&self) -> RequestView {
        RequestView {
            method: self.method,
            endpoint: self.endpoint@,
            query: self.query@.map_values(|pair: (String, String)| (pair.0@, pair.1@)),
            body: match self.body {
                Some(value) => Some(json_of(value)),
                None => None,
            },
        }
    }
}

} // verus!
