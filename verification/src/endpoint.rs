use vstd::prelude::*;

verus! {

/// A construct to store the base URL of a service.
#[derive(Debug, Clone)]
pub struct Endpoint {
    url: String,
}

impl View for Endpoint {
    type V = Seq<char>;

    closed spec fn view(&self) -> Seq<char> {
        self.url@
    }
}

impl Endpoint {
    /// Builds an endpoint from a long-lived static URL.
    pub fn from_static(url: &'static str) -> (ep: Endpoint)
        ensures
            ep@ == url@,
    {
        Endpoint { url: url.to_owned() }
    }

    /// Builds an endpoint from an owned URL built at runtime.
    pub fn from_owned(url: String) -> (ep: Endpoint)
        ensures
            ep@ == url@,
    {
        Endpoint { url }
    }

    /// Returns the base URL of the endpoint.
    pub fn base_url(&self) -> (url: &str)
        ensures
            url@ == self@,
    {
        self.url.as_str()
    }
}

} // verus!
