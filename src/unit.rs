use vstd::prelude::*;

verus! {

/// One request attempt: method, target URL, remaining redirect budget,
/// whether the body is sent chunked, and the absolute deadline (if any).
pub struct Unit {
    pub method: String,
    pub url: String,
    pub redirects: u32,
    pub is_chunked: bool,
    pub deadline: Option<u64>,
}

/// The methods that transport-level retry treats as idempotent
/// (case-sensitive, a fixed set).
pub open spec fn idempotent_method(m: Seq<char>) -> bool {
    m == "DELETE"@ || m == "GET"@ || m == "HEAD"@ || m == "OPTIONS"@ || m == "PUT"@
        || m == "TRACE"@
}

/// Whether `method` is one of the idempotent methods.
pub fn is_idempotent(method: &String) -> (r: bool)
    ensures
        r == idempotent_method(method@),
{
    *method == String::from_str("DELETE") || *method == String::from_str("GET")
        || *method == String::from_str("HEAD") || *method == String::from_str("OPTIONS")
        || *method == String::from_str("PUT") || *method == String::from_str("TRACE")
}

impl Unit {
    pub fn new(method: String, url: String, redirects: u32, is_chunked: bool, deadline: Option<u64>) -> (r: Unit)
        ensures
            r == (Unit { method, url, redirects, is_chunked, deadline }),
    {
        Unit { method, url, redirects, is_chunked, deadline }
    }

    /// A field-by-field copy.
    pub fn duplicate(&self) -> (r: Unit)
        ensures
            r == *self,
    {
        Unit {
            method: self.method.clone(),
            url: self.url.clone(),
            redirects: self.redirects,
            is_chunked: self.is_chunked,
            deadline: self.deadline,
        }
    }

    /// The unit for the next hop of a redirect chain: same request aimed at
    /// `url`, with one unit of redirect budget spent.
    pub fn redirect_to(&self, url: String) -> (r: Unit)
        requires
            self.redirects > 0,
        ensures
            r == (Unit { url, redirects: (self.redirects - 1) as u32, ..*self }),
    {
        Unit {
            method: self.method.clone(),
            url,
            redirects: self.redirects - 1,
            is_chunked: self.is_chunked,
            deadline: self.deadline,
        }
    }
}

} // verus!
