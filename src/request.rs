//! The parts of an inbound HTTP request that authentication reads, and the
//! outbound request onto which verified data is forwarded.
use vstd::prelude::*;
use crate::text::{eq_ignore_ascii_case, same_ignoring_ascii_case};

verus! {

/// One header line. Names compare without regard to ASCII case.
pub struct HeaderEntry {
    pub name: String,
    pub value: Vec<u8>,
}

/// An inbound request: its headers in order, and its query parameters
/// already URL-decoded, in order.
pub struct HttpRequest {
    pub headers: Vec<HeaderEntry>,
    pub query_params: Vec<(String, String)>,
}

/// The index of the first header at or after `i` whose name is `name`.
pub open spec fn first_header_from(hs: Seq<HeaderEntry>, name: Seq<char>, i: int) -> Option<int>
    decreases hs.len() - i,
{
    if i < 0 || i >= hs.len() {
        None
    } else if same_ignoring_ascii_case(hs[i].name@, name) {
        Some(i)
    } else {
        first_header_from(hs, name, i + 1)
    }
}

/// The value of the first header called `name`, as a header map lookup gives it.
pub open spec fn header_value(hs: Seq<HeaderEntry>, name: Seq<char>) -> Option<Seq<u8>> {
    match first_header_from(hs, name, 0) {
        Some(i) => Some(hs[i].value@),
        None => None,
    }
}

/// The value of the first query parameter at or after `i` called `name`.
pub open spec fn query_value_from(qs: Seq<(String, String)>, name: Seq<char>, i: int) -> Option<Seq<char>>
    decreases qs.len() - i,
{
    if i < 0 || i >= qs.len() {
        None
    } else if qs[i].0@ == name {
        Some(qs[i].1@)
    } else {
        query_value_from(qs, name, i + 1)
    }
}

impl HttpRequest {
    /// Finds the first header called `name`, ignoring ASCII case.
    pub fn find_header(&self, name: &str) -> (r: Option<usize>)
        ensures
            r matches Some(i) ==> i < self.headers@.len(),
            r matches Some(i) ==> first_header_from(self.headers@, name@, 0) == Some(i as int),
            r is None ==> first_header_from(self.headers@, name@, 0) is None,
    {
        let mut i: usize = 0;
        while i < self.headers.len()
            invariant
                i <= self.headers@.len(),
                first_header_from(self.headers@, name@, 0) == first_header_from(self.headers@, name@, i as int),
            decreases self.headers@.len() - i,
        {
            if eq_ignore_ascii_case(self.headers[i].name.as_str(), name) {
                return Some(i);
            }
            i = i + 1;
        }
        None
    }

    /// The value of the first query parameter called `name`.
    pub fn query_param(&self, name: &String) -> (r: Option<String>)
        ensures
            r matches Some(v) ==> query_value_from(self.query_params@, name@, 0) == Some(v@),
            r is None ==> query_value_from(self.query_params@, name@, 0) is None,
    {
        let mut i: usize = 0;
        while i < self.query_params.len()
            invariant
                i <= self.query_params@.len(),
                query_value_from(self.query_params@, name@, 0) == query_value_from(self.query_params@, name@, i as int),
            decreases self.query_params@.len() - i,
        {
            if self.query_params[i].0 == *name {
                return Some(self.query_params[i].1.clone());
            }
            i = i + 1;
        }
        None
    }
}

} // verus!
