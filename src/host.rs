//! What the host's transport hands back, and a small arithmetic export.
use vstd::prelude::*;

verus! {

/// A response from the host's transport: a status code and the body bytes.
pub struct HttpResponse {
    pub status: i32,
    pub body: Vec<u8>,
}

impl HttpResponse {
    pub fn new(status: i32, body: Vec<u8>) -> (r: HttpResponse)
        ensures
            r.status == status,
            r.body@ == body@,
    {
        HttpResponse { status, body }
    }

    /// Whether the status is in the 2xx range.
    pub fn is_success(&self) -> (r: bool)
        ensures
            r == (200 <= self.status < 300),
    {
        200 <= self.status && self.status < 300
    }
}

/// The sum of two integers.
pub fn add(a: i32, b: i32) -> (r: i32)
    requires
        i32::MIN <= a + b <= i32::MAX,
    ensures
        r == a + b,
{
    a + b
}

} // verus!
