use vstd::prelude::*;

verus! {

/// A response to a request: its status code and body.
#[derive(Clone, Debug)]
pub struct Response {
    pub status: u16,
    pub body: String,
}

/// A maker of requests.
pub trait Request {
}

/// The platform's maker of requests.
pub struct RequestImpl;

impl Request for RequestImpl {
}

} // verus!
