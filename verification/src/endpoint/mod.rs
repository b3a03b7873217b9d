//! Request and response payloads shared by the client and the server, and
//! the URL path that each request is posted to.

pub mod app_url;
pub mod post;
pub mod trending;
pub mod user;

use vstd::prelude::*;

verus! {

/// A request type together with the URL path it is posted to.
pub trait Endpoint {
    /// The URL path of this request type.
    const URL: &'static str;

    /// The URL path of this request.
    fn url(&self) -> (r: &'static str)
        ensures
            r == Self::URL,
    {
        Self::URL
    }
}

/// How a request changes one field of stored data.
#[derive(Clone, Debug)]
pub enum Update<T> {
    /// Set the field to this value.
    Change(T),
    /// Leave the field as it is.
    NoChange,
    /// Clear the field.
    SetNull,
}

/// The body of a refused request: a message for the user.
#[derive(Clone, Debug)]
pub struct RequestFailed {
    pub msg: String,
}

impl RequestFailed {
    /// The failure as text: its message.
    pub fn to_string(&self) -> (r: String)
        ensures
            r@ == self.msg@,
    {
        self.msg.clone()
    }
}

} // verus!
