//! The two messages that a handler deals with.
//!
//! Both are plain values, generic over their body. They carry what a handler
//! of this crate can be seen to read and write, and no more.

use vstd::prelude::*;

verus! {

/// A request: the path it asks for, and a body.
#[derive(Debug, PartialEq, Eq)]
pub struct Request<B> {
    pub path: String,
    pub body: B,
}

/// A response: a body.
#[derive(Debug, PartialEq, Eq)]
pub struct Response<B> {
    pub body: B,
}

impl<B: Clone> Clone for Request<B> {
    /// Copies the path and duplicates the body.
    fn clone(&self) -> (copy: Self)
        ensures
            copy.path == self.path,
            cloned(self.body, copy.body),
    {
        Request { path: self.path.clone(), body: self.body.clone() }
    }
}

impl<B: Clone> Clone for Response<B> {
    /// Duplicates the body.
    fn clone(&self) -> (copy: Self)
        ensures
            cloned(self.body, copy.body),
    {
        Response { body: self.body.clone() }
    }
}

} // verus!
