//! The capability that a message body has.

use vstd::prelude::*;

verus! {

/// Marks a type as the body of a request or of a response.
///
/// Handlers are generic over the bodies they read and write. How a body is
/// framed, streamed or measured is the business of the type that carries
/// this mark, and of the runtime that moves it: nothing in this crate looks
/// inside one.
pub trait Body {

}

impl Body for String {

}

impl Body for Vec<u8> {

}

impl Body for () {

}

} // verus!
