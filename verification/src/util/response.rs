//! The answer to a lookup.

use vstd::prelude::*;

verus! {

/// Whether a lookup found something, and the text that says what.
#[derive(Debug)]
pub struct Response {
    pub is_ok: bool,
    pub content: String,
}

impl Response {
    pub fn new(is_ok: bool, content: String) -> (response: Response)
        ensures
            response.is_ok == is_ok,
            response.content == content,
    {
        Response { is_ok, content }
    }
}

} // verus!
