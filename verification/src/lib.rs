//! Turns web pages into Markdown for automated readers: the decisions of an
//! HTTP component that fetches an origin page named in a request header,
//! follows redirects, relays what is not HTML and converts what is.

use vstd::prelude::*;

pub mod body;
pub mod failure;
pub mod fetch;
pub mod forward;
pub mod origin;
pub mod text;

verus! {

/// Largest HTML document, in bytes, that is buffered for conversion.
pub const MAX_BODY_SIZE: usize = 10 * 1024 * 1024;

/// Most redirects that are followed before the fetch is given up.
pub const MAX_REDIRECTS: usize = 10;

} // verus!
