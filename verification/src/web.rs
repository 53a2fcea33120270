//! The `did:web` method, which rests trust on a web domain.

use vstd::prelude::*;

pub mod resolver;

verus! {

/// The `did:web` method.
pub struct DidWeb;

} // verus!
