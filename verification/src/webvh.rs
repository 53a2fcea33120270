//! The `did:webvh` method: `did:web` with a verifiable history.

use vstd::prelude::*;

pub mod builder;
pub mod integrity;
pub mod laws;
pub mod log;
pub mod params;
pub mod replay;
pub mod resolver;
pub mod time;

verus! {

/// The `did:webvh` method.
pub struct DidWebVh;

} // verus!
