//! Plain data of the world/scene collaborator.  The scene simulation itself
//! is a content producer outside the engine; the engine only carries its
//! data.

use vstd::prelude::*;

verus! {

/// A display name attached to a scene entity.
#[derive(Debug, PartialEq, Eq)]
pub struct Name(pub String);

} // verus!
