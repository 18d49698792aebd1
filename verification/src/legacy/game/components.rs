//! Components that the first version's entities carry.
use vstd::prelude::*;

pub use crate::shared::components::{Player, Position};

verus! {

/// Whether the entity is allowed to move
#[derive(Debug, Clone, Copy, PartialEq, Eq)]
pub struct Movable {}

} // verus!
