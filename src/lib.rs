use vstd::prelude::*;

pub mod accelerate;
pub mod geometry;
pub mod health;
pub mod input;
pub mod laws;
pub mod movement;
pub mod physics;
pub mod resolve;
pub mod world;

verus! {

} // verus!
