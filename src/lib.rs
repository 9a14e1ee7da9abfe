use vstd::prelude::*;

pub mod config;
pub mod entities;
pub mod movement;
pub mod collision;
pub mod input;

verus! {

} // verus!
