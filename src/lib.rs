use vstd::prelude::*;

pub mod models;
pub mod pipe;
pub mod registry;
pub mod session;
pub mod signaling;

verus! {

} // verus!
