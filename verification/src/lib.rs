use vstd::prelude::*;

pub mod bsp;
pub mod cache;
pub mod command;
pub mod destination;
pub mod error;
pub mod launch;
pub mod paths;
pub mod scheme;
pub mod resolve;
pub mod select;
pub mod text;
pub mod workspace;
pub mod xcodebuild;

verus! {

} // verus!
