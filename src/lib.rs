use vstd::prelude::*;

pub mod config;
pub mod enums;
pub mod error;
pub mod page;
pub mod plugin;
pub mod render;
pub mod types;

verus! {

} // verus!
