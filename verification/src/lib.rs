use vstd::prelude::*;

pub mod assertions;
pub mod binary_manager;
pub mod clock;
pub mod component;
pub mod edge;
pub mod encoding;
pub mod engine;
pub mod error;
pub mod events;
pub mod ids;
pub mod injection;
pub mod json;
pub mod keyed;
pub mod locator;
pub mod migrate;
pub mod network;
pub mod plugin;
pub mod reporters;
pub mod text;

verus! {

} // verus!
