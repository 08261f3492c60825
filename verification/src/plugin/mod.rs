pub mod discovery;
pub mod registry;
