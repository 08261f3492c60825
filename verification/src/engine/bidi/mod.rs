pub mod client;
pub mod events;
pub mod types;
