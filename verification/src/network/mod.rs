pub mod pattern;
pub mod proxy;
pub mod route;
pub mod events;
pub mod listeners;
