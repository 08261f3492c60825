pub mod stealth;
pub mod manager;
pub mod bindings;
