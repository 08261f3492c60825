pub mod pool;
pub mod mount;
