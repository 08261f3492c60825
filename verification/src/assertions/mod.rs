pub mod engine;
pub mod matchers;
