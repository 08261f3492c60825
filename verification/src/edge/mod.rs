pub mod orchestrator;
pub mod protocol;
pub mod routing;
pub mod runner;
pub mod runtime;
