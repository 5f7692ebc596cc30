pub mod builder;
pub mod engine;
pub mod limiter;
pub mod orchestrator;
pub mod records;
