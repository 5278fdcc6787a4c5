pub mod behavior;
pub mod duration;
pub mod orchestrator;
