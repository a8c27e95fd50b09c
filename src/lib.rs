//! Per-node worker agent: a verified scheduler that claims fuzzing work,
//! prepares the node, supervises the worker and reports every state change.
pub mod work;
pub mod event;
pub mod scheduler;
pub mod collab;
pub mod agent;
pub mod double;
pub mod done;
pub mod fixture;
