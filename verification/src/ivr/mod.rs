//! IVR topology execution: the JSON configuration model, the topology graph
//! and per-call context, the node executors and the engine's step decision.
pub mod json;
pub mod types;
pub mod order;
pub mod executors;
pub mod engine;
pub mod menu;
