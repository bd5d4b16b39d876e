//! Verified core of an event-driven engine: collectors produce events,
//! strategies turn events into actions, and executors carry actions out.
//!
//! This crate holds the parts that compute and decide: the engine's
//! configuration, the order in which a run starts its tasks, what the task
//! loops do with each value they receive, how submitters and collectors
//! transform what passes through them, and the routes that hold executors
//! (their dispatch, which awaits the executor, is part of the runtime around
//! this crate).

pub mod action_submitter;
pub mod collector;
pub mod engine;
pub mod tasks;
pub mod types;

pub use action_submitter::{ActionSubmitterMap, DispatchSubmitter};
pub use collector::IntervalCollector;
pub use engine::{
    Engine, EngineCall, EngineError, EngineParts, RunPlan, RunStep, DEFAULT_EVENT_CHANNEL_CAPACITY,
};
pub use tasks::{collector_step, strategy_step, CollectorStep, Received, StrategyStep};
pub use types::{ActionSubmitter, CollectorFilterMap, CollectorMap, Extract, Route, Routes};
