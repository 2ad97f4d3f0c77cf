/// Executor action chains and how a project's setup and cleanup scripts compose.
pub mod action;
/// Workflow policy, application settings and their defaults.
pub mod config;
/// Custom agents: their commands, spawn strategy, normaliser and control protocol.
pub mod custom_agent;
/// Execution processes: starting, finalising, chaining, recovery and conflict probes.
pub mod execution;
/// Log items, the in-memory log store, persistence and replay.
pub mod log;
/// Task statuses, the transition table and the review result handlers.
pub mod task;
