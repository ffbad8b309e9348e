//! Batch media optimization core: a resource-classified scheduler, a
//! crash-tolerant idempotency ledger, a deterministic output-path resolver,
//! and a structured progress/event protocol.
//!
//! This crate holds the verified orchestration logic. The surrounding
//! process (argument handling, file discovery, encoder subprocesses) feeds
//! it plain values and carries out the actions it decides on.

pub mod commands;
pub mod config;
pub mod error;
pub mod events;
pub mod file_manager;
pub mod ledger;
pub mod orchestrator;
pub mod paths;
pub mod platform;
pub mod pipeline;
pub mod progress;
pub mod resize;
pub mod resolver;
pub mod scheduler;
pub mod stats;
pub mod tool_resolver;
pub mod text;
pub mod utils;
pub mod video;
