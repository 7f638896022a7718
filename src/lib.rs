//! Core of a host telemetry agent: the registry of collectors and commands,
//! the debounce cache of process-backed collectors, and the announcement,
//! state and command protocol that maps local entities onto broker topics.

pub mod builtin;
pub mod cache;
pub mod collector;
pub mod command;
pub mod config;
pub mod discovery;
pub mod homeassistant;
pub mod http;
pub mod logging;
pub mod manager;
pub mod mqtt;
pub mod order;
pub mod pull;
pub mod topic;
