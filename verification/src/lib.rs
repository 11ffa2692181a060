//! Engine-versus-engine chess matches over the UCI protocol: the protocol
//! session, the match orchestrator and the match registry, as verified logic
//! that a driver feeds with what the engine processes wrote.

pub mod api;
pub mod config;
pub mod domain;
pub mod engine;
pub mod match_runner;
pub mod registry;
pub mod rules;
pub mod server;
pub mod text;
pub mod uci;
