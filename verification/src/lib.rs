//! The decision logic of an interactive agent session in a terminal.
pub mod app_state;
pub mod chat;
pub mod closing;
pub mod commands;
pub mod conversation;
pub mod events;
pub mod headers;
pub mod ids;
pub mod json;
pub mod laws;
pub mod laws_models;
pub mod session;
pub mod startup;
pub mod telemetry;
pub mod text;
pub mod usage;
