//! A polkit-style authentication agent's core: the session manager that
//! tracks authorization requests by cookie and brings each to exactly one
//! outcome, together with the agent's configuration rules.

pub mod config;
pub mod event;
pub mod helper;
pub mod invariants;
pub mod json;
pub mod manager;
pub mod model;
pub mod session;
pub mod settings;
pub mod subject;
pub mod text;
