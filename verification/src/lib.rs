//! iota: the logic of an agent command line.

pub mod agents;
pub mod app;
pub mod chat;
pub mod cmd;
pub mod color;
pub mod config;
pub mod double;
pub mod headless;
pub mod host;
pub mod json;
pub mod laws;
pub mod map;
pub mod message;
pub mod provider;
pub mod session;
pub mod size;
pub mod text;
pub mod yaml;
