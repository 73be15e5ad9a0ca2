//! Domain model and decision logic of a keyboard-driven NetworkManager client.

pub mod app;
pub mod connection;
pub mod text;
pub mod error;
pub mod nm;
pub mod vpn_plugins;
pub mod cli;
pub mod config;
pub mod settings;
pub mod ui;
