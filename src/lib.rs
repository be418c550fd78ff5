//! Command staging and dispatch engine of an interactive client for a
//! federated search query language: credential classification, command
//! routing, multi-line input staging and response decoding.

pub mod text;
pub mod token;
pub mod command;
pub mod input;
pub mod json;
pub mod api;
pub mod render;
pub mod dispatch;
pub mod config;
pub mod args;
pub mod session;
