//! Looks up the script that a configuration binds to a set and an id for the
//! window that has the focus, and decides how a run of that script starts,
//! stops and is recorded.

pub mod numtext;
pub mod paths;
pub mod text;
pub mod toml_model;
pub mod config;
pub mod run;
pub mod json_model;
pub mod window;
pub mod environment;
