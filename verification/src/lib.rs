//! The core of a pipeline in which a planning agent turns a request into a
//! graph of tasks and worker agents carry the tasks out: the workflow
//! engine with its state machines, the wire format of its API, the files
//! of a session, the routing of agent roles to models, and the smaller
//! pieces around them.
//!
//! Every function states what it returns or changes, and the statement is
//! proved. What is taken on trust from the `toml` and `serde_json` crates
//! is gathered in [`toml_document`] and [`api::json`]; [`text`] says what
//! `String::push` does. Nothing here reads the disk, the clock, the
//! terminal or the environment; the caller does, and hands over what was
//! read.

pub mod agent;
pub mod agent_models;
pub mod api;
pub mod artifact_io;
pub mod default_config;
pub mod deterministic;
pub mod events;
pub mod session_store;
pub mod subagents;
pub mod text;
pub mod text_layout;
pub mod theme;
pub mod toml_document;
pub mod workflow;
