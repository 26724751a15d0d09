//! The prompts given to the agents that plan the work.

pub mod master;
