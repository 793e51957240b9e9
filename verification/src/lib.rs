//! A local project and task tracker: the task model, the interactive
//! session's state machine, and the rules behind the command line.

pub mod calendar;
pub mod config;
pub mod crypto;
pub mod driver;
pub mod export;
pub mod filter;
pub mod listing;
pub mod model;
pub mod project;
pub mod render;
pub mod selection;
pub mod session;
pub mod sync;
pub mod tasklist;
pub mod text;
