//! Export pipeline of a blind-test authoring tool: the encoder command and its
//! filter graph, the progress feed of a running export, and the project data
//! around them.

pub mod archive;
pub mod clip;
pub mod command;
pub mod driver;
pub mod error;
pub mod export;
pub mod graph;
pub mod json;
pub mod modals;
pub mod progress;
pub mod project;
pub mod save;
pub mod text;
pub mod timeline;
