//! A tool-calling agent loop: response normalization, the tool registry,
//! the loop controller, the transcript and the interactive front end,
//! each stated and proved as a state machine over plain values.

pub mod text;
pub mod yaml;
pub mod json;
pub mod normalize;
pub mod tools;
pub mod args;
pub mod transcript;
pub mod history;
pub mod prompt;
pub mod controller;
pub mod laws;
pub mod output;
pub mod tui;
pub mod frontend;
