//! A cross-shell prompt: each module decides from a shared context whether it
//! is relevant in the current directory, and the relevant ones are rendered
//! into one styled line.

pub mod style;
pub mod text;
pub mod probe;
pub mod json;
pub mod path;
pub mod module;
pub mod context;
pub mod modules;
pub mod prompt;
