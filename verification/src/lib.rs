//! Core logic of a desktop translation assistant: a character-range language
//! detector, a model-fallback translation orchestrator against a local
//! inference server, a health probe over the server's model catalog, a
//! bounded on-disk translation history, file-content preparation helpers,
//! and a double-tap gesture debouncer.
//!
//! All I/O (HTTP, filesystem, clipboard, key hooks) lives outside this
//! library; the modules here hold the decisions, data and contracts.

pub mod files;
pub mod gesture;
pub mod health;
pub mod history;
pub mod lang;
pub mod orchestrator;
pub mod text;
