//! A terminal browser for pull requests: a recursive pane layout engine, a
//! key-to-event table, list and detail views, a controller with a
//! navigation history, and a line-command console over a deferred renderer.
//! Everything that is drawn is returned as text for the caller to write.

pub mod app;
pub mod console;
pub mod events;
pub mod gh;
pub mod layout;
pub mod mock;
pub mod models;
pub mod palette;
pub mod term;
pub mod text;
pub mod views;
