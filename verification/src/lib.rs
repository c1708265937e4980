//! Vibe Manager: the state-update engine and scoring rules of a terminal tool
//! that tracks 1-on-1 meetings and mood observations for a manager's reports.
//!
//! The library holds the in-memory model, the message-driven update function
//! and the pure scoring functions. Reading and writing files, drawing and
//! key polling live outside of it; they hand plain values in and carry out the
//! effects that the update function asks for.
//!
//! - [`app`]: the application model, its update function and the key mapping
//! - [`components`]: state of the forms, and the texts of status bar and chart
//! - [`model`]: journal entries, reports, the workspace, and the summaries
//! - [`ranking`]: ranking by score with ties kept in order
//! - [`storage`]: the text of files, and entries on their way to files
//! - [`text`]: character-level helpers
//! - [`theme`]: gauges, icons, relative dates and face sprites as text
//! - [`utils`]: display colors and name slugs

pub mod app;
pub mod components;
pub mod model;
pub mod ranking;
pub mod storage;
pub mod text;
pub mod theme;
pub mod utils;
