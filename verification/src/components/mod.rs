//! State and text of the interactive parts: the forms, the status bar and
//! the mood chart. Drawing them is the renderer's part.

pub mod modal;
pub mod mood_chart;
pub mod status_bar;

pub use modal::{NewReportField, NewReportState};
pub use mood_chart::{chart_cell, chart_row, chart_window_start};
pub use status_bar::{key_hints, mode_label};
