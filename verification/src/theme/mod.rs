//! The retro look in text: gauges, icons, relative dates and face sprites.
//! Colors are named here; turning them into terminal styles is the
//! renderer's part.

pub mod rpg;
pub mod sprites;

pub use rpg::{
    active_icon, decorate_days_ago, double_separator, format_days_ago, format_days_since,
    format_meeting_frequency, mood_color, mood_gauge, mood_gauge_with_value, mood_trend_icon,
    overdue_color, overdue_icon, progress_bar, separator,
};
pub use sprites::{face, frame_bottom, frame_mid, frame_top, headband_line, is_manager, FaceSprite};
