//! Face sprites for report avatars, as lines of text.
//!
//! - Frame style indicates level (P1-P5, M1-M5)
//! - Face expression indicates mood (1-5)
//! - Floating z's indicate overdue status

use crate::model::computed::ReportSummary;
use crate::text::same_text;
use vstd::prelude::*;
use vstd::string::StringExecFns;

verus! {

/// `level` names exactly `name`.
pub open spec fn level_is(level: Option<Seq<char>>, name: Seq<char>) -> bool {
    level == Some(name)
}

/// The view of an optional level name.
pub open spec fn level_view(level: Option<&str>) -> Option<Seq<char>> {
    match level {
        Some(l) => Some(l@),
        None => None,
    }
}

/// Top border of the frame for a level.
pub open spec fn frame_top_text(level: Option<Seq<char>>) -> Seq<char> {
    if level_is(level, "P1"@) || level_is(level, "M1"@) {
        "╭─────╮"@
    } else if level_is(level, "P2"@) || level_is(level, "M2"@) {
        "┌─────┐"@
    } else if level_is(level, "P3"@) || level_is(level, "M3"@) || level_is(level, "M4"@)
        || level_is(level, "M5"@) {
        "╔═════╗"@
    } else if level_is(level, "P4"@) {
        "╔══★══╗"@
    } else if level_is(level, "P5"@) {
        "╔═★═★═╗"@
    } else {
        "╭─────╮"@
    }
}

/// Side border of the frame for a level: light for the first two levels of
/// either track, double for every other level.
pub open spec fn frame_side_text(level: Option<Seq<char>>) -> Seq<char> {
    if level_is(level, "P1"@) || level_is(level, "P2"@) || level_is(level, "M1"@) || level_is(
        level,
        "M2"@,
    ) {
        "│"@
    } else {
        "║"@
    }
}

/// Bottom border of the frame for a level.
pub open spec fn frame_bottom_text(level: Option<Seq<char>>) -> Seq<char> {
    if level_is(level, "P1"@) || level_is(level, "M1"@) {
        "╰─────╯"@
    } else if level_is(level, "P2"@) || level_is(level, "M2"@) {
        "└─────┘"@
    } else {
        "╚═════╝"@
    }
}

/// The headband of a manager level; other levels have none.
pub open spec fn headband_text(level: Option<Seq<char>>) -> Option<Seq<char>> {
    if level_is(level, "M1"@) {
        Some("│──◇──│"@)
    } else if level_is(level, "M2"@) {
        Some("│══◆══│"@)
    } else if level_is(level, "M3"@) {
        Some("║══★══║"@)
    } else if level_is(level, "M4"@) {
        Some("║═★═★═║"@)
    } else if level_is(level, "M5"@) {
        Some("║★═★═★║"@)
    } else {
        None
    }
}

/// Whether a level is one of M1 to M5.
pub open spec fn is_manager_level(level: Option<Seq<char>>) -> bool {
    level_is(level, "M1"@) || level_is(level, "M2"@) || level_is(level, "M3"@) || level_is(
        level,
        "M4"@,
    ) || level_is(level, "M5"@)
}

/// The face for a mood; an overdue report looks sleepy whatever its mood.
pub open spec fn face_text(mood: Option<u8>, is_overdue: bool) -> Seq<char> {
    if is_overdue {
        "-_-"@
    } else if mood == Some(5u8) {
        "^‿^"@
    } else if mood == Some(4u8) {
        "◕‿◕"@
    } else if mood == Some(2u8) {
        "◦︵◦"@
    } else if mood == Some(1u8) {
        "x_x"@
    } else {
        "•_•"@
    }
}

fn names(level: Option<&str>, name: &str) -> (r: bool)
    ensures
        r == level_is(level_view(level), name@),
{
    match level {
        Some(l) => same_text(l, name),
        None => false,
    }
}

/// Frame top based on level (IC and Manager tracks)
pub fn frame_top(level: Option<&str>) -> (s: &'static str)
    ensures
        s@ == frame_top_text(level_view(level)),
{
    if names(level, "P1") || names(level, "M1") {
        "╭─────╮"
    } else if names(level, "P2") || names(level, "M2") {
        "┌─────┐"
    } else if names(level, "P3") || names(level, "M3") || names(level, "M4") || names(level, "M5") {
        "╔═════╗"
    } else if names(level, "P4") {
        "╔══★══╗"
    } else if names(level, "P5") {
        "╔═★═★═╗"
    } else {
        "╭─────╮"
    }
}

/// Frame middle borders (left, right) based on level
pub fn frame_mid(level: Option<&str>) -> (r: (&'static str, &'static str))
    ensures
        r.0@ == frame_side_text(level_view(level)),
        r.1@ == frame_side_text(level_view(level)),
{
    if names(level, "P1") || names(level, "P2") || names(level, "M1") || names(level, "M2") {
        ("│", "│")
    } else {
        ("║", "║")
    }
}

/// Frame bottom based on level
pub fn frame_bottom(level: Option<&str>) -> (s: &'static str)
    ensures
        s@ == frame_bottom_text(level_view(level)),
{
    if names(level, "P1") || names(level, "M1") {
        "╰─────╯"
    } else if names(level, "P2") || names(level, "M2") {
        "└─────┘"
    } else {
        "╚═════╝"
    }
}

/// Headband line for manager avatars (M1-M5)
/// Returns None for ICs, Some(headband) for managers
pub fn headband_line(level: Option<&str>) -> (r: Option<&'static str>)
    ensures
        level_view(r) == headband_text(level_view(level)),
{
    if names(level, "M1") {
        Some("│──◇──│")
    } else if names(level, "M2") {
        Some("│══◆══│")
    } else if names(level, "M3") {
        Some("║══★══║")
    } else if names(level, "M4") {
        Some("║═★═★═║")
    } else if names(level, "M5") {
        Some("║★═★═★║")
    } else {
        None
    }
}

/// Check if a level is a manager (M-track)
pub fn is_manager(level: Option<&str>) -> (r: bool)
    ensures
        r == is_manager_level(level_view(level)),
{
    names(level, "M1") || names(level, "M2") || names(level, "M3") || names(level, "M4") || names(
        level,
        "M5",
    )
}

/// Face expressions based on mood
pub fn face(mood: Option<u8>, is_overdue: bool) -> (s: &'static str)
    ensures
        s@ == face_text(mood, is_overdue),
{
    if is_overdue {
        return "-_-";
    }
    match mood {
        Some(5) => "^‿^",
        Some(4) => "◕‿◕",
        Some(2) => "◦︵◦",
        Some(1) => "x_x",
        _ => "•_•",
    }
}

/// Data for rendering a face sprite
#[derive(Debug, Clone, Copy)]
pub struct FaceSprite<'a> {
    pub level: Option<&'a str>,
    pub mood: Option<u8>,
    pub is_overdue: bool,
    pub days_since_meeting: Option<i64>,
}

/// The line with the face between the side borders. The face for mood 2
/// holds a wide character and stands one place further left.
pub open spec fn face_line_text(level: Option<Seq<char>>, mood: Option<u8>, is_overdue: bool) -> Seq<
    char,
> {
    let side = frame_side_text(level);
    if mood == Some(2u8) {
        side + face_text(mood, is_overdue) + " "@ + side
    } else {
        side + " "@ + face_text(mood, is_overdue) + " "@ + side
    }
}

/// An overdue report that has not been met for more than 14 days.
pub open spec fn is_very_overdue(days_since_meeting: Option<i64>) -> bool {
    match days_since_meeting {
        Some(d) => d > 14,
        None => false,
    }
}

/// `line` as it stands in the sprite of an overdue report: padded on the
/// left and with `tail` behind it.
pub open spec fn padded(very: bool, line: Seq<char>, tail: Seq<char>, wide_tail: Seq<char>) -> Seq<
    char,
> {
    if very {
        "   "@ + line + wide_tail
    } else {
        "  "@ + line + tail
    }
}

/// The lines of a sprite: top frame, headband for managers, face, bottom
/// frame. An overdue report has its lines padded and z's floating beside
/// them, more of them after 14 days.
pub open spec fn sprite_lines(
    level: Option<Seq<char>>,
    mood: Option<u8>,
    is_overdue: bool,
    days_since_meeting: Option<i64>,
) -> Seq<Seq<char>> {
    let very = is_very_overdue(days_since_meeting);
    let top = if is_overdue {
        padded(very, frame_top_text(level), " z"@, " zZ"@)
    } else {
        frame_top_text(level)
    };
    let face_line = if is_overdue {
        padded(very, face_line_text(level, mood, is_overdue), " Z"@, "ZzZ"@)
    } else {
        face_line_text(level, mood, is_overdue)
    };
    let bottom = if is_overdue {
        padded(very, frame_bottom_text(level), "  "@, "   "@)
    } else {
        frame_bottom_text(level)
    };
    match headband_text(level) {
        Some(band) => seq![
            top,
            if is_overdue {
                padded(very, band, " z"@, " zZ"@)
            } else {
                band
            },
            face_line,
            bottom,
        ],
        None => seq![top, face_line, bottom],
    }
}

/// The views of the lines.
pub open spec fn lines_view(lines: Seq<String>) -> Seq<Seq<char>> {
    Seq::new(lines.len(), |i: int| lines[i]@)
}

fn pad_line(very: bool, line: &str, tail: &str, wide_tail: &str) -> (s: String)
    ensures
        s@ == padded(very, line@, tail@, wide_tail@),
{
    if very {
        String::from_str("   ").concat(line).concat(wide_tail)
    } else {
        String::from_str("  ").concat(line).concat(tail)
    }
}

impl<'a> FaceSprite<'a> {
    /// Create from a ReportSummary
    pub fn from_summary(summary: &'a ReportSummary) -> (f: FaceSprite<'a>)
        ensures
            level_view(f.level) == Some(summary.level@),
            f.mood == summary.recent_mood,
            f.is_overdue == summary.is_overdue,
            f.days_since_meeting == summary.days_since_meeting,
    {
        FaceSprite {
            level: Some(summary.level.as_str()),
            mood: summary.recent_mood,
            is_overdue: summary.is_overdue,
            days_since_meeting: summary.days_since_meeting,
        }
    }

    /// Generate the lines of the face sprite
    /// ICs are 3 lines: top frame, face, bottom frame
    /// Managers are 4 lines: top frame, headband, face, bottom frame
    pub fn lines(&self) -> (r: Vec<String>)
        ensures
            lines_view(r@) == sprite_lines(
                level_view(self.level),
                self.mood,
                self.is_overdue,
                self.days_since_meeting,
            ),
            r@.len() == self.line_count_spec(),
    {
        let frame_top_str: &str = frame_top(self.level);
        let frame_bottom_str: &str = frame_bottom(self.level);
        let (left, right) = frame_mid(self.level);
        let face_expr: &str = face(self.mood, self.is_overdue);
        let wide: bool = match self.mood {
            Some(2) => true,
            _ => false,
        };
        let face_line: String = if wide {
            String::from_str(left).concat(face_expr).concat(" ").concat(right)
        } else {
            String::from_str(left).concat(" ").concat(face_expr).concat(" ").concat(right)
        };
        let headband: Option<&str> = headband_line(self.level);
        let very: bool = match self.days_since_meeting {
            Some(d) => d > 14,
            None => false,
        };
        let mut result: Vec<String> = Vec::new();
        if !self.is_overdue {
            result.push(String::from_str(frame_top_str));
            match headband {
                Some(hb) => {
                    result.push(String::from_str(hb));
                },
                None => {},
            }
            result.push(face_line);
            result.push(String::from_str(frame_bottom_str));
        } else {
            result.push(pad_line(very, frame_top_str, " z", " zZ"));
            match headband {
                Some(hb) => {
                    result.push(pad_line(very, hb, " z", " zZ"));
                },
                None => {},
            }
            result.push(pad_line(very, face_line.as_str(), " Z", "ZzZ"));
            result.push(pad_line(very, frame_bottom_str, "  ", "   "));
        }
        proof {
            assert(lines_view(result@) =~= sprite_lines(
                level_view(self.level),
                self.mood,
                self.is_overdue,
                self.days_since_meeting,
            ));
        }
        result
    }

    /// Number of lines of the sprite: four for a manager level, else three.
    pub open spec fn line_count_spec(&self) -> int {
        if is_manager_level(level_view(self.level)) {
            4
        } else {
            3
        }
    }

    /// Returns the number of lines this sprite will produce
    pub fn line_count(&self) -> (n: u16)
        ensures
            n == self.line_count_spec(),
    {
        if is_manager(self.level) {
            4
        } else {
            3
        }
    }
}

} // verus!
