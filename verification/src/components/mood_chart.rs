//! The mood history chart as text: one column per mood sample, one row per
//! mood level.

use crate::text::{decimal, push_decimal};
use vstd::prelude::*;

verus! {

/// The mark of a sample of `mood` in the row of `level`: a dot on its own
/// level, a stem below it, nothing above.
pub open spec fn chart_mark(mood: u8, level: u8) -> char {
    if mood == level {
        '●'
    } else if mood > level {
        '│'
    } else {
        ' '
    }
}

/// Where the samples that are shown start: as many of the newest samples
/// as fit into `width` columns, two of which go to the axis.
pub open spec fn chart_start(samples: nat, width: nat) -> nat {
    let room = if width >= 2 {
        (width - 2) as nat
    } else {
        0
    };
    if samples <= room {
        0
    } else {
        (samples - room) as nat
    }
}

/// A row of the chart: the level, the axis, and the mark of each sample.
pub open spec fn chart_row_text(moods: Seq<u8>, level: u8) -> Seq<char> {
    decimal(level as nat).push('│') + Seq::new(moods.len(), |i: int| chart_mark(moods[i], level))
}

/// The mark of a sample of `mood` in the row of `level`
pub fn chart_cell(mood: u8, level: u8) -> (c: char)
    ensures
        c == chart_mark(mood, level),
{
    if mood == level {
        '●'
    } else if mood > level {
        '│'
    } else {
        ' '
    }
}

/// Index of the first of the samples that are shown
pub fn chart_window_start(samples: usize, width: usize) -> (start: usize)
    ensures
        start == chart_start(samples as nat, width as nat),
        start <= samples,
{
    let room: usize = if width >= 2 {
        width - 2
    } else {
        0
    };
    if samples <= room {
        0
    } else {
        samples - room
    }
}

/// A row of the chart
pub fn chart_row(moods: &[u8], level: u8) -> (s: String)
    ensures
        s@ == chart_row_text(moods@, level),
{
    let mut s: String = String::new();
    push_decimal(&mut s, level as u128);
    s.push('│');
    let ghost head = s@;
    proof {
        assert(head =~= decimal(level as nat).push('│'));
        assert(s@ =~= head + Seq::new(0nat, |j: int| chart_mark(moods@[j], level)));
    }
    let mut i: usize = 0;
    while i < moods.len()
        invariant
            i <= moods.len(),
            head == decimal(level as nat).push('│'),
            s@ == head + Seq::new(i as nat, |j: int| chart_mark(moods@[j], level)),
        decreases moods.len() - i,
    {
        s.push(chart_cell(moods[i], level));
        i += 1;
        assert(s@ =~= head + Seq::new(i as nat, |j: int| chart_mark(moods@[j], level)));
    }
    s
}

} // verus!
