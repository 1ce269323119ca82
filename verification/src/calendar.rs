//! The activity calendar under the notes list: how many weeks fit, where
//! the window of weeks starts, and the glyph of each day.
use vstd::prelude::*;
use crate::config_types::WeekStart;

verus! {

/// The calendar is drawn only in an area of at least 9 rows and 8 columns.
pub fn calendar_fits(width: u16, height: u16) -> (r: bool)
    ensures
        r == (height >= 9 && width >= 8),
{
    height >= 9 && width >= 8
}

/// The number of week columns that fit in `width` columns: the width less
/// the padding (four columns) and the day labels (three), two columns per
/// week, between 1 and 26.
pub open spec fn weeks_for(width: u16) -> u16 {
    let inner: int = if width >= 7 {
        width - 7
    } else {
        0
    };
    let w = inner / 2;
    if w < 1 {
        1
    } else if w > 26 {
        26
    } else {
        w as u16
    }
}

/// The number of week columns that fit in `width` columns.
pub fn calendar_weeks(width: u16) -> (r: u16)
    ensures
        r == weeks_for(width),
        1 <= r <= 26,
{
    let inner = if width >= 7 {
        width - 7
    } else {
        0
    };
    let w = inner / 2;
    if w < 1 {
        1
    } else if w > 26 {
        26
    } else {
        w
    }
}

/// How many days back from today the last week column starts: today's
/// weekday (0 for Sunday) less the first day of the week, modulo 7.
pub fn week_shift(today_weekday: u32, week_start: WeekStart) -> (r: u32)
    requires
        today_weekday < 7,
    ensures
        r == (today_weekday - match week_start {
            WeekStart::Sunday => 0int,
            WeekStart::Monday => 1int,
        }) % 7,
        r < 7,
{
    match week_start {
        WeekStart::Sunday => today_weekday,
        WeekStart::Monday => {
            if today_weekday == 0 {
                6
            } else {
                today_weekday - 1
            }
        },
    }
}

/// The glyph of a day: a full block for today, else by the number of notes
/// changed that day: a dot for none, then light, medium and dark shade for
/// one, two or three, and four or more.
pub open spec fn day_glyph(count: usize, is_today: bool) -> char {
    if is_today {
        '\u{2588}'
    } else if count == 0 {
        '\u{00B7}'
    } else if count == 1 {
        '\u{2591}'
    } else if count <= 3 {
        '\u{2592}'
    } else {
        '\u{2593}'
    }
}

/// The glyph of a day.
pub fn heat_glyph(count: usize, is_today: bool) -> (r: char)
    ensures
        r == day_glyph(count, is_today),
{
    if is_today {
        '\u{2588}'
    } else if count == 0 {
        '\u{00B7}'
    } else if count == 1 {
        '\u{2591}'
    } else if count <= 3 {
        '\u{2592}'
    } else {
        '\u{2593}'
    }
}

/// The labels of the day rows, starting on the first day of the week.
pub fn weekday_labels(week_start: WeekStart) -> (r: [&'static str; 7])
    ensures
        week_start == WeekStart::Sunday ==> r[0]@ == "Su"@ && r[1]@ == "Mo"@ && r[2]@ == "Tu"@
            && r[3]@ == "We"@ && r[4]@ == "Th"@ && r[5]@ == "Fr"@ && r[6]@ == "Sa"@,
        week_start == WeekStart::Monday ==> r[0]@ == "Mo"@ && r[1]@ == "Tu"@ && r[2]@ == "We"@
            && r[3]@ == "Th"@ && r[4]@ == "Fr"@ && r[5]@ == "Sa"@ && r[6]@ == "Su"@,
{
    match week_start {
        WeekStart::Sunday => ["Su", "Mo", "Tu", "We", "Th", "Fr", "Sa"],
        WeekStart::Monday => ["Mo", "Tu", "We", "Th", "Fr", "Sa", "Su"],
    }
}

} // verus!
