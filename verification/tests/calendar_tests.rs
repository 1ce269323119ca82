use clin::calendar::{calendar_fits, calendar_weeks, heat_glyph, week_shift, weekday_labels};
use clin::config_types::WeekStart;

#[test]
fn weeks_fit_the_width() {
    assert_eq!(calendar_weeks(0), 1);
    assert_eq!(calendar_weeks(8), 1);
    assert_eq!(calendar_weeks(47), 20);
    assert_eq!(calendar_weeks(200), 26);
    assert!(calendar_fits(8, 9));
    assert!(!calendar_fits(7, 9));
    assert!(!calendar_fits(80, 8));
}

#[test]
fn window_starts_on_the_first_weekday() {
    // Wednesday is 3.
    assert_eq!(week_shift(3, WeekStart::Sunday), 3);
    assert_eq!(week_shift(3, WeekStart::Monday), 2);
    assert_eq!(week_shift(0, WeekStart::Monday), 6);
    assert_eq!(weekday_labels(WeekStart::Monday), ["Mo", "Tu", "We", "Th", "Fr", "Sa", "Su"]);
    assert_eq!(weekday_labels(WeekStart::Sunday)[0], "Su");
}

#[test]
fn day_glyphs_by_activity() {
    assert_eq!(heat_glyph(0, false), '\u{00B7}');
    assert_eq!(heat_glyph(1, false), '\u{2591}');
    assert_eq!(heat_glyph(3, false), '\u{2592}');
    assert_eq!(heat_glyph(9, false), '\u{2593}');
    assert_eq!(heat_glyph(0, true), '\u{2588}');
}
