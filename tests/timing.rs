use gyst::timing::TimeAgo;

#[test]
fn splits_days_hours_minutes() {
    let t = TimeAgo::from_seconds(86400 + 3600 + 60 + 59);
    assert_eq!(t, TimeAgo { days: 1, hours: 1, minutes: 1 });
}

#[test]
fn splits_zero() {
    assert_eq!(TimeAgo::from_seconds(0), TimeAgo { days: 0, hours: 0, minutes: 0 });
}

#[test]
fn splits_ten_days() {
    let t = TimeAgo::from_seconds(10 * 86400 + 5 * 3600);
    assert_eq!(t.days, 10);
    assert_eq!(t.hours, 5);
    assert_eq!(t.minutes, 0);
}

#[test]
fn negative_delta_keeps_bit_pattern() {
    let t = TimeAgo::from_seconds(-(2 * 86400 + 3 * 3600 + 4 * 60));
    assert_eq!(t.days, (-2i64) as u32);
    assert_eq!(t.hours, (-3i64) as u32);
    assert_eq!(t.minutes, (-4i64) as u32);
}

#[test]
fn shows_days_first() {
    assert_eq!(TimeAgo { days: 3, hours: 4, minutes: 5 }.to_string(), "3 days");
}

#[test]
fn shows_hours_without_days() {
    assert_eq!(TimeAgo { days: 0, hours: 4, minutes: 5 }.to_string(), "4 hours");
}

#[test]
fn shows_minutes_otherwise() {
    assert_eq!(TimeAgo { days: 0, hours: 0, minutes: 0 }.to_string(), "0 minutes");
    assert_eq!(TimeAgo { days: 0, hours: 0, minutes: 125 }.to_string(), "125 minutes");
}
