use nflreadrs::utils::{get_current_season, get_current_season_internal, ClockDate};

#[test]
fn test_roster_true_various_dates() {
    let cases = [
        // (year, month, day, expected season)
        (2025, 3, 14, 2024),
        (2025, 3, 15, 2025),
        (2027, 3, 1, 2026),
        (2027, 5, 4, 2027),
    ];

    let roster: Option<bool> = Some(true);

    for (year, month, day, exp) in cases {
        let fake_clock = ClockDate { year, month, day };
        assert_eq!(get_current_season_internal(roster, fake_clock), exp);
    }
}

#[test]
fn test_roster_false_various_dates() {
    let cases = [
        // (year, month, day, expected season)
        (2025, 9, 3, 2024),
        (2025, 9, 4, 2025),
        (2027, 9, 8, 2026),
        (2027, 9, 9, 2027),
    ];

    let roster: Option<bool> = Some(false);

    for (year, month, day, exp) in cases {
        let fake_clock = ClockDate { year, month, day };
        assert_eq!(get_current_season_internal(roster, fake_clock), exp);
    }
}

#[test]
fn test_roster_none_various_dates() {
    let cases = [
        // (year, month, day, expected season)
        (2025, 9, 3, 2024),
        (2025, 9, 4, 2025),
        (2027, 9, 8, 2026),
        (2027, 9, 9, 2027),
    ];

    let roster: Option<bool> = None;

    for (year, month, day, exp) in cases {
        let fake_clock = ClockDate { year, month, day };
        assert_eq!(get_current_season_internal(roster, fake_clock), exp);
    }
}

#[test]
fn test_season_starts_on_labor_day_week_thursday() {
    // Labor Day 2025 is Monday September 1, so the season starts on the
    // first Thursday, September 4; in 2027 Labor Day is September 6, so
    // the season starts on the second Thursday, September 9.
    assert_eq!(get_current_season_internal(None, ClockDate { year: 2025, month: 8, day: 31 }), 2024);
    assert_eq!(get_current_season_internal(None, ClockDate { year: 2025, month: 12, day: 31 }), 2025);
    assert_eq!(get_current_season_internal(None, ClockDate { year: 2027, month: 1, day: 1 }), 2026);
    assert_eq!(get_current_season_internal(None, ClockDate { year: 2026, month: 9, day: 10 }), 2026);
}

#[test]
fn test_current_season_from_real_clock_is_plausible() {
    let roster = Some(true);
    let current_season = get_current_season(roster);
    assert!(current_season >= 2025);
    let season = get_current_season(None);
    assert!(season >= 2024);
}
