use nflreadrs::stats::{PlayByPlay, PlayerStats, Players, Schedules, SummaryLevel, TeamStats, Teams};
use nflreadrs::utils::{get_current_season, ClockDate};
use nflreadrs::Error;
use url::Url;

#[test]
fn test_correct_url_various_seasons_and_summary_levels() {
    let cases = [
        // (summary level, season, expected url ending)
        (SummaryLevel::Post, 2035, "post_2035"),
        (SummaryLevel::Reg, 2005, "reg_2005"),
        (SummaryLevel::Week, 2017, "week_2017"),
        (SummaryLevel::RegPost, 2011, "regpost_2011"),
    ];
    let base = "https://github.com/nflverse/nflverse-data/releases/download/stats_team/stats_team_";

    for (sum_lvl, season, exp) in cases {
        let team_stats = TeamStats::new(Some(vec![season]), sum_lvl);
        let expected_url = Url::parse(&format!("{}{}.csv", base, exp)).unwrap();
        assert_eq!(team_stats.url().unwrap(), expected_url);
    }
}

#[test]
fn test_correct_url_seasons_none() {
    let base = "https://github.com/nflverse/nflverse-data/releases/download/stats_team/stats_team_";
    let team_stats = TeamStats::new(None, SummaryLevel::RegPost);
    let expected_url =
        Url::parse(&format!("{}regpost_{}.csv", base, get_current_season(None))).unwrap();
    assert_eq!(team_stats.url().unwrap(), expected_url);
}

#[test]
fn test_correct_url_season_vec() {
    let team_stats = TeamStats::new(Some(vec![2000, 2012]), SummaryLevel::Post);
    let url = team_stats.url();
    assert!(url.is_err());
}

#[test]
fn test_correct_url_various_seasons() {
    let cases = [(2025, "2025.csv"), (2006, "2006.csv")];

    for (season, exp) in cases {
        let play_by_play = PlayByPlay::new(Some(season));
        let expected =
            Url::parse(&format!("{}play_by_play_{}", play_by_play.base_url, exp)).unwrap();
        assert_eq!(play_by_play.url().unwrap(), expected);
    }
}

#[test]
fn stats_test_correct_url_seasons_none() {
    let base = "https://github.com/nflverse/nflverse-data/releases/download/pbp/";
    let play_by_play = PlayByPlay::new(None);
    let expected_url =
        Url::parse(&format!("{}play_by_play_{}.csv", base, get_current_season(None))).unwrap();
    assert_eq!(play_by_play.url().unwrap(), expected_url);
}

#[test]
fn stats_test_correct_url_various_seasons_and_summary_levels() {
    let cases = [
        // (summary level, season, expected url ending)
        (SummaryLevel::Post, 2035, "post_2035"),
        (SummaryLevel::Reg, 2005, "reg_2005"),
        (SummaryLevel::Week, 2017, "week_2017"),
        (SummaryLevel::RegPost, 2011, "regpost_2011"),
    ];
    let base =
        "https://github.com/nflverse/nflverse-data/releases/download/stats_player/stats_player_";

    for (sum_lvl, season, exp) in cases {
        let team_stats = PlayerStats::new(Some(season), sum_lvl);
        let expected_url = Url::parse(&format!("{}{}.csv", base, exp)).unwrap();
        assert_eq!(team_stats.url().unwrap(), expected_url);
    }
}

#[test]
fn player_stats_test_correct_url_seasons_none() {
    let base =
        "https://github.com/nflverse/nflverse-data/releases/download/stats_player/stats_player_";
    let team_stats = PlayerStats::new(None, SummaryLevel::RegPost);
    let expected_url =
        Url::parse(&format!("{}regpost_{}.csv", base, get_current_season(None))).unwrap();
    assert_eq!(team_stats.url().unwrap(), expected_url);
}

#[test]
fn test_multi_season_error_is_unsupported_multi_season() {
    for sum_lvl in [
        SummaryLevel::Week,
        SummaryLevel::Reg,
        SummaryLevel::Post,
        SummaryLevel::RegPost,
    ] {
        let team_stats = TeamStats::new(Some(vec![2019, 2020, 2021]), sum_lvl);
        assert_eq!(team_stats.url().unwrap_err(), Error::UnsupportedMultiSeason);
    }
}

#[test]
fn test_empty_season_vec_matches_seasons_none() {
    let team_stats = TeamStats::new(Some(vec![]), SummaryLevel::Week);
    let defaulted = TeamStats::new(None, SummaryLevel::Week);
    assert_eq!(team_stats.url().unwrap(), defaulted.url().unwrap());
}

#[test]
fn test_schedules_url_is_fixed() {
    let expected = Url::parse(
        "https://github.com/nflverse/nflverse-data/releases/download/schedules/games.csv",
    )
    .unwrap();
    assert_eq!(Schedules::new().url().unwrap(), expected);
    assert_eq!(Schedules::new().url().unwrap(), expected);
}

#[test]
fn test_teams_url_is_fixed() {
    let expected = Url::parse(
        "https://github.com/nflverse/nflverse-data/releases/download/teams/teams_colors_logos.csv",
    )
    .unwrap();
    assert_eq!(Teams::new().url().unwrap(), expected);
    assert_eq!(Teams::new().url().unwrap(), expected);
}

#[test]
fn test_players_url_is_fixed() {
    let expected = Url::parse(
        "https://github.com/nflverse/nflverse-data/releases/download/players/players.csv",
    )
    .unwrap();
    assert_eq!(Players::new().url().unwrap(), expected);
    assert_eq!(Players::new().url().unwrap(), expected);
}

#[test]
fn test_negative_season_renders_with_sign() {
    let play_by_play = PlayByPlay::new(Some(-5));
    let expected = Url::parse(
        "https://github.com/nflverse/nflverse-data/releases/download/pbp/play_by_play_-5.csv",
    )
    .unwrap();
    assert_eq!(play_by_play.url().unwrap(), expected);
}

#[test]
fn test_default_season_resolution_on_fixed_dates() {
    // Season start 2025 is Thursday September 4: the day before it the
    // defaulted season is still 2024, from the day on it is 2025.
    let eve = ClockDate { year: 2025, month: 9, day: 3 };
    let start = ClockDate { year: 2025, month: 9, day: 4 };

    let play_by_play = PlayByPlay::new(None);
    let base = "https://github.com/nflverse/nflverse-data/releases/download/pbp/";
    assert_eq!(
        play_by_play.url_on(eve).unwrap(),
        Url::parse(&format!("{}play_by_play_2024.csv", base)).unwrap()
    );
    assert_eq!(
        play_by_play.url_on(start).unwrap(),
        Url::parse(&format!("{}play_by_play_2025.csv", base)).unwrap()
    );

    let team_stats = TeamStats::new(None, SummaryLevel::Week);
    let base = "https://github.com/nflverse/nflverse-data/releases/download/stats_team/";
    assert_eq!(
        team_stats.url_on(eve).unwrap(),
        Url::parse(&format!("{}stats_team_week_2024.csv", base)).unwrap()
    );

    let player_stats = PlayerStats::new(None, SummaryLevel::Post);
    let base = "https://github.com/nflverse/nflverse-data/releases/download/stats_player/";
    assert_eq!(
        player_stats.url_on(start).unwrap(),
        Url::parse(&format!("{}stats_player_post_2025.csv", base)).unwrap()
    );
}
