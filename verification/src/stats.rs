//! Generate configuration for a wanted download.
//!
//! Each descriptor knows how to resolve itself to the URL of one file
//! on the fixed release host. The path templates are
//! `…/stats_team/stats_team_<level>_<season>.csv`,
//! `…/stats_player/stats_player_<level>_<season>.csv`,
//! `…/pbp/play_by_play_<season>.csv`, and one fixed file each for
//! schedules, teams and players.
use vstd::prelude::*;
use vstd::string::StringExecFns;

use crate::digits::{int_chars, int_to_string};
use crate::utils::{
    current_season, get_current_season_internal, regular_season, today_eastern, valid_clock_date,
    ClockDate,
};
use crate::Error;

verus! {

/// Relies on the `url` crate: `url::Url` values carry a parsed absolute
/// URL and are only constructed and compared here, never inspected.
#[verifier::external_type_specification]
#[verifier::external_body]
pub struct ExUrl(url::Url);

/// Relies on the `url` crate: `url::ParseError` is its parse-failure
/// enum; the library maps it to [`Error::InvalidUrl`].
#[verifier::external_type_specification]
#[verifier::external_body]
pub struct ExParseError(url::ParseError);

/// What `url::Url::parse` returns for a given input string: the parse
/// is a function of the characters alone.
pub uninterp spec fn url_parse_of(s: Seq<char>) -> Result<url::Url, url::ParseError>;

/// Relies on `url::Url::parse`: parses an absolute URL from a string,
/// returning `Err` when the string is not one; the result depends on
/// the input string alone.
#[verifier::external_body]
fn parse_url_str(s: &str) -> (r: Result<url::Url, url::ParseError>)
    ensures
        r == url_parse_of(s@),
{
    url::Url::parse(s)
}

/// The resolution outcome for a finished URL string: the parsed URL, or
/// [`Error::InvalidUrl`] when the string does not parse.
pub open spec fn url_result_of(chars: Seq<char>) -> Result<url::Url, Error> {
    match url_parse_of(chars) {
        Ok(u) => Ok(u),
        Err(_) => Err(Error::InvalidUrl),
    }
}

/// Parses a finished URL string, mapping a parse failure to
/// [`Error::InvalidUrl`].
fn parse_resolved(s: &String) -> (r: Result<url::Url, Error>)
    ensures
        r == url_result_of(s@),
{
    match parse_url_str(s.as_str()) {
        Ok(u) => Ok(u),
        Err(_) => Err(Error::InvalidUrl),
    }
}

/// Summary levels describing the scope of the data.
///
/// Some stat downloaders need a specified scope.
#[derive(Clone, Copy, Debug, PartialEq, Eq, Structural)]
pub enum SummaryLevel {
    Week,
    Reg,
    Post,
    RegPost,
}

/// The textual form of a summary level as it appears in a URL: the
/// lowercase variant name.
pub open spec fn summary_token(level: SummaryLevel) -> Seq<char> {
    match level {
        SummaryLevel::Week => "week"@,
        SummaryLevel::Reg => "reg"@,
        SummaryLevel::Post => "post"@,
        SummaryLevel::RegPost => "regpost"@,
    }
}

impl SummaryLevel {
    /// The lowercase name of this summary level, used in URLs.
    pub fn token(&self) -> (r: &'static str)
        ensures
            r@ == summary_token(*self),
    {
        match self {
            SummaryLevel::Week => "week",
            SummaryLevel::Reg => "reg",
            SummaryLevel::Post => "post",
            SummaryLevel::RegPost => "regpost",
        }
    }
}

/// Base URL of the team-stats releases.
pub open spec fn team_stats_base() -> Seq<char> {
    "https://github.com/nflverse/nflverse-data/releases/download/stats_team/"@
}

/// Base URL of the player-stats releases.
pub open spec fn player_stats_base() -> Seq<char> {
    "https://github.com/nflverse/nflverse-data/releases/download/stats_player/"@
}

/// Base URL of the play-by-play releases.
pub open spec fn play_by_play_base() -> Seq<char> {
    "https://github.com/nflverse/nflverse-data/releases/download/pbp/"@
}

/// The fixed schedules URL.
pub open spec fn schedules_url_chars() -> Seq<char> {
    "https://github.com/nflverse/nflverse-data/releases/download/schedules/games.csv"@
}

/// The fixed teams URL.
pub open spec fn teams_url_chars() -> Seq<char> {
    "https://github.com/nflverse/nflverse-data/releases/download/teams/teams_colors_logos.csv"@
}

/// The fixed players URL.
pub open spec fn players_url_chars() -> Seq<char> {
    "https://github.com/nflverse/nflverse-data/releases/download/players/players.csv"@
}

/// The team-stats URL string for a summary level and season:
/// `<base>/stats_team_<level>_<season>.csv`.
pub open spec fn team_stats_url_chars(level: SummaryLevel, season: int) -> Seq<char> {
    team_stats_base() + "stats_team_"@ + summary_token(level) + "_"@ + int_chars(season)
        + ".csv"@
}

/// The player-stats URL string for a summary level and season:
/// `<base>/stats_player_<level>_<season>.csv`.
pub open spec fn player_stats_url_chars(level: SummaryLevel, season: int) -> Seq<char> {
    player_stats_base() + "stats_player_"@ + summary_token(level) + "_"@ + int_chars(season)
        + ".csv"@
}

/// The play-by-play URL string for a season:
/// `<base>/play_by_play_<season>.csv`.
pub open spec fn play_by_play_url_chars(season: int) -> Seq<char> {
    play_by_play_base() + "play_by_play_"@ + int_chars(season) + ".csv"@
}

/// Downloader for team stats.
#[derive(Debug)]
pub struct TeamStats {
    pub seasons: Option<Vec<i32>>,
    pub summary_level: SummaryLevel,
    pub base_url: &'static str,
}

impl TeamStats {
    /// A descriptor as `new` hands it out: the base URL is the
    /// team-stats release host.
    pub open spec fn wf(&self) -> bool {
        self.base_url@ == team_stats_base()
    }

    /// The URL this descriptor resolves to when `today` is the clock
    /// date: the single requested season, or the current season under
    /// season logic when none is requested; more than one season is
    /// unsupported.
    pub open spec fn spec_url_result(&self, today: ClockDate) -> Result<url::Url, Error> {
        match self.seasons {
            Some(v) => if v@.len() > 1 {
                Err(Error::UnsupportedMultiSeason)
            } else if v@.len() == 1 {
                url_result_of(team_stats_url_chars(self.summary_level, v@[0] as int))
            } else {
                url_result_of(team_stats_url_chars(self.summary_level, regular_season(today)))
            },
            None => url_result_of(team_stats_url_chars(self.summary_level, regular_season(today))),
        }
    }

    /// Create a new team stats downloader.
    ///
    /// # Arguments
    ///
    /// * `seasons` -   Current season if None. A vector of the desired season if Some.
    /// * `summary_level`   -   Summary level of the data to retrieve.
    ///
    /// A vector of length greater than one makes `url` fail: such
    /// vectors are not supported yet.
    pub fn new(seasons: Option<Vec<i32>>, summary_level: SummaryLevel) -> (s: Self)
        ensures
            s.wf(),
            s.seasons == seasons,
            s.summary_level == summary_level,
    {
        Self {
            seasons,
            summary_level,
            base_url: "https://github.com/nflverse/nflverse-data/releases/download/stats_team/",
        }
    }

    /// Returns the URL this descriptor resolves to on a given clock
    /// date.
    pub fn url_on(&self, today: ClockDate) -> (r: Result<url::Url, Error>)
        requires
            self.wf(),
            valid_clock_date(today),
        ensures
            r == self.spec_url_result(today),
    {
        let season: i32 = match &self.seasons {
            None => get_current_season_internal(None, today),
            Some(v) => {
                if v.len() > 1 {
                    return Err(Error::UnsupportedMultiSeason);
                } else if v.len() == 1 {
                    v[0]
                } else {
                    get_current_season_internal(None, today)
                }
            },
        };
        let mut s = String::from_str(self.base_url);
        s.append("stats_team_");
        s.append(self.summary_level.token());
        s.append("_");
        let num = int_to_string(season);
        s.append(num.as_str());
        s.append(".csv");
        proof {
            assert(s@ =~= team_stats_url_chars(self.summary_level, season as int));
        }
        parse_resolved(&s)
    }

    /// Returns a valid URL to the download destination, reading the
    /// current season from the US-Eastern wall clock when no season was
    /// supplied.
    pub fn url(&self) -> (r: Result<url::Url, Error>)
        requires
            self.wf(),
        ensures
            exists|d: ClockDate| valid_clock_date(d) && r == self.spec_url_result(d),
            self.seasons matches Some(v) ==> (v@.len() > 1 ==> r == Err::<url::Url, Error>(
                Error::UnsupportedMultiSeason,
            )),
            self.seasons matches Some(v) ==> (v@.len() == 1 ==> r == url_result_of(
                team_stats_url_chars(self.summary_level, v@[0] as int),
            )),
    {
        let today = today_eastern();
        let r = self.url_on(today);
        proof {
            assert(valid_clock_date(today) && r == self.spec_url_result(today));
        }
        r
    }
}

/// Downloader for schedules.
#[derive(Debug)]
pub struct Schedules {
    pub base_url: &'static str,
}

impl Schedules {
    /// A descriptor as `new` hands it out: the base URL is the fixed
    /// schedules file.
    pub open spec fn wf(&self) -> bool {
        self.base_url@ == schedules_url_chars()
    }

    /// Create a new schedules downloader.
    ///
    /// The source does not provide any seasons or summary levels, all
    /// available schedules will be loaded.
    pub fn new() -> (s: Self)
        ensures
            s.wf(),
    {
        Schedules::default()
    }

    /// Returns a valid URL to the download destination.
    ///
    /// Here the download URL is the base url as the source does not
    /// provide seasons or summary levels; the result is the same fixed
    /// URL on every call.
    pub fn url(&self) -> (r: Result<url::Url, Error>)
        requires
            self.wf(),
        ensures
            r == url_result_of(schedules_url_chars()),
    {
        let s = String::from_str(self.base_url);
        parse_resolved(&s)
    }
}

impl Default for Schedules {
    /// Default constructor for schedules downloader.
    fn default() -> (s: Self)
        ensures
            s.wf(),
    {
        Self {
            base_url: "https://github.com/nflverse/nflverse-data/releases/download/schedules/games.csv",
        }
    }
}

/// Downloader for play by play data.
#[derive(Debug)]
pub struct PlayByPlay {
    pub seasons: Option<i32>,
    pub base_url: &'static str,
}

impl PlayByPlay {
    /// A descriptor as `new` hands it out: the base URL is the
    /// play-by-play release host.
    pub open spec fn wf(&self) -> bool {
        self.base_url@ == play_by_play_base()
    }

    /// The URL this descriptor resolves to when `today` is the clock
    /// date: the requested season, or the current season under season
    /// logic when none is requested.
    pub open spec fn spec_url_result(&self, today: ClockDate) -> Result<url::Url, Error> {
        match self.seasons {
            Some(season) => url_result_of(play_by_play_url_chars(season as int)),
            None => url_result_of(play_by_play_url_chars(regular_season(today))),
        }
    }

    /// Create a new team play by play data downloader.
    ///
    /// # Arguments
    ///
    /// * `seasons` -   Current season if None. Given season if Some.
    pub fn new(seasons: Option<i32>) -> (s: Self)
        ensures
            s.wf(),
            s.seasons == seasons,
    {
        Self {
            seasons,
            base_url: "https://github.com/nflverse/nflverse-data/releases/download/pbp/",
        }
    }

    /// Returns the URL this descriptor resolves to on a given clock
    /// date.
    pub fn url_on(&self, today: ClockDate) -> (r: Result<url::Url, Error>)
        requires
            self.wf(),
            valid_clock_date(today),
        ensures
            r == self.spec_url_result(today),
    {
        let season: i32 = match &self.seasons {
            Some(season) => *season,
            None => get_current_season_internal(None, today),
        };
        let mut s = String::from_str(self.base_url);
        s.append("play_by_play_");
        let num = int_to_string(season);
        s.append(num.as_str());
        s.append(".csv");
        proof {
            assert(s@ =~= play_by_play_url_chars(season as int));
        }
        parse_resolved(&s)
    }

    /// Returns a valid URL to the download destination, reading the
    /// current season from the US-Eastern wall clock when no season was
    /// supplied.
    pub fn url(&self) -> (r: Result<url::Url, Error>)
        requires
            self.wf(),
        ensures
            exists|d: ClockDate| valid_clock_date(d) && r == self.spec_url_result(d),
            self.seasons matches Some(season) ==> r == url_result_of(
                play_by_play_url_chars(season as int),
            ),
    {
        let today = today_eastern();
        let r = self.url_on(today);
        proof {
            assert(valid_clock_date(today) && r == self.spec_url_result(today));
        }
        r
    }
}

/// A play-by-play descriptor with the season omitted resolves to the
/// same season as the current season under season logic, evaluated on
/// the same clock date.
pub proof fn lemma_play_by_play_defaults_to_current_season(p: PlayByPlay, today: ClockDate)
    requires
        p.wf(),
        p.seasons is None,
        valid_clock_date(today),
    ensures
        p.spec_url_result(today) == url_result_of(
            play_by_play_url_chars(current_season(today, false)),
        ),
{
}

/// Downloader for player stats.
#[derive(Debug)]
pub struct PlayerStats {
    pub seasons: Option<i32>,
    pub summary_level: SummaryLevel,
    pub base_url: &'static str,
}

impl PlayerStats {
    /// A descriptor as `new` hands it out: the base URL is the
    /// player-stats release host.
    pub open spec fn wf(&self) -> bool {
        self.base_url@ == player_stats_base()
    }

    /// The URL this descriptor resolves to when `today` is the clock
    /// date: the requested season, or the current season under season
    /// logic when none is requested.
    pub open spec fn spec_url_result(&self, today: ClockDate) -> Result<url::Url, Error> {
        match self.seasons {
            Some(season) => url_result_of(
                player_stats_url_chars(self.summary_level, season as int),
            ),
            None => url_result_of(player_stats_url_chars(self.summary_level, regular_season(today))),
        }
    }

    /// Create a new player stats downloader.
    ///
    /// # Arguments
    ///
    /// * `seasons` -   Current season if None. Given season if Some.
    /// * `summary_level`   -   Summary level of the data to retrieve.
    pub fn new(seasons: Option<i32>, summary_level: SummaryLevel) -> (s: Self)
        ensures
            s.wf(),
            s.seasons == seasons,
            s.summary_level == summary_level,
    {
        Self {
            seasons,
            summary_level,
            base_url: "https://github.com/nflverse/nflverse-data/releases/download/stats_player/",
        }
    }

    /// Returns the URL this descriptor resolves to on a given clock
    /// date.
    pub fn url_on(&self, today: ClockDate) -> (r: Result<url::Url, Error>)
        requires
            self.wf(),
            valid_clock_date(today),
        ensures
            r == self.spec_url_result(today),
    {
        let season: i32 = match &self.seasons {
            Some(season) => *season,
            None => get_current_season_internal(None, today),
        };
        let mut s = String::from_str(self.base_url);
        s.append("stats_player_");
        s.append(self.summary_level.token());
        s.append("_");
        let num = int_to_string(season);
        s.append(num.as_str());
        s.append(".csv");
        proof {
            assert(s@ =~= player_stats_url_chars(self.summary_level, season as int));
        }
        parse_resolved(&s)
    }

    /// Returns a valid URL to the download destination, reading the
    /// current season from the US-Eastern wall clock when no season was
    /// supplied.
    pub fn url(&self) -> (r: Result<url::Url, Error>)
        requires
            self.wf(),
        ensures
            exists|d: ClockDate| valid_clock_date(d) && r == self.spec_url_result(d),
            self.seasons matches Some(season) ==> r == url_result_of(
                player_stats_url_chars(self.summary_level, season as int),
            ),
    {
        let today = today_eastern();
        let r = self.url_on(today);
        proof {
            assert(valid_clock_date(today) && r == self.spec_url_result(today));
        }
        r
    }
}

/// Downloader for teams.
#[derive(Debug)]
pub struct Teams {
    pub base_url: &'static str,
}

impl Teams {
    /// A descriptor as `new` hands it out: the base URL is the fixed
    /// teams file.
    pub open spec fn wf(&self) -> bool {
        self.base_url@ == teams_url_chars()
    }

    /// Create a new teams downloader.
    ///
    /// The source does not provide any seasons or summary levels, all
    /// available teams will be loaded.
    pub fn new() -> (s: Self)
        ensures
            s.wf(),
    {
        Teams::default()
    }

    /// Returns a valid URL to the download destination.
    ///
    /// Here the download URL is the base url as the source does not
    /// provide seasons or summary levels; the result is the same fixed
    /// URL on every call.
    pub fn url(&self) -> (r: Result<url::Url, Error>)
        requires
            self.wf(),
        ensures
            r == url_result_of(teams_url_chars()),
    {
        let s = String::from_str(self.base_url);
        parse_resolved(&s)
    }
}

impl Default for Teams {
    /// Default constructor for Teams downloader.
    fn default() -> (s: Self)
        ensures
            s.wf(),
    {
        Self {
            base_url: "https://github.com/nflverse/nflverse-data/releases/download/teams/teams_colors_logos.csv",
        }
    }
}

/// Downloader for Players.
#[derive(Debug)]
pub struct Players {
    pub base_url: &'static str,
}

impl Players {
    /// A descriptor as `new` hands it out: the base URL is the fixed
    /// players file.
    pub open spec fn wf(&self) -> bool {
        self.base_url@ == players_url_chars()
    }

    /// Create a new Players downloader.
    ///
    /// The source does not provide any seasons or summary levels, all
    /// available players will be loaded.
    pub fn new() -> (s: Self)
        ensures
            s.wf(),
    {
        Players::default()
    }

    /// Returns a valid URL to the download destination.
    ///
    /// Here the download URL is the base url as the source does not
    /// provide seasons or summary levels; the result is the same fixed
    /// URL on every call.
    pub fn url(&self) -> (r: Result<url::Url, Error>)
        requires
            self.wf(),
        ensures
            r == url_result_of(players_url_chars()),
    {
        let s = String::from_str(self.base_url);
        parse_resolved(&s)
    }
}

impl Default for Players {
    /// Default constructor for Players downloader.
    fn default() -> (s: Self)
        ensures
            s.wf(),
    {
        Self {
            base_url: "https://github.com/nflverse/nflverse-data/releases/download/players/players.csv",
        }
    }
}

} // verus!
