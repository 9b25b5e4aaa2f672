use vstd::prelude::*;

use chrono::Datelike;

use crate::api::chessdotcom::GameArchives;
use crate::api::DisplayableChessGame;
use crate::pgn::{clock_field_ok, digits_value};
use crate::text::{ascii_lower, opt_view, to_ascii_lowercase};

verus! {

/// The colour of the pieces searched for.
#[derive(Clone, Copy, PartialEq, Eq, Debug)]
pub enum Pieces {
    Black,
    White,
}

/// What a search starts from: a player's name or a game's id.
#[derive(Clone, PartialEq, Eq, Debug)]
pub enum Search {
    Player(String),
    ID(String),
}

/// The text a search starts from.
pub open spec fn search_text(s: Search) -> Seq<char> {
    match s {
        Search::Player(t) => t@,
        Search::ID(t) => t@,
    }
}

impl Search {
    /// The player's name or the game's id.
    pub fn get_value(&self) -> (r: &String)
        ensures
            r@ == search_text(*self),
    {
        match self {
            Search::Player(s) => s,
            Search::ID(s) => s,
        }
    }
}

/// A search for one game, with the conditions it must meet.
#[derive(Clone, PartialEq, Eq, Debug)]
pub struct GameFinder {
    pub search: Search,
    pub api: String,
    pub pieces: Option<Pieces>,
    pub year: Option<u32>,
    pub month: Option<u32>,
    pub day: Option<u32>,
    pub opponent: Option<String>,
}

/// A text with its letters made small, as `str::to_lowercase` does.
pub uninterp spec fn lower_of(s: Seq<char>) -> Seq<char>;

/// Relies on `str::to_lowercase`, whose result depends on the text alone.
#[verifier::external_body]
fn lowercase(s: &str) -> (r: String)
    ensures
        r@ == lower_of(s@),
{
    s.to_lowercase()
}

/// The day of the month (UTC) of an instant given in seconds since the Unix
/// epoch, `None` where chrono cannot represent the instant.
pub uninterp spec fn utc_day_of(ts: int) -> Option<u32>;

/// Relies on `DateTime::from_timestamp` and `Datelike::day`, which gives the
/// day of the month, from 1 to 31.
#[verifier::external_body]
fn utc_day(ts: i64) -> (r: Option<u32>)
    ensures
        r == utc_day_of(ts as int),
        r matches Some(d) ==> 1 <= d <= 31,
{
    chrono::DateTime::from_timestamp(ts, 0).map(|t| t.day())
}

/// Whether a game's players had the colours searched for; `white` and `black`
/// are their names made small.
pub open spec fn colors_match(f: GameFinder, white: Seq<char>, black: Seq<char>) -> bool {
    let player = search_text(f.search);
    match f.pieces {
        None => true,
        Some(Pieces::Black) => black == player && match f.opponent {
            Some(o) => white == o@,
            None => true,
        },
        Some(Pieces::White) => white == player && match f.opponent {
            Some(o) => black == o@,
            None => true,
        },
    }
}

/// Whether a game ended on the day searched for.
pub open spec fn day_matches(f: GameFinder, end_time: i64) -> bool {
    match f.day {
        Some(d) => utc_day_of(end_time as int) == Some(d),
        None => true,
    }
}

/// Whether a game meets every condition of a search.
pub open spec fn game_found<G: DisplayableChessGame>(f: GameFinder, g: G) -> bool {
    colors_match(f, lower_of(g.white_name_of()), lower_of(g.black_name_of())) && day_matches(
        f,
        g.end_time_of(),
    )
}

/// Whether an archive of `year`/`month` may hold the game searched for.
pub open spec fn archive_matches(f: GameFinder, year: u32, month: u32) -> bool {
    (f.year matches Some(y) ==> y == year) && (f.month matches Some(m) ==> m == month)
}

#[verifier::external_type_specification]
#[verifier::external_body]
pub struct ExUrl(url::Url);

/// The URL that a text parses as, `None` where it is no absolute URL.
pub uninterp spec fn url_of_text(text: Seq<char>) -> Option<url::Url>;

/// The segments of a URL's path, `None` for a URL that cannot be a base.
pub uninterp spec fn segments_of(u: url::Url) -> Option<Seq<Seq<char>>>;

/// Relies on `Url::parse`: `None` where the text is no absolute URL.
#[verifier::external_body]
fn parse_url(text: &str) -> (r: Option<url::Url>)
    ensures
        r == url_of_text(text@),
{
    url::Url::parse(text).ok()
}

/// Relies on `Url::path_segments`: the segments of the path, `None` for a URL
/// that cannot be a base.
#[verifier::external_body]
fn path_segments(u: &url::Url) -> (r: Option<Vec<String>>)
    ensures
        match r {
            Some(v) => segments_of(*u) == Some(v@.map_values(|x: String| x@)),
            None => segments_of(*u) is None,
        },
{
    u.path_segments().map(|p| p.map(|x| x.to_string()).collect())
}

/// The number a text spells, where it is one or more decimal digits that fit
/// in `u32`.
pub open spec fn number_of(s: Seq<char>) -> Option<u32> {
    if clock_field_ok(s) {
        Some(digits_value(s) as u32)
    } else {
        None
    }
}

/// Reads a decimal number.
pub fn parse_number(s: &str) -> (r: Option<u32>)
    ensures
        r == number_of(s@),
{
    let n = s.unicode_len();
    if n == 0 {
        return None;
    }
    let mut i: usize = 0;
    let mut value: u64 = 0;
    proof {
        assert(s@.take(0) =~= Seq::<char>::empty());
    }
    while i < n
        invariant
            n == s@.len(),
            i <= n,
            value == digits_value(s@.take(i as int)),
            value <= u32::MAX,
            forall|j: int| 0 <= j < i ==> crate::pgn::is_digit(#[trigger] s@[j]),
        decreases n - i,
    {
        let c = s.get_char(i);
        let k = c as u32;
        assert(s@.take(i + 1).drop_last() =~= s@.take(i as int));
        if k < '0' as u32 || k > '9' as u32 {
            assert(!crate::pgn::is_digit(s@[i as int]));
            return None;
        }
        value = value * 10 + (k - '0' as u32) as u64;
        if value > 4294967295 {
            assert(digits_value(s@) >= digits_value(s@.take(i + 1))) by {
                lemma_digits_prefix(s@, i + 1);
            }
            return None;
        }
        i = i + 1;
    }
    assert(s@.take(n as int) =~= s@);
    Some(value as u32)
}

proof fn lemma_digits_prefix(s: Seq<char>, k: int)
    requires
        0 <= k <= s.len(),
    ensures
        digits_value(s) >= digits_value(s.take(k)),
    decreases s.len(),
{
    if k < s.len() {
        assert(s.drop_last().take(k) =~= s.take(k));
        lemma_digits_prefix(s.drop_last(), k);
    } else {
        assert(s.take(k) =~= s);
    }
}

/// The year and month of a monthly archive, read from the path of its address
/// (`.../games/YYYY/MM`: the fifth and sixth segments).
pub open spec fn archive_date(text: Seq<char>) -> Option<(u32, u32)> {
    match url_of_text(text) {
        None => None,
        Some(u) => match segments_of(u) {
            None => None,
            Some(seg) => if seg.len() >= 6 {
                match (number_of(seg[4]), number_of(seg[5])) {
                    (Some(y), Some(m)) => Some((y, m)),
                    _ => None,
                }
            } else {
                None
            },
        },
    }
}

/// The year and month, in order, of the archives that read so and may hold
/// the game searched for.
pub open spec fn kept_archives(f: GameFinder, archives: Seq<String>) -> Seq<(u32, u32)>
    decreases archives.len(),
{
    if archives.len() == 0 {
        Seq::empty()
    } else {
        let prev = kept_archives(f, archives.drop_last());
        match archive_date(archives.last()@) {
            Some((y, m)) => if archive_matches(f, y, m) {
                prev.push((y, m))
            } else {
                prev
            },
            None => prev,
        }
    }
}

/// A search that starts from nothing but its text and site.
pub open spec fn plain_search(f: GameFinder, search: Search, api: Seq<char>) -> bool {
    &&& f.search == search
    &&& f.api@ == api
    &&& f.pieces is None
    &&& f.year is None
    &&& f.month is None
    &&& f.day is None
    &&& f.opponent is None
}

impl GameFinder {
    /// A search for the games of the player named `player` on site `api`.
    pub fn by_player(player: &str, api: &str) -> (r: GameFinder)
        ensures
            r.search matches Search::Player(p) && p@ == player@,
            plain_search(r, r.search, api@),
    {
        GameFinder {
            search: Search::Player(String::from_str(player)),
            api: String::from_str(api),
            pieces: None,
            year: None,
            month: None,
            day: None,
            opponent: None,
        }
    }

    /// A search for the game with id `id` on site `api`.
    pub fn by_id(id: &str, api: &str) -> (r: GameFinder)
        ensures
            r.search matches Search::ID(p) && p@ == id@,
            plain_search(r, r.search, api@),
    {
        GameFinder {
            search: Search::ID(String::from_str(id)),
            api: String::from_str(api),
            pieces: None,
            year: None,
            month: None,
            day: None,
            opponent: None,
        }
    }

    /// Searches for games played with the white pieces.
    pub fn white(&mut self) -> (r: &mut GameFinder)
        ensures
            *r == (GameFinder { pieces: Some(Pieces::White), ..*old(self) }),
            *final(self) == *final(r),
    {
        self.pieces = Some(Pieces::White);
        self
    }

    /// Searches for games played with the black pieces.
    pub fn black(&mut self) -> (r: &mut GameFinder)
        ensures
            *r == (GameFinder { pieces: Some(Pieces::Black), ..*old(self) }),
            *final(self) == *final(r),
    {
        self.pieces = Some(Pieces::Black);
        self
    }

    /// Searches for games of a year.
    pub fn year(&mut self, year: u32) -> (r: &mut GameFinder)
        ensures
            *r == (GameFinder { year: Some(year), ..*old(self) }),
            *final(self) == *final(r),
    {
        self.year = Some(year);
        self
    }

    /// Searches for games of a month (1 to 12).
    pub fn month(&mut self, month: u32) -> (r: &mut GameFinder)
        ensures
            *r == (GameFinder { month: Some(month), ..*old(self) }),
            *final(self) == *final(r),
    {
        self.month = Some(month);
        self
    }

    /// Searches for games of a day of the month (1 to 31).
    pub fn day(&mut self, day: u32) -> (r: &mut GameFinder)
        ensures
            *r == (GameFinder { day: Some(day), ..*old(self) }),
            *final(self) == *final(r),
    {
        self.day = Some(day);
        self
    }

    /// Searches for games of one date.
    pub fn date(&mut self, year: u32, month: u32, day: u32) -> (r: &mut GameFinder)
        ensures
            *r == (GameFinder {
                year: Some(year),
                month: Some(month),
                day: Some(day),
                ..*old(self)
            }),
            *final(self) == *final(r),
    {
        self.year = Some(year);
        self.month = Some(month);
        self.day = Some(day);
        self
    }

    /// Searches for games against an opponent, named in any case.
    pub fn oponent(&mut self, opponent: &str) -> (r: &mut GameFinder)
        ensures
            r.search == old(self).search,
            r.api == old(self).api,
            r.pieces == old(self).pieces,
            r.year == old(self).year,
            r.month == old(self).month,
            r.day == old(self).day,
            opt_view(r.opponent) == Some(ascii_lower(opponent@)),
            *final(self) == *final(r),
    {
        self.opponent = Some(to_ascii_lowercase(opponent));
        self
    }

    /// Whether the game's players had the colours searched for.
    pub fn players_had_correct_colors<G: DisplayableChessGame>(&self, g: &G) -> (r: bool)
        ensures
            r == colors_match(*self, lower_of(g.white_name_of()), lower_of(g.black_name_of())),
    {
        let player = self.search.get_value();
        match self.pieces {
            None => true,
            Some(Pieces::Black) => {
                let black = lowercase(g.black_name().as_str());
                if black != *player {
                    return false;
                }
                match &self.opponent {
                    Some(o) => lowercase(g.white_name().as_str()) == *o,
                    None => true,
                }
            },
            Some(Pieces::White) => {
                let white = lowercase(g.white_name().as_str());
                if white != *player {
                    return false;
                }
                match &self.opponent {
                    Some(o) => lowercase(g.black_name().as_str()) == *o,
                    None => true,
                }
            },
        }
    }

    /// Whether the game ended on the day searched for.
    pub fn played_on_expected_day<G: DisplayableChessGame>(&self, g: &G) -> (r: bool)
        ensures
            r == day_matches(*self, g.end_time_of()),
    {
        match self.day {
            Some(d) => match utc_day(g.end_time()) {
                Some(x) => x == d,
                None => false,
            },
            None => true,
        }
    }

    /// Whether the game meets every condition of the search.
    pub fn check_game_found<G: DisplayableChessGame>(&self, g: &G) -> (r: bool)
        ensures
            r == game_found(*self, *g),
    {
        self.players_had_correct_colors(g) && self.played_on_expected_day(g)
    }

    /// The year and month of each archive, read from the path of its address
    /// (`.../games/YYYY/MM`), of the archives that may hold the game searched
    /// for. Addresses that do not read so are passed over.
    pub fn year_month_archives(&self, game_archives: &GameArchives) -> (r: Vec<(u32, u32)>)
        ensures
            r@ == kept_archives(*self, game_archives.archives@),
    {
        let mut out: Vec<(u32, u32)> = Vec::new();
        let mut i: usize = 0;
        while i < game_archives.archives.len()
            invariant
                i <= game_archives.archives@.len(),
                out@ == kept_archives(*self, game_archives.archives@.take(i as int)),
            decreases game_archives.archives@.len() - i,
        {
            proof {
                let a = game_archives.archives@;
                assert(a.take(i + 1).drop_last() =~= a.take(i as int));
                assert(a.take(i + 1).last() == a[i as int]);
            }
            match parse_url(game_archives.archives[i].as_str()) {
                Some(u) => match path_segments(&u) {
                    Some(segments) => if segments.len() >= 6 {
                        match (parse_number(segments[4].as_str()), parse_number(segments[5].as_str())) {
                            (Some(y), Some(m)) => {
                                let keep = match (self.year, self.month) {
                                    (Some(year), Some(month)) => year == y && month == m,
                                    (Some(year), None) => year == y,
                                    (None, Some(month)) => month == m,
                                    (None, None) => true,
                                };
                                if keep {
                                    out.push((y, m));
                                }
                            },
                            _ => {},
                        }
                    },
                    None => {},
                },
                None => {},
            }
            i = i + 1;
        }
        assert(game_archives.archives@.take(i as int) =~= game_archives.archives@);
        out
    }

    /// The game the search settles on among `games`: of those that meet its
    /// conditions, the one that ended first (the earlier one in the list where
    /// two ended at once).
    pub fn earliest_match<G: DisplayableChessGame>(&self, games: &Vec<G>) -> (r: Option<usize>)
        ensures
            r is None ==> forall|j: int| 0 <= j < games@.len() ==> !game_found(*self, #[trigger] games@[j]),
            r matches Some(i) ==> {
                &&& i < games@.len()
                &&& game_found(*self, games@[i as int])
                &&& forall|j: int|
                    0 <= j < games@.len() && game_found(*self, #[trigger] games@[j]) ==> games@[j].end_time_of()
                        > games@[i as int].end_time_of() || (games@[j].end_time_of()
                        == games@[i as int].end_time_of() && j >= i)
            },
    {
        let mut best: Option<usize> = None;
        let mut i: usize = 0;
        while i < games.len()
            invariant
                i <= games@.len(),
                best is None ==> forall|j: int| 0 <= j < i ==> !game_found(*self, #[trigger] games@[j]),
                best matches Some(b) ==> {
                    &&& b < i
                    &&& game_found(*self, games@[b as int])
                    &&& forall|j: int|
                        0 <= j < i && game_found(*self, #[trigger] games@[j]) ==> games@[j].end_time_of()
                            > games@[b as int].end_time_of() || (games@[j].end_time_of()
                            == games@[b as int].end_time_of() && j >= b)
                },
            decreases games@.len() - i,
        {
            let g = &games[i];
            if self.check_game_found(g) {
                match best {
                    None => {
                        best = Some(i);
                    },
                    Some(b) => {
                        if g.end_time() < games[b].end_time() {
                            best = Some(i);
                        }
                    },
                }
            }
            i = i + 1;
        }
        best
    }
}

} // verus!
