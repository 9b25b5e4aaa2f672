use vstd::prelude::*;

use crate::board::DecodeError;
use crate::text::{opt_view, push_signed, push_str, push_two_digits, signed_decimal, str_eq, two_digits};

pub mod chessdotcom;
pub mod lichessdotorg;

verus! {

/// What every player record offers, whatever site it comes from.
pub trait ChessPlayer {
    spec fn name_of(&self) -> Seq<char>;

    spec fn title_of(&self) -> Option<Seq<char>>;

    spec fn rating_of(&self) -> Option<u32>;

    spec fn url_of(&self) -> Option<Seq<char>>;

    spec fn result_of(&self) -> Option<Seq<char>>;

    fn name(&self) -> (r: String)
        ensures
            r@ == self.name_of(),
    ;

    fn title(&self) -> (r: Option<String>)
        ensures
            opt_view(r) == self.title_of(),
    ;

    fn rating(&self) -> (r: Option<u32>)
        ensures
            r == self.rating_of(),
    ;

    fn url(&self) -> (r: Option<String>)
        ensures
            opt_view(r) == self.url_of(),
    ;

    fn result(&self) -> (r: Option<String>)
        ensures
            opt_view(r) == self.result_of(),
    ;
}

/// What every game record offers, whatever site it comes from: its players'
/// names, its address and when it ended (seconds since the Unix epoch).
pub trait DisplayableChessGame {
    spec fn white_name_of(&self) -> Seq<char>;

    spec fn black_name_of(&self) -> Seq<char>;

    spec fn url_of(&self) -> Seq<char>;

    spec fn end_time_of(&self) -> i64;

    fn white_name(&self) -> (r: String)
        ensures
            r@ == self.white_name_of(),
    ;

    fn black_name(&self) -> (r: String)
        ensures
            r@ == self.black_name_of(),
    ;

    fn url(&self) -> (r: String)
        ensures
            r@ == self.url_of(),
    ;

    fn end_time(&self) -> (r: i64)
        ensures
            r == self.end_time_of(),
    ;
}

/// A game record of any of the supported sites.
#[derive(Clone, Debug)]
pub enum Game {
    ChessDotCom(chessdotcom::Game),
    ChessDotComLive(chessdotcom::CallbackLiveGame),
    LichessDotOrg(lichessdotorg::Game),
}

/// The games of one request, as each site gives them.
#[derive(Clone, Debug)]
pub enum Games {
    ChessDotCom(Vec<chessdotcom::Game>),
    LichessDotOrg(Vec<lichessdotorg::Game>),
}

impl DisplayableChessGame for Game {
    open spec fn white_name_of(&self) -> Seq<char> {
        match self {
            Game::ChessDotCom(g) => g.white_name_of(),
            Game::ChessDotComLive(g) => g.white_name_of(),
            Game::LichessDotOrg(g) => g.white_name_of(),
        }
    }

    open spec fn black_name_of(&self) -> Seq<char> {
        match self {
            Game::ChessDotCom(g) => g.black_name_of(),
            Game::ChessDotComLive(g) => g.black_name_of(),
            Game::LichessDotOrg(g) => g.black_name_of(),
        }
    }

    open spec fn url_of(&self) -> Seq<char> {
        match self {
            Game::ChessDotCom(g) => g.url_of(),
            Game::ChessDotComLive(g) => g.url_of(),
            Game::LichessDotOrg(g) => g.url_of(),
        }
    }

    open spec fn end_time_of(&self) -> i64 {
        match self {
            Game::ChessDotCom(g) => g.end_time_of(),
            Game::ChessDotComLive(g) => g.end_time_of(),
            Game::LichessDotOrg(g) => g.end_time_of(),
        }
    }

    fn white_name(&self) -> (r: String) {
        match self {
            Game::ChessDotCom(g) => g.white_name(),
            Game::ChessDotComLive(g) => g.white_name(),
            Game::LichessDotOrg(g) => g.white_name(),
        }
    }

    fn black_name(&self) -> (r: String) {
        match self {
            Game::ChessDotCom(g) => g.black_name(),
            Game::ChessDotComLive(g) => g.black_name(),
            Game::LichessDotOrg(g) => g.black_name(),
        }
    }

    fn url(&self) -> (r: String) {
        match self {
            Game::ChessDotCom(g) => g.url(),
            Game::ChessDotComLive(g) => g.url(),
            Game::LichessDotOrg(g) => g.url(),
        }
    }

    fn end_time(&self) -> (r: i64) {
        match self {
            Game::ChessDotCom(g) => g.end_time(),
            Game::ChessDotComLive(g) => g.end_time(),
            Game::LichessDotOrg(g) => g.end_time(),
        }
    }
}

impl Game {
    /// The game's PGN: the stored one for archived games, the decoded one for
    /// live games.
    pub fn pgn(&self) -> (r: Result<String, DecodeError>)
        ensures
            self matches Game::ChessDotCom(g) ==> (r matches Ok(s) && s@ == g.pgn@),
            self matches Game::LichessDotOrg(g) ==> (r matches Ok(s) && s@ == g.pgn@),
            self matches Game::ChessDotComLive(g) ==> match r {
                Ok(s) => chessdotcom::live_pgn(*g) == Ok::<Seq<char>, DecodeError>(s@),
                Err(e) => chessdotcom::live_pgn(*g) == Err::<Seq<char>, DecodeError>(e),
            },
    {
        match self {
            Game::ChessDotCom(g) => Ok(g.pgn.clone()),
            Game::ChessDotComLive(g) => g.pgn(),
            Game::LichessDotOrg(g) => Ok(g.pgn.clone()),
        }
    }
}

/// A player record of any of the supported sites.
#[derive(Clone, Debug)]
pub enum Player {
    ChessDotCom(chessdotcom::Player),
    ChessDotComLive(chessdotcom::LivePlayer),
    LichessDotOrg(lichessdotorg::Player),
}

impl ChessPlayer for Player {
    open spec fn name_of(&self) -> Seq<char> {
        match self {
            Player::ChessDotCom(p) => p.name_of(),
            Player::ChessDotComLive(p) => p.name_of(),
            Player::LichessDotOrg(p) => p.name_of(),
        }
    }

    open spec fn title_of(&self) -> Option<Seq<char>> {
        match self {
            Player::ChessDotCom(p) => p.title_of(),
            Player::ChessDotComLive(p) => p.title_of(),
            Player::LichessDotOrg(p) => p.title_of(),
        }
    }

    open spec fn rating_of(&self) -> Option<u32> {
        match self {
            Player::ChessDotCom(p) => p.rating_of(),
            Player::ChessDotComLive(p) => p.rating_of(),
            Player::LichessDotOrg(p) => p.rating_of(),
        }
    }

    open spec fn url_of(&self) -> Option<Seq<char>> {
        match self {
            Player::ChessDotCom(p) => p.url_of(),
            Player::ChessDotComLive(p) => p.url_of(),
            Player::LichessDotOrg(p) => p.url_of(),
        }
    }

    open spec fn result_of(&self) -> Option<Seq<char>> {
        match self {
            Player::ChessDotCom(p) => p.result_of(),
            Player::ChessDotComLive(p) => p.result_of(),
            Player::LichessDotOrg(p) => p.result_of(),
        }
    }

    fn name(&self) -> (r: String) {
        match self {
            Player::ChessDotCom(p) => p.name(),
            Player::ChessDotComLive(p) => p.name(),
            Player::LichessDotOrg(p) => p.name(),
        }
    }

    fn title(&self) -> (r: Option<String>) {
        match self {
            Player::ChessDotCom(p) => p.title(),
            Player::ChessDotComLive(p) => p.title(),
            Player::LichessDotOrg(p) => p.title(),
        }
    }

    fn rating(&self) -> (r: Option<u32>) {
        match self {
            Player::ChessDotCom(p) => p.rating(),
            Player::ChessDotComLive(p) => p.rating(),
            Player::LichessDotOrg(p) => p.rating(),
        }
    }

    fn url(&self) -> (r: Option<String>) {
        match self {
            Player::ChessDotCom(p) => p.url(),
            Player::ChessDotComLive(p) => p.url(),
            Player::LichessDotOrg(p) => p.url(),
        }
    }

    fn result(&self) -> (r: Option<String>) {
        match self {
            Player::ChessDotCom(p) => p.result(),
            Player::ChessDotComLive(p) => p.result(),
            Player::LichessDotOrg(p) => p.result(),
        }
    }
}

/// The chess sites whose APIs are supported.
#[derive(Clone, Copy, PartialEq, Eq, Structural, Debug)]
pub enum Api {
    ChessDotCom,
    LichessDotOrg,
}

/// Requests that cannot be made of an API.
#[derive(Clone, Debug, PartialEq, Eq)]
pub enum ApiError {
    /// The named site is not supported.
    UnsupportedApi { api: String },
    /// The site offers no such endpoint.
    EndpointNotImplemented { endpoint: String, api: String },
}

/// A month number written with two digits.
pub open spec fn month_text(m: nat) -> Seq<char> {
    two_digits(m)
}

/// Writes a month number with two digits (`9` is `"09"`).
pub fn month_string(m: u32) -> (r: String)
    ensures
        r@ == month_text(m as nat),
{
    let mut s = String::new();
    push_two_digits(&mut s, m as u64);
    assert(s@ =~= month_text(m as nat));
    s
}

/// The address of a game on the live-game endpoint of each site.
pub open spec fn game_endpoint(api: Api, id: Seq<char>) -> Seq<char> {
    match api {
        Api::ChessDotCom => "https://www.chess.com/callback/live/game/"@ + id,
        Api::LichessDotOrg => "https://lichess.org/game/export/"@ + id,
    }
}

/// The address of a chess.com player's list of monthly archives.
pub open spec fn archives_endpoint(username: Seq<char>) -> Seq<char> {
    "https://api.chess.com/pub/player/"@ + username + "/games/archives"@
}

/// The address of a player's games: on chess.com those of the month
/// `year`/`month`; on lichess.org those played between the instants `since`
/// and `until` (seconds since the Unix epoch), with evaluations, clocks and
/// openings.
pub open spec fn games_endpoint(api: Api, username: Seq<char>, year: i32, month: u32, since: i64, until: i64) -> Seq<char> {
    match api {
        Api::ChessDotCom => "https://api.chess.com/pub/player/"@ + username + "/games/"@ + signed_decimal(
            year as int,
        ) + seq!['/'] + month_text(month as nat),
        Api::LichessDotOrg => "https://lichess.org/api/games/user/"@ + username
            + "?evals=true&pgnInJson=true&clocks=true&opening=true&since="@ + signed_decimal(since as int)
            + "&until="@ + signed_decimal(until as int),
    }
}

impl Api {
    /// The site named `s`: `"chess.com"` or `"lichess.org"`.
    pub fn from_str(s: &str) -> (r: Result<Api, ApiError>)
        ensures
            s@ == "chess.com"@ ==> r == Ok::<Api, ApiError>(Api::ChessDotCom),
            s@ == "lichess.org"@ ==> r == Ok::<Api, ApiError>(Api::LichessDotOrg),
            s@ != "chess.com"@ && s@ != "lichess.org"@ ==> (r matches Err(ApiError::UnsupportedApi { api })
                && api@ == s@),
    {
        proof {
            reveal_strlit("chess.com");
            reveal_strlit("lichess.org");
            assert("chess.com"@.len() != "lichess.org"@.len());
        }
        if str_eq(s, "chess.com") {
            Ok(Api::ChessDotCom)
        } else if str_eq(s, "lichess.org") {
            Ok(Api::LichessDotOrg)
        } else {
            Err(ApiError::UnsupportedApi { api: String::from_str(s) })
        }
    }

    /// The address to fetch the game with id `id` from.
    pub fn game_url(&self, id: &str) -> (r: String)
        ensures
            r@ == game_endpoint(*self, id@),
    {
        let mut s = match self {
            Api::ChessDotCom => String::from_str("https://www.chess.com/callback/live/game/"),
            Api::LichessDotOrg => String::from_str("https://lichess.org/game/export/"),
        };
        push_str(&mut s, id);
        s
    }

    /// The address to fetch a player's games from.
    pub fn user_games_url(&self, username: &str, year: i32, month: u32, since: i64, until: i64) -> (r: String)
        ensures
            r@ == games_endpoint(*self, username@, year, month, since, until),
    {
        match self {
            Api::ChessDotCom => {
                let mut s = String::from_str("https://api.chess.com/pub/player/");
                push_str(&mut s, username);
                push_str(&mut s, "/games/");
                push_signed(&mut s, year as i64);
                push_str(&mut s, "/");
                push_two_digits(&mut s, month as u64);
                proof {
                    reveal_strlit("/");
                }
                assert(s@ =~= games_endpoint(*self, username@, year, month, since, until));
                s
            },
            Api::LichessDotOrg => {
                let mut s = String::from_str("https://lichess.org/api/games/user/");
                push_str(&mut s, username);
                push_str(&mut s, "?evals=true&pgnInJson=true&clocks=true&opening=true&since=");
                push_signed(&mut s, since);
                push_str(&mut s, "&until=");
                push_signed(&mut s, until);
                assert(s@ =~= games_endpoint(*self, username@, year, month, since, until));
                s
            },
        }
    }

    /// The address of a player's monthly archives; only chess.com has them.
    pub fn user_archives_url(&self, username: &str) -> (r: Result<String, ApiError>)
        ensures
            *self == Api::ChessDotCom ==> (r matches Ok(u) && u@ == archives_endpoint(username@)),
            *self == Api::LichessDotOrg ==> r matches Err(ApiError::EndpointNotImplemented { .. }),
    {
        match self {
            Api::ChessDotCom => {
                let mut s = String::from_str("https://api.chess.com/pub/player/");
                push_str(&mut s, username);
                push_str(&mut s, "/games/archives");
                Ok(s)
            },
            Api::LichessDotOrg => Err(
                ApiError::EndpointNotImplemented {
                    endpoint: String::from_str("/{user}/games/archives"),
                    api: String::from_str("lichess"),
                },
            ),
        }
    }
}

} // verus!
