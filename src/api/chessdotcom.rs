use vstd::prelude::*;

use super::{ChessPlayer, DisplayableChessGame};
use crate::board::DecodeError;
use crate::pgn::{assemble, assembled};
use crate::text::{
    clone_opt, contains_seq, decimal, opt_view, push_char, push_decimal, push_signed, push_str,
    signed_decimal, str_contains, str_eq,
};

verus! {

/// A clock reading in tenths of a second, split into hours, minutes, seconds
/// and tenths.
pub open spec fn clock_parts(ts: nat) -> (nat, nat, nat, nat) {
    (ts / 10 / 60 / 60, ts / 10 / 60 % 60, ts / 10 % 60, ts % 10)
}

/// Turns a clock reading in tenths of a second into hours, minutes, seconds
/// and tenths of a second.
pub fn time_from_timestamp(ts: u32) -> (r: (u32, u32, u32, u32))
    ensures
        (r.0 as nat, r.1 as nat, r.2 as nat, r.3 as nat) == clock_parts(ts as nat),
        r.1 < 60 && r.2 < 60 && r.3 < 10,
        ts == ((r.0 * 60 + r.1) * 60 + r.2) * 10 + r.3,
{
    let tenth_secs = ts % 10;
    let secs = ts / 10;
    let minutes = secs / 60;
    let hours = minutes / 60;
    (hours, minutes % 60, secs % 60, tenth_secs)
}

/// The header tags that a live game carries.
#[derive(Clone, Debug)]
pub struct PGNHeaders {
    pub event: String,
    pub site: String,
    pub date: String,
    pub white: String,
    pub black: String,
    pub result: String,
    pub eco: String,
    pub white_elo: i32,
    pub black_elo: i32,
    pub time_control: String,
    pub end_time: String,
    pub termination: String,
    pub set_up: String,
    pub fen: String,
    pub variant: Option<String>,
}

/// One PGN tag line: `[Name "value"]`.
pub open spec fn tag(name: Seq<char>, value: Seq<char>) -> Seq<char> {
    seq!['['] + name + seq![' ', '"'] + value + seq!['"', ']', '\n']
}

/// The address of a live game on its site.
pub open spec fn live_game_link(id: Seq<char>) -> Seq<char> {
    "https://www.chess.com/game/live/"@ + id
}

/// The header block: the tags in their fixed order, a `Link` tag where a game
/// id is given, and a blank line.
pub open spec fn header_text(h: PGNHeaders, link_id: Option<Seq<char>>) -> Seq<char> {
    tag("Event"@, h.event@) + tag("Site"@, h.site@) + tag("Date"@, h.date@) + tag("White"@, h.white@)
        + tag("Black"@, h.black@) + tag("Result"@, h.result@) + tag("CurrentPosition"@, h.fen@)
        + tag("ECO"@, h.eco@) + tag("WhiteElo"@, signed_decimal(h.white_elo as int)) + tag(
        "BlackElo"@,
        signed_decimal(h.black_elo as int),
    ) + tag("TimeControl"@, h.time_control@) + tag("EndTime"@, h.end_time@) + tag(
        "Termination"@,
        h.termination@,
    ) + match link_id {
        Some(id) => tag("Link"@, live_game_link(id)),
        None => Seq::empty(),
    } + seq!['\n']
}

fn push_tag_open(s: &mut String, name: &str)
    ensures
        final(s)@ == old(s)@ + seq!['['] + name@ + seq![' ', '"'],
{
    push_char(s, '[');
    push_str(s, name);
    push_char(s, ' ');
    push_char(s, '"');
    assert(final(s)@ =~= old(s)@ + seq!['['] + name@ + seq![' ', '"']);
}

fn push_tag_close(s: &mut String)
    ensures
        final(s)@ == old(s)@ + seq!['"', ']', '\n'],
{
    push_char(s, '"');
    push_char(s, ']');
    push_char(s, '\n');
    assert(final(s)@ =~= old(s)@ + seq!['"', ']', '\n']);
}

fn push_tag(s: &mut String, name: &str, value: &str)
    ensures
        final(s)@ == old(s)@ + tag(name@, value@),
{
    push_tag_open(s, name);
    push_str(s, value);
    push_tag_close(s);
    assert(final(s)@ =~= old(s)@ + tag(name@, value@));
}

fn push_number_tag(s: &mut String, name: &str, value: i32)
    ensures
        final(s)@ == old(s)@ + tag(name@, signed_decimal(value as int)),
{
    push_tag_open(s, name);
    push_signed(s, value as i64);
    push_tag_close(s);
    assert(final(s)@ =~= old(s)@ + tag(name@, signed_decimal(value as int)));
}

impl PGNHeaders {
    /// The header block, with a `Link` tag where `link_id` is given.
    pub fn header_block(&self, link_id: Option<&str>) -> (r: String)
        ensures
            r@ == header_text(
                *self,
                match link_id {
                    Some(id) => Some(id@),
                    None => None,
                },
            ),
    {
        let mut s = String::new();
        push_tag(&mut s, "Event", self.event.as_str());
        push_tag(&mut s, "Site", self.site.as_str());
        push_tag(&mut s, "Date", self.date.as_str());
        push_tag(&mut s, "White", self.white.as_str());
        push_tag(&mut s, "Black", self.black.as_str());
        push_tag(&mut s, "Result", self.result.as_str());
        push_tag(&mut s, "CurrentPosition", self.fen.as_str());
        push_tag(&mut s, "ECO", self.eco.as_str());
        push_number_tag(&mut s, "WhiteElo", self.white_elo);
        push_number_tag(&mut s, "BlackElo", self.black_elo);
        push_tag(&mut s, "TimeControl", self.time_control.as_str());
        push_tag(&mut s, "EndTime", self.end_time.as_str());
        push_tag(&mut s, "Termination", self.termination.as_str());
        let ghost before_link = s@;
        match link_id {
            Some(id) => {
                push_tag_open(&mut s, "Link");
                push_str(&mut s, "https://www.chess.com/game/live/");
                push_str(&mut s, id);
                push_tag_close(&mut s);
                assert(s@ =~= before_link + tag("Link"@, live_game_link(id@)));
            },
            None => {},
        }
        push_char(&mut s, '\n');
        assert(s@ =~= header_text(
            *self,
            match link_id {
                Some(id) => Some(id@),
                None => None,
            },
        ));
        s
    }

    /// The header block of a live game, linking to the game with id `id`.
    pub fn to_pgn_string(&self, id: &str) -> (r: String)
        ensures
            r@ == header_text(*self, Some(id@)),
    {
        self.header_block(Some(id))
    }
}


/// A player of an archived chess.com game.
#[derive(Clone, Debug)]
pub struct Player {
    pub username: String,
    pub rating: u32,
    pub result: String,
    pub id: String,
}

impl ChessPlayer for Player {
    open spec fn name_of(&self) -> Seq<char> {
        self.username@
    }

    open spec fn title_of(&self) -> Option<Seq<char>> {
        None
    }

    open spec fn rating_of(&self) -> Option<u32> {
        Some(self.rating)
    }

    open spec fn url_of(&self) -> Option<Seq<char>> {
        Some(self.id@)
    }

    open spec fn result_of(&self) -> Option<Seq<char>> {
        Some(self.result@)
    }

    fn name(&self) -> (r: String) {
        self.username.clone()
    }

    fn title(&self) -> (r: Option<String>) {
        None
    }

    fn rating(&self) -> (r: Option<u32>) {
        Some(self.rating)
    }

    fn url(&self) -> (r: Option<String>) {
        Some(self.id.clone())
    }

    fn result(&self) -> (r: Option<String>) {
        Some(self.result.clone())
    }
}

/// A player of a chess.com live game. Dates are seconds since the Unix epoch.
#[derive(Clone, Debug)]
pub struct LivePlayer {
    pub username: String,
    pub rating: u32,
    pub id: u64,
    pub is_content_hidden: bool,
    pub avatar_url: String,
    pub country_id: i32,
    pub is_enabled: bool,
    pub can_win_on_time: bool,
    pub chess_title: Option<String>,
    pub color: String,
    pub country_name: String,
    pub default_tab: i32,
    pub has_moved_at_least_once: bool,
    pub is_drawable: bool,
    pub is_online: bool,
    pub is_in_live_chess: Option<bool>,
    pub is_touch_move: bool,
    pub is_vacation: bool,
    pub is_white_on_bottom: bool,
    pub last_login_date: Option<i64>,
    pub location: Option<String>,
    pub membership_level: Option<i32>,
    pub membership_code: Option<String>,
    pub member_since: Option<i64>,
    pub post_move_action: String,
    pub turn_time_remaining: String,
    pub flair_code: String,
    pub vacation_remaining: String,
    pub games_in_progress: i32,
}

/// The profile address of a chess.com member.
pub open spec fn member_url(username: Seq<char>) -> Seq<char> {
    "https://www.chess.com/member/"@ + username
}

impl ChessPlayer for LivePlayer {
    open spec fn name_of(&self) -> Seq<char> {
        self.username@
    }

    open spec fn title_of(&self) -> Option<Seq<char>> {
        opt_view(self.chess_title)
    }

    open spec fn rating_of(&self) -> Option<u32> {
        Some(self.rating)
    }

    open spec fn url_of(&self) -> Option<Seq<char>> {
        Some(member_url(self.username@))
    }

    open spec fn result_of(&self) -> Option<Seq<char>> {
        None
    }

    fn name(&self) -> (r: String) {
        self.username.clone()
    }

    fn title(&self) -> (r: Option<String>) {
        clone_opt(&self.chess_title)
    }

    fn rating(&self) -> (r: Option<u32>) {
        Some(self.rating)
    }

    fn url(&self) -> (r: Option<String>) {
        let mut s = String::from_str("https://www.chess.com/member/");
        push_str(&mut s, self.username.as_str());
        Some(s)
    }

    fn result(&self) -> (r: Option<String>) {
        None
    }
}

/// The two seats of a live game's board.
#[derive(Clone, Debug)]
pub struct LivePlayers {
    pub top: LivePlayer,
    pub bottom: LivePlayer,
}

/// An archived chess.com game. Times are seconds since the Unix epoch.
#[derive(Clone, Debug)]
pub struct Game {
    pub white: Player,
    pub black: Player,
    pub url: String,
    pub fen: String,
    pub pgn: String,
    pub start_time: Option<i64>,
    pub end_time: i64,
    pub time_control: String,
    pub rules: String,
    pub eco: Option<String>,
    pub tournament: Option<String>,
    pub game_match: Option<String>,
}

/// The games of one monthly archive.
#[derive(Clone, Debug)]
pub struct Games {
    pub games: Vec<Game>,
}

/// The addresses of a player's monthly archives.
#[derive(Clone, Debug)]
pub struct GameArchives {
    pub archives: Vec<String>,
}

/// The arena a live game was played in.
#[derive(Clone, Debug)]
pub struct Arena {
    pub name: String,
    pub url: String,
}

/// A live game as the callback endpoint gives it. Times are seconds since the
/// Unix epoch.
#[derive(Clone, Debug)]
pub struct LiveGame {
    pub can_send_trophy: bool,
    pub changes_players_rating: i32,
    pub color_of_winner: Option<String>,
    pub id: u64,
    pub initial_setup: String,
    pub is_live_game: bool,
    pub is_abortable: bool,
    pub is_analyzable: bool,
    pub is_checkmate: bool,
    pub is_stalemate: bool,
    pub is_finished: bool,
    pub is_rated: bool,
    pub is_resignable: bool,
    pub last_move: String,
    pub move_list: String,
    pub ply_count: i32,
    pub rating_change_white: Option<i32>,
    pub rating_change_black: Option<i32>,
    pub result_message: String,
    pub end_time: i64,
    pub arena: Option<Arena>,
    pub turn_color: String,
    pub kind: String,
    pub kind_name: String,
    pub allow_vacation: bool,
    pub pgn_headers: PGNHeaders,
    pub move_timestamps: String,
    pub base_time_1: i32,
    pub time_increment_1: i32,
}

/// The whole answer of the live-game endpoint.
#[derive(Clone, Debug)]
pub struct CallbackLiveGame {
    pub players: LivePlayers,
    pub game: LiveGame,
}

/// How a live game ended for the player of `color`.
pub open spec fn result_code(g: CallbackLiveGame, color: Seq<char>) -> Seq<char> {
    let base = if g.players.top.color@ == color {
        g.players.top
    } else {
        g.players.bottom
    };
    let message = g.game.result_message@;
    match g.game.color_of_winner {
        Some(winner) => if winner@ == color {
            "win"@
        } else if g.game.is_checkmate {
            "checkmated"@
        } else if base.turn_time_remaining@ == "Out of time"@ {
            "timeout"@
        } else if contains_seq(message, "resignation"@) {
            "resigned"@
        } else {
            "lose"@
        },
        None => if g.game.is_stalemate {
            "stalemate"@
        } else if message == "Game drawn by repetition"@ {
            "repetition"@
        } else if message == "Game drawn by insufficient material"@ {
            "insufficient"@
        } else if message == "Game drawn by agreement"@ {
            "agreed"@
        } else {
            "timevsinsufficient"@
        },
    }
}

/// The seat of the player of `color` (`"white"` or `"black"`): the top seat
/// where its colour matches, else the bottom one.
pub open spec fn seat_of(g: CallbackLiveGame, color: Seq<char>) -> LivePlayer {
    if g.players.top.color@ == color {
        g.players.top
    } else {
        g.players.bottom
    }
}

/// The address of a live game.
pub open spec fn live_game_url(id: nat) -> Seq<char> {
    "https://www.chess.com/live/game/"@ + decimal(id)
}

/// The PGN of a live game: its move list and clock readings replayed from
/// the position of its FEN header, linked to the game by its id.
pub open spec fn live_pgn(g: CallbackLiveGame) -> Result<Seq<char>, DecodeError> {
    assembled(
        g.game.pgn_headers,
        g.game.move_list@,
        Some(g.game.move_timestamps@),
        g.game.pgn_headers.fen@,
        g.game.pgn_headers.result@,
        Some(decimal(g.game.id as nat)),
    )
}

impl CallbackLiveGame {
    /// How the game ended for the player of `color`: `win`, `checkmated`,
    /// `timeout`, `resigned` or `lose` where somebody won, and `stalemate`,
    /// `repetition`, `insufficient`, `agreed` or `timevsinsufficient` for a draw.
    pub fn get_result_code(&self, color: &str) -> (r: String)
        ensures
            r@ == result_code(*self, color@),
    {
        let base = if str_eq(self.players.top.color.as_str(), color) {
            &self.players.top
        } else {
            &self.players.bottom
        };
        let message = self.game.result_message.as_str();
        match &self.game.color_of_winner {
            Some(winner) => if str_eq(winner.as_str(), color) {
                String::from_str("win")
            } else if self.game.is_checkmate {
                String::from_str("checkmated")
            } else if str_eq(base.turn_time_remaining.as_str(), "Out of time") {
                String::from_str("timeout")
            } else if str_contains(message, "resignation") {
                String::from_str("resigned")
            } else {
                String::from_str("lose")
            },
            None => if self.game.is_stalemate {
                String::from_str("stalemate")
            } else if str_eq(message, "Game drawn by repetition") {
                String::from_str("repetition")
            } else if str_eq(message, "Game drawn by insufficient material") {
                String::from_str("insufficient")
            } else if str_eq(message, "Game drawn by agreement") {
                String::from_str("agreed")
            } else {
                String::from_str("timevsinsufficient")
            },
        }
    }

    /// The seat of the player with the white pieces.
    pub fn white_seat(&self) -> (r: &LivePlayer)
        ensures
            *r == seat_of(*self, "white"@),
    {
        if str_eq(self.players.top.color.as_str(), "white") {
            &self.players.top
        } else {
            &self.players.bottom
        }
    }

    /// The seat of the player with the black pieces.
    pub fn black_seat(&self) -> (r: &LivePlayer)
        ensures
            *r == seat_of(*self, "black"@),
    {
        if str_eq(self.players.top.color.as_str(), "black") {
            &self.players.top
        } else {
            &self.players.bottom
        }
    }

    /// The game's PGN, decoded from its move list and clock readings, from
    /// the position of its FEN header, linked to the game by its id.
    pub fn pgn(&self) -> (r: Result<String, DecodeError>)
        ensures
            match r {
                Ok(s) => live_pgn(*self) == Ok::<Seq<char>, DecodeError>(s@),
                Err(e) => live_pgn(*self) == Err::<Seq<char>, DecodeError>(e),
            },
    {
        let mut id = String::new();
        push_decimal(&mut id, self.game.id);
        assert(id@ =~= decimal(self.game.id as nat));
        assemble(
            &self.game.pgn_headers,
            self.game.move_list.as_str(),
            Some(self.game.move_timestamps.as_str()),
            self.game.pgn_headers.fen.as_str(),
            self.game.pgn_headers.result.as_str(),
            Some(id.as_str()),
        )
    }
}

impl DisplayableChessGame for CallbackLiveGame {
    open spec fn white_name_of(&self) -> Seq<char> {
        seat_of(*self, "white"@).username@
    }

    open spec fn black_name_of(&self) -> Seq<char> {
        seat_of(*self, "black"@).username@
    }

    open spec fn url_of(&self) -> Seq<char> {
        live_game_url(self.game.id as nat)
    }

    open spec fn end_time_of(&self) -> i64 {
        self.game.end_time
    }

    fn white_name(&self) -> (r: String) {
        self.white_seat().username.clone()
    }

    fn black_name(&self) -> (r: String) {
        self.black_seat().username.clone()
    }

    fn url(&self) -> (r: String) {
        let mut s = String::from_str("https://www.chess.com/live/game/");
        push_decimal(&mut s, self.game.id);
        s
    }

    fn end_time(&self) -> (r: i64) {
        self.game.end_time
    }
}

impl DisplayableChessGame for Game {
    open spec fn white_name_of(&self) -> Seq<char> {
        self.white.username@
    }

    open spec fn black_name_of(&self) -> Seq<char> {
        self.black.username@
    }

    open spec fn url_of(&self) -> Seq<char> {
        self.url@
    }

    open spec fn end_time_of(&self) -> i64 {
        self.end_time
    }

    fn white_name(&self) -> (r: String) {
        self.white.username.clone()
    }

    fn black_name(&self) -> (r: String) {
        self.black.username.clone()
    }

    fn url(&self) -> (r: String) {
        self.url.clone()
    }

    fn end_time(&self) -> (r: i64) {
        self.end_time
    }
}

} // verus!
