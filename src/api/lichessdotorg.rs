use vstd::prelude::*;

use super::{ChessPlayer, DisplayableChessGame};
use crate::text::{clone_opt, opt_view, push_str};

verus! {

/// A game as the lichess.org API gives it. Times are seconds since the Unix epoch.
#[derive(Clone, Debug)]
pub struct Game {
    pub id: String,
    pub rated: bool,
    pub variant: String,
    pub speed: String,
    pub perf: String,
    pub created_at: i64,
    pub last_move_at: i64,
    pub status: String,
    pub players: Players,
    pub opening: Option<Opening>,
    pub pgn: String,
    pub clock: Clock,
    pub moves: String,
}

/// The two players of a lichess.org game.
#[derive(Clone, Debug)]
pub struct Players {
    pub white: Player,
    pub black: Player,
}

/// A player of a lichess.org game; anonymous players have no user.
#[derive(Clone, Debug)]
pub struct Player {
    pub user: Option<User>,
    pub rating: Option<u32>,
    pub rating_diff: Option<i32>,
}

/// A lichess.org account.
#[derive(Clone, Debug)]
pub struct User {
    pub name: String,
    pub title: Option<String>,
    pub patron: Option<bool>,
    pub id: String,
}

/// The opening a lichess.org game was classified under.
#[derive(Clone, Debug)]
pub struct Opening {
    pub eco: String,
    pub name: String,
    pub ply: i32,
}

/// The time control of a lichess.org game.
#[derive(Clone, Debug)]
pub struct Clock {
    pub initial: u32,
    pub increment: u32,
    pub total_time: u32,
}

/// The profile address of a lichess.org account.
pub open spec fn lichess_profile(id: Seq<char>) -> Seq<char> {
    "https://lichess.org/@/"@ + id
}

/// The address of a lichess.org game.
pub open spec fn lichess_game_url(id: Seq<char>) -> Seq<char> {
    "https://lichess.org/"@ + id
}

impl ChessPlayer for Player {
    open spec fn name_of(&self) -> Seq<char> {
        match self.user {
            Some(u) => u.name@,
            None => "Anonymous"@,
        }
    }

    open spec fn title_of(&self) -> Option<Seq<char>> {
        match self.user {
            Some(u) => opt_view(u.title),
            None => None,
        }
    }

    open spec fn rating_of(&self) -> Option<u32> {
        self.rating
    }

    open spec fn url_of(&self) -> Option<Seq<char>> {
        match self.user {
            Some(u) => Some(lichess_profile(u.id@)),
            None => None,
        }
    }

    open spec fn result_of(&self) -> Option<Seq<char>> {
        None
    }

    fn name(&self) -> (r: String) {
        match &self.user {
            Some(u) => u.name.clone(),
            None => String::from_str("Anonymous"),
        }
    }

    fn title(&self) -> (r: Option<String>) {
        match &self.user {
            Some(u) => clone_opt(&u.title),
            None => None,
        }
    }

    fn rating(&self) -> (r: Option<u32>) {
        self.rating
    }

    fn url(&self) -> (r: Option<String>) {
        match &self.user {
            Some(u) => {
                let mut s = String::from_str("https://lichess.org/@/");
                push_str(&mut s, u.id.as_str());
                Some(s)
            },
            None => None,
        }
    }

    fn result(&self) -> (r: Option<String>) {
        None
    }
}

impl DisplayableChessGame for Game {
    open spec fn white_name_of(&self) -> Seq<char> {
        self.players.white.name_of()
    }

    open spec fn black_name_of(&self) -> Seq<char> {
        self.players.black.name_of()
    }

    open spec fn url_of(&self) -> Seq<char> {
        lichess_game_url(self.id@)
    }

    open spec fn end_time_of(&self) -> i64 {
        self.last_move_at
    }

    fn white_name(&self) -> (r: String) {
        self.players.white.name()
    }

    fn black_name(&self) -> (r: String) {
        self.players.black.name()
    }

    fn url(&self) -> (r: String) {
        let mut s = String::from_str("https://lichess.org/");
        push_str(&mut s, self.id.as_str());
        s
    }

    fn end_time(&self) -> (r: i64) {
        self.last_move_at
    }
}

} // verus!
