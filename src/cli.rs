use vstd::prelude::*;

use crate::finder::{GameFinder, Search};

verus! {

/// Whether a character is numeric, as `char::is_numeric` says.
pub uninterp spec fn numeric_char(c: char) -> bool;

/// Whether a character is an ASCII digit.
pub open spec fn ascii_digit(c: char) -> bool {
    '0' as u32 <= c as u32 <= '9' as u32
}

/// Whether a character is ASCII but no digit.
pub open spec fn ascii_non_digit(c: char) -> bool {
    c as u32 <= 127 && !ascii_digit(c)
}

/// Relies on `char::is_numeric`, whose answer depends on the character alone:
/// numeric characters are those of the Unicode categories Nd, Nl and No, which
/// among ASCII hold the digits only.
#[verifier::external_body]
fn is_numeric(c: char) -> (r: bool)
    ensures
        r == numeric_char(c),
        ascii_digit(c) ==> r,
        ascii_non_digit(c) ==> !r,
{
    c.is_numeric()
}

/// Whether every character of a text is numeric.
pub open spec fn all_numeric(s: Seq<char>) -> bool {
    forall|i: int| 0 <= i < s.len() ==> numeric_char(#[trigger] s[i])
}

fn all_chars_numeric(s: &str) -> (r: bool)
    ensures
        r == all_numeric(s@),
        (forall|i: int| 0 <= i < s@.len() ==> ascii_digit(#[trigger] s@[i])) ==> r,
        (exists|i: int| 0 <= i < s@.len() && ascii_non_digit(#[trigger] s@[i])) ==> !r,
{
    let n = s.unicode_len();
    let mut i: usize = 0;
    while i < n
        invariant
            n == s@.len(),
            i <= n,
            forall|k: int| 0 <= k < i ==> numeric_char(#[trigger] s@[k]),
            forall|k: int| 0 <= k < i ==> !ascii_non_digit(#[trigger] s@[k]),
        decreases n - i,
    {
        if !is_numeric(s.get_char(i)) {
            return false;
        }
        i = i + 1;
    }
    true
}

/// The choices made on the command line.
pub struct ChessGameFinderCLI {
    pub output: String,
    pub finder: GameFinder,
}

/// The output format chosen, where none of `pgn`, `json-pretty` and `json` is
/// chosen a table.
pub open spec fn output_name(pgn: bool, json_pretty: bool, json: bool) -> Seq<char> {
    if pgn {
        "pgn"@
    } else if json_pretty {
        "json-pretty"@
    } else if json {
        "json"@
    } else {
        "table"@
    }
}

impl ChessGameFinderCLI {
    /// The search and output that the command-line choices ask for. A text of
    /// numeric characters is a game id unless `force_player` is set; any other
    /// text is a player's name. `--white` wins over `--black`; a date is set
    /// before year, month and day, which override its parts.
    pub fn from_choices(
        player_or_id: &str,
        force_player: bool,
        api: &str,
        white: bool,
        black: bool,
        date: Option<(u32, u32, u32)>,
        year: Option<u32>,
        month: Option<u32>,
        day: Option<u32>,
        pgn: bool,
        json_pretty: bool,
        json: bool,
    ) -> (r: ChessGameFinderCLI)
        ensures
            r.output@ == output_name(pgn, json_pretty, json),
            r.finder.api@ == api@,
            (r.finder.search is Player) == (force_player || !all_numeric(player_or_id@)),
            !force_player && (forall|i: int| 0 <= i < player_or_id@.len() ==> ascii_digit(
                #[trigger] player_or_id@[i],
            )) ==> r.finder.search is ID,
            (exists|i: int| 0 <= i < player_or_id@.len() && ascii_non_digit(#[trigger] player_or_id@[i]))
                ==> r.finder.search is Player,
            match r.finder.search {
                Search::Player(p) => p@ == player_or_id@,
                Search::ID(p) => p@ == player_or_id@,
            },
            r.finder.pieces == (if white {
                Some(crate::finder::Pieces::White)
            } else if black {
                Some(crate::finder::Pieces::Black)
            } else {
                None
            }),
            r.finder.year == (if year is Some {
                year
            } else {
                match date {
                    Some(d) => Some(d.0),
                    None => None,
                }
            }),
            r.finder.month == (if month is Some {
                month
            } else {
                match date {
                    Some(d) => Some(d.1),
                    None => None,
                }
            }),
            r.finder.day == (if day is Some {
                day
            } else {
                match date {
                    Some(d) => Some(d.2),
                    None => None,
                }
            }),
            r.finder.opponent is None,
    {
        let mut finder = if force_player || !all_chars_numeric(player_or_id) {
            GameFinder::by_player(player_or_id, api)
        } else {
            GameFinder::by_id(player_or_id, api)
        };
        if white {
            finder.white();
        } else if black {
            finder.black();
        }
        match date {
            Some((y, m, d)) => {
                finder.date(y, m, d);
            },
            None => {},
        }
        match year {
            Some(y) => {
                finder.year(y);
            },
            None => {},
        }
        match month {
            Some(m) => {
                finder.month(m);
            },
            None => {},
        }
        match day {
            Some(d) => {
                finder.day(d);
            },
            None => {},
        }
        let output = if pgn {
            String::from_str("pgn")
        } else if json_pretty {
            String::from_str("json-pretty")
        } else if json {
            String::from_str("json")
        } else {
            String::from_str("table")
        };
        ChessGameFinderCLI { output, finder }
    }

    /// The output format chosen.
    pub fn output(&self) -> (r: &String)
        ensures
            *r == self.output,
    {
        &self.output
    }

    /// The search chosen.
    pub fn finder(&self) -> (r: &GameFinder)
        ensures
            *r == self.finder,
    {
        &self.finder
    }
}

} // verus!
