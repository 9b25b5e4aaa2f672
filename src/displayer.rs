use vstd::prelude::*;

use crate::api::ChessPlayer;
use crate::text::{decimal, push_char, push_decimal, push_str, str_eq};

verus! {

/// The ways a game can be shown.
#[derive(Clone, Copy, PartialEq, Eq, Structural, Debug)]
pub enum Output {
    Json,
    JsonPretty,
    Pgn,
    Table,
}

/// The output a name asks for, if it names one.
pub open spec fn output_named(name: Seq<char>) -> Option<Output> {
    if name == "json"@ {
        Some(Output::Json)
    } else if name == "json-pretty"@ {
        Some(Output::JsonPretty)
    } else if name == "pgn"@ {
        Some(Output::Pgn)
    } else if name == "table"@ {
        Some(Output::Table)
    } else {
        None
    }
}

impl Output {
    /// The output named `name`: `json`, `json-pretty`, `pgn` or `table`.
    pub fn from_name(name: &str) -> (r: Option<Output>)
        ensures
            r == output_named(name@),
    {
        if str_eq(name, "json") {
            Some(Output::Json)
        } else if str_eq(name, "json-pretty") {
            Some(Output::JsonPretty)
        } else if str_eq(name, "pgn") {
            Some(Output::Pgn)
        } else if str_eq(name, "table") {
            Some(Output::Table)
        } else {
            None
        }
    }
}

/// A rating as shown in the table: the number, or `N/A` where there is none.
pub open spec fn rating_label(rating: Option<u32>) -> Seq<char> {
    match rating {
        Some(x) => decimal(x as nat),
        None => "N/A"@,
    }
}

/// A player as shown in the table: `name (rating) symbol`.
pub open spec fn player_label_text(name: Seq<char>, rating: Option<u32>, symbol: char) -> Seq<char> {
    name + seq![' ', '('] + rating_label(rating) + seq![')', ' ', symbol]
}

/// Writes a player as shown in the table, followed by the symbol of its pieces.
pub fn player_label<P: ChessPlayer>(p: &P, symbol: char) -> (r: String)
    ensures
        r@ == player_label_text(p.name_of(), p.rating_of(), symbol),
{
    let mut s = p.name();
    let ghost name = s@;
    push_char(&mut s, ' ');
    push_char(&mut s, '(');
    match p.rating() {
        Some(x) => push_decimal(&mut s, x as u64),
        None => push_str(&mut s, "N/A"),
    }
    push_char(&mut s, ')');
    push_char(&mut s, ' ');
    push_char(&mut s, symbol);
    assert(s@ =~= player_label_text(name, p.rating_of(), symbol));
    s
}

/// The results row of the table: both players' results, where both have one.
pub fn result_row<P: ChessPlayer>(white: &P, black: &P) -> (r: Option<(String, String)>)
    ensures
        r is Some <==> (white.result_of() is Some && black.result_of() is Some),
        r matches Some(row) ==> Some(row.0@) == white.result_of() && Some(row.1@) == black.result_of(),
{
    match (white.result(), black.result()) {
        (Some(w), Some(b)) => Some((w, b)),
        _ => None,
    }
}

} // verus!
