use vstd::prelude::*;

use crate::api::chessdotcom::{clock_parts, header_text, time_from_timestamp, PGNHeaders};
use crate::board::{DecodeError, Direction, Role, Side};
use crate::engine::{
    engine_move_of, fen_position_of, legal_in, occupant, turn_of, play, played, position_from_fen, san_in, turn,
    white_to_move,
};
use crate::text::{chars_of, decimal, push_char, push_decimal, push_str, push_two_digits, two_digits};
use crate::utils::{
    classify_spec, hint_token, law_encoded_ply_decodes, next_ply, offset, ply_move, square_token,
};

verus! {

pub open spec fn is_digit(c: char) -> bool {
    '0' as u32 <= c as u32 <= '9' as u32
}

pub open spec fn digit_value(c: char) -> nat {
    (c as u32 - '0' as u32) as nat
}

/// The number that a string of decimal digits spells.
pub open spec fn digits_value(f: Seq<char>) -> nat
    decreases f.len(),
{
    if f.len() == 0 {
        0
    } else {
        digits_value(f.drop_last()) * 10 + digit_value(f.last())
    }
}

/// The pieces of `s` between its commas (one piece for a text without a comma).
pub open spec fn comma_fields(s: Seq<char>) -> Seq<Seq<char>>
    decreases s.len(),
{
    if s.len() == 0 {
        seq![Seq::empty()]
    } else {
        let prev = comma_fields(s.drop_last());
        if s.last() == ',' {
            prev.push(Seq::empty())
        } else {
            prev.update(prev.len() - 1, prev.last().push(s.last()))
        }
    }
}

/// A piece that reads as a clock value: one or more digits, fitting in `u32`.
pub open spec fn clock_field_ok(f: Seq<char>) -> bool {
    &&& f.len() > 0
    &&& forall|i: int| 0 <= i < f.len() ==> is_digit(#[trigger] f[i])
    &&& digits_value(f) <= u32::MAX
}

/// The clock values of a comma-separated list of integers; the empty text is
/// the empty list, and any piece that is not a `u32` in decimal makes it `None`.
pub open spec fn parse_clocks(s: Seq<char>) -> Option<Seq<u32>> {
    if s.len() == 0 {
        Some(Seq::empty())
    } else if forall|k: int| 0 <= k < comma_fields(s).len() ==> clock_field_ok(#[trigger] comma_fields(s)[k]) {
        Some(comma_fields(s).map_values(|f: Seq<char>| digits_value(f) as u32))
    } else {
        None
    }
}

/// Reads a comma-separated list of clock values (tenths of a second).
pub fn parse_timestamps(text: &str) -> (r: Result<Vec<u32>, DecodeError>)
    ensures
        match parse_clocks(text@) {
            Some(v) => r matches Ok(w) && w@ == v,
            None => r == Err::<Vec<u32>, DecodeError>(DecodeError::InvalidTimestamp),
        },
{
    let s = chars_of(text);
    let n = s.len();
    let mut values: Vec<u32> = Vec::new();
    if n == 0 {
        assert(values@ =~= Seq::<u32>::empty());
        return Ok(values);
    }
    let mut cur: u64 = 0;
    let mut cur_len: usize = 0;
    let mut valid = true;
    let mut i: usize = 0;
    proof {
        assert(s@.take(0) =~= Seq::<char>::empty());
    }
    while i < n
        invariant
            n == s@.len(),
            s@ == text@,
            i <= n,
            cur_len <= i,
            comma_fields(s@.take(i as int)).len() >= 1,
            cur_len == comma_fields(s@.take(i as int)).last().len(),
            valid ==> values@.len() == comma_fields(s@.take(i as int)).len() - 1,
            valid ==> forall|k: int|
                0 <= k < comma_fields(s@.take(i as int)).len() - 1 ==> clock_field_ok(
                    #[trigger] comma_fields(s@.take(i as int))[k],
                ) && values@[k] == digits_value(comma_fields(s@.take(i as int))[k]) as u32,
            valid ==> forall|j: int|
                0 <= j < cur_len ==> is_digit(#[trigger] comma_fields(s@.take(i as int)).last()[j]),
            valid ==> cur == digits_value(comma_fields(s@.take(i as int)).last()),
            valid ==> cur <= u32::MAX,
            !valid ==> (exists|k: int|
                0 <= k < comma_fields(s@.take(i as int)).len() - 1 && !clock_field_ok(
                    #[trigger] comma_fields(s@.take(i as int))[k],
                )) || !(forall|j: int|
                0 <= j < cur_len ==> is_digit(#[trigger] comma_fields(s@.take(i as int)).last()[j]))
                || digits_value(comma_fields(s@.take(i as int)).last()) > u32::MAX,
        decreases n - i,
    {
        let c = s[i];
        let ghost pre = s@.take(i as int);
        let ghost fs = comma_fields(pre);
        let ghost last = fs.last();
        proof {
            assert(s@.take(i + 1).drop_last() =~= pre);
            assert(s@.take(i + 1).last() == c);
        }
        if c == ',' {
            proof {
                let nfs = fs.push(Seq::empty());
                assert(comma_fields(s@.take(i + 1)) == nfs);
                if valid && cur_len == 0 {
                    assert(!clock_field_ok(nfs[fs.len() - 1]));
                } else if valid {
                    assert forall|j: int| 0 <= j < last.len() implies is_digit(#[trigger] last[j]) by {}
                    assert(clock_field_ok(nfs[fs.len() - 1]));
                } else if !(exists|k: int| 0 <= k < fs.len() - 1 && !clock_field_ok(#[trigger] fs[k])) {
                    assert(!clock_field_ok(nfs[fs.len() - 1]));
                } else {
                    let k = choose|k: int| 0 <= k < fs.len() - 1 && !clock_field_ok(#[trigger] fs[k]);
                    assert(!clock_field_ok(nfs[k]));
                }
            }
            if valid {
                if cur_len == 0 {
                    valid = false;
                } else {
                    values.push(cur as u32);
                }
            }
            cur = 0;
            cur_len = 0;
        } else {
            let ghost nlast = last.push(c);
            let ghost nfs = fs.update(fs.len() - 1, nlast);
            proof {
                assert(comma_fields(s@.take(i + 1)) == nfs);
                assert(nlast.drop_last() =~= last);
                assert(digits_value(nlast) == digits_value(last) * 10 + digit_value(c));
            }
            let is_d = c as u32 >= '0' as u32 && c as u32 <= '9' as u32;
            proof {
                assert(is_d == is_digit(c));
                assert(nlast[cur_len as int] == c);
                if !valid {
                    if !is_d {
                        assert(!is_digit(nlast[cur_len as int]));
                    } else if digits_value(last) > u32::MAX {
                        assert(digits_value(nlast) > u32::MAX) by (nonlinear_arith)
                            requires
                                digits_value(nlast) == digits_value(last) * 10 + digit_value(c),
                                digits_value(last) > u32::MAX,
                        ;
                    } else if !(forall|j: int| 0 <= j < cur_len ==> is_digit(#[trigger] last[j])) {
                        let j = choose|j: int| 0 <= j < cur_len && !is_digit(#[trigger] last[j]);
                        assert(!is_digit(nlast[j]));
                    } else {
                        let k = choose|k: int| 0 <= k < fs.len() - 1 && !clock_field_ok(#[trigger] fs[k]);
                        assert(nfs[k] == fs[k]);
                    }
                } else if !is_d {
                    assert(!is_digit(nlast[cur_len as int]));
                }
            }
            if is_d {
                if valid {
                    let d = (c as u32 - '0' as u32) as u64;
                    cur = cur * 10 + d;
                    if cur > 4294967295 {
                        valid = false;
                    }
                }
            } else {
                valid = false;
            }
            cur_len = cur_len + 1;
        }
        i = i + 1;
    }
    assert(s@.take(n as int) =~= s@);
    if valid && cur_len > 0 {
        values.push(cur as u32);
        let ghost fs = comma_fields(s@);
        assert forall|j: int| 0 <= j < fs.last().len() implies is_digit(#[trigger] fs.last()[j]) by {}
        assert(clock_field_ok(fs[fs.len() - 1]));
        assert(values@ =~= fs.map_values(|f: Seq<char>| digits_value(f) as u32));
        Ok(values)
    } else {
        proof {
            let fs = comma_fields(s@);
            if valid {
                assert(!clock_field_ok(fs[fs.len() - 1]));
            } else if !(exists|k: int| 0 <= k < fs.len() - 1 && !clock_field_ok(#[trigger] fs[k])) {
                assert(!clock_field_ok(fs[fs.len() - 1]));
            }
        }
        Err(DecodeError::InvalidTimestamp)
    }
}


/// A ply that has been played: its SAN and whether White made it.
#[derive(Clone, Debug)]
pub struct PlayedPly {
    pub san: String,
    pub white_moved: bool,
}

/// The inline clock comment of a ply: ` {[%clk H:MM:SS.D]} `.
pub open spec fn clock_text(ts: nat) -> Seq<char> {
    let (h, m, sec, t) = clock_parts(ts);
    seq![' ', '{', '[', '%', 'c', 'l', 'k', ' '] + decimal(h) + seq![':'] + two_digits(m) + seq![':']
        + two_digits(sec) + seq!['.'] + decimal(t) + seq![']', '}', ' ']
}

/// Whether the move number goes up after ply `p`: after Black's ply where
/// clocks are written, after White's ply where they are not.
pub open spec fn bumps(p: (Seq<char>, bool), timed: bool) -> bool {
    if timed {
        !p.1
    } else {
        p.1
    }
}

/// The move number in force at ply `k` (counting from 0); it starts at 1.
pub open spec fn move_number(plies: Seq<(Seq<char>, bool)>, timed: bool, k: int) -> nat
    decreases k,
{
    if k <= 0 {
        1
    } else {
        move_number(plies, timed, k - 1) + if bumps(plies[k - 1], timed) {
            1nat
        } else {
            0nat
        }
    }
}

/// A ply as its SAN and whether White made it.
pub open spec fn ply_view(p: PlayedPly) -> (Seq<char>, bool) {
    (p.san@, p.white_moved)
}

/// The plies of a list as SAN and mover.
pub open spec fn plies_view(plies: Seq<PlayedPly>) -> Seq<(Seq<char>, bool)> {
    plies.map_values(|p: PlayedPly| ply_view(p))
}

/// The text of one ply. With a clock every ply gets its number (`n.` before
/// White's SAN, `n...` before Black's) and the clock comment; without one only
/// White's ply is numbered and a space follows the SAN.
pub open spec fn ply_text(p: (Seq<char>, bool), n: nat, clock: Option<u32>) -> Seq<char> {
    match clock {
        Some(ts) => decimal(n) + (if p.1 {
            seq!['.', ' ']
        } else {
            seq!['.', '.', '.', ' ']
        }) + p.0 + clock_text(ts as nat),
        None => (if p.1 {
            decimal(n) + seq!['.', ' ']
        } else {
            Seq::empty()
        }) + p.0 + seq![' '],
    }
}

/// The move text of the first `k` plies.
pub open spec fn move_text(plies: Seq<(Seq<char>, bool)>, clocks: Option<Seq<u32>>, k: int) -> Seq<char>
    decreases k,
{
    if k <= 0 {
        Seq::empty()
    } else {
        move_text(plies, clocks, k - 1) + ply_text(
            plies[k - 1],
            move_number(plies, clocks is Some, k - 1),
            match clocks {
                Some(c) => Some(c[k - 1]),
                None => None,
            },
        )
    }
}

/// The plies that a token stream gives, read from index `at` and played
/// from `pos`: each ply's SAN and whether White made it. The first ply that
/// cannot be read, resolved or played ends it with its error.
pub open spec fn replay(tokens: Seq<char>, at: int, pos: shakmaty::Chess) -> Result<
    Seq<(Seq<char>, bool)>,
    DecodeError,
>
    decreases tokens.len() - at,
{
    if at < 0 || at >= tokens.len() {
        Ok(Seq::empty())
    } else if tokens.len() - at == 1 {
        Err(DecodeError::OddTokenStream)
    } else {
        match ply_move(pos, tokens[at], tokens[at + 1]) {
            Err(e) => Err(e),
            Ok(m) => {
                let em = engine_move_of(m);
                if !legal_in(pos, em) {
                    Err(DecodeError::IllegalMove)
                } else {
                    match replay(tokens, at + 2, played(pos, em)) {
                        Err(e) => Err(e),
                        Ok(rest) => Ok(seq![(san_in(pos, em), white_to_move(pos))] + rest),
                    }
                }
            },
        }
    }
}

/// The clock readings of a game with `plies` plies, where the list reads and
/// has one reading per ply.
pub open spec fn clocks_for(timestamps: Option<Seq<char>>, plies: int) -> Result<Option<Seq<u32>>, DecodeError> {
    match timestamps {
        None => Ok(None),
        Some(t) => match parse_clocks(t) {
            None => Err(DecodeError::InvalidTimestamp),
            Some(c) => if c.len() != plies {
                Err(DecodeError::TimestampCountMismatch)
            } else {
                Ok(Some(c))
            },
        },
    }
}

/// The PGN of a live game: the starting position is read first, then the
/// clock list, then the move stream is replayed; the text is the header block,
/// the move text and the result.
pub open spec fn assembled(
    header: PGNHeaders,
    tokens: Seq<char>,
    timestamps: Option<Seq<char>>,
    fen: Seq<char>,
    result: Seq<char>,
    link_id: Option<Seq<char>>,
) -> Result<Seq<char>, DecodeError> {
    match fen_position_of(fen) {
        None => Err(DecodeError::InvalidStartingPosition),
        Some(start) => match clocks_for(timestamps, tokens.len() as int / 2) {
            Err(e) => Err(e),
            Ok(clocks) => match replay(tokens, 0, start) {
                Err(e) => Err(e),
                Ok(plies) => Ok(
                    header_text(header, link_id) + move_text(plies, clocks, plies.len() as int) + result,
                ),
            },
        },
    }
}

/// A replayed stream gives one ply per token pair, and a stream of odd length
/// never replays without error.
pub proof fn law_replay_pairs(tokens: Seq<char>, at: int, pos: shakmaty::Chess)
    requires
        0 <= at <= tokens.len(),
    ensures
        replay(tokens, at, pos) matches Ok(p) ==> 2 * p.len() == tokens.len() - at,
        (tokens.len() - at) % 2 == 1 ==> replay(tokens, at, pos) is Err,
    decreases tokens.len() - at,
{
    if at < tokens.len() && tokens.len() - at != 1 {
        match ply_move(pos, tokens[at], tokens[at + 1]) {
            Err(_) => {},
            Ok(m) => {
                let em = engine_move_of(m);
                if legal_in(pos, em) {
                    law_replay_pairs(tokens, at + 2, played(pos, em));
                }
            },
        }
    }
}

/// On a stream of odd length the replay ends with `OddTokenStream` exactly
/// where every complete pair before the last token replays; otherwise it ends
/// with the error of the first pair that does not.
pub proof fn law_odd_stream_at_end(tokens: Seq<char>, at: int, pos: shakmaty::Chess)
    requires
        0 <= at <= tokens.len(),
        (tokens.len() - at) % 2 == 1,
    ensures
        replay(tokens, at, pos) == match replay(tokens.drop_last(), at, pos) {
            Ok(_) => Err(DecodeError::OddTokenStream),
            Err(e) => Err::<Seq<(Seq<char>, bool)>, DecodeError>(e),
        },
    decreases tokens.len() - at,
{
    let short = tokens.drop_last();
    if tokens.len() - at >= 3 {
        assert(short[at] == tokens[at] && short[at + 1] == tokens[at + 1]);
        match ply_move(pos, tokens[at], tokens[at + 1]) {
            Err(_) => {},
            Ok(m) => {
                let em = engine_move_of(m);
                if legal_in(pos, em) {
                    law_odd_stream_at_end(tokens, at + 2, played(pos, em));
                }
            },
        }
    }
}

/// The promotion direction that a move's square difference stands for:
/// +7 or -9 is left, +8 or -8 straight on, +9 or -7 right.
pub open spec fn direction_of_delta(delta: int) -> Direction {
    if delta == 7 || delta == -9 {
        Direction::Left
    } else if delta == 9 || delta == -7 {
        Direction::Right
    } else {
        Direction::Center
    }
}

/// The tokens of one move (source, destination, promotion): the source
/// square's token, then the destination square's token, or for a promotion
/// the hint of its direction and role.
pub open spec fn move_tokens(m: (int, int, Option<Role>)) -> Seq<char> {
    let (from, to, promotion) = m;
    seq![
        square_token(from),
        match promotion {
            None => square_token(to),
            Some(role) => hint_token(direction_of_delta(to - from), role),
        },
    ]
}

/// The token stream of a game's moves.
pub open spec fn encode_moves(moves: Seq<(int, int, Option<Role>)>) -> Seq<char>
    decreases moves.len(),
{
    if moves.len() == 0 {
        Seq::empty()
    } else {
        move_tokens(moves[0]) + encode_moves(moves.skip(1))
    }
}

/// Whether a promotion can be written as a hint for `side`: its role is a
/// queen, knight, rook or bishop and it goes forward for `side`.
pub open spec fn promotion_writable(side: Side, from: int, to: int, role: Role) -> bool {
    role != Role::Pawn && role != Role::King && to - from == offset(side, direction_of_delta(to - from))
}

/// The plies of playing a game's moves from `pos`: each ply's SAN in the
/// position before it and whether White made it, up to the first move that is
/// not legal.
pub open spec fn play_moves(moves: Seq<(int, int, Option<Role>)>, pos: shakmaty::Chess) -> Result<
    Seq<(Seq<char>, bool)>,
    DecodeError,
>
    decreases moves.len(),
{
    if moves.len() == 0 {
        Ok(Seq::empty())
    } else {
        let (from, to, promotion) = moves[0];
        if promotion matches Some(role) && !promotion_writable(turn_of(pos), from, to, role) {
            Err(DecodeError::IllegalMove)
        } else {
            match classify_spec(turn_of(pos), from as u8, to as u8, promotion, occupant(pos, from), occupant(pos, to)) {
                Err(e) => Err(e),
                Ok(m) => {
                    let em = engine_move_of(m);
                    if !legal_in(pos, em) {
                        Err(DecodeError::IllegalMove)
                    } else {
                        match play_moves(moves.skip(1), played(pos, em)) {
                            Err(e) => Err(e),
                            Ok(rest) => Ok(seq![(san_in(pos, em), white_to_move(pos))] + rest),
                        }
                    }
                },
            }
        }
    }
}

/// Squares of every move on the board.
pub open spec fn moves_on_board(moves: Seq<(int, int, Option<Role>)>) -> bool {
    forall|k: int| 0 <= k < moves.len() ==> 0 <= (#[trigger] moves[k]).0 < 64 && 0 <= moves[k].1 < 64
}

proof fn lemma_encoded_len(moves: Seq<(int, int, Option<Role>)>)
    ensures
        encode_moves(moves).len() == 2 * moves.len(),
    decreases moves.len(),
{
    if moves.len() > 0 {
        lemma_encoded_len(moves.skip(1));
    }
}

proof fn lemma_replay_encoded(prefix: Seq<char>, moves: Seq<(int, int, Option<Role>)>, pos: shakmaty::Chess)
    requires
        moves_on_board(moves),
    ensures
        play_moves(moves, pos) matches Ok(p) ==> replay(prefix + encode_moves(moves), prefix.len() as int, pos)
            == Ok::<Seq<(Seq<char>, bool)>, DecodeError>(p),
    decreases moves.len(),
{
    let tokens = prefix + encode_moves(moves);
    if moves.len() == 0 {
        assert(tokens =~= prefix);
    } else if play_moves(moves, pos) is Ok {
        let (from, to, promotion) = moves[0];
        let rest = moves.skip(1);
        let head = move_tokens(moves[0]);
        assert(tokens =~= (prefix + head) + encode_moves(rest));
        assert(tokens[prefix.len() as int] == head[0]);
        assert(tokens[prefix.len() as int + 1] == head[1]);
        assert(moves_on_board(rest)) by {
            assert forall|k: int| 0 <= k < rest.len() implies 0 <= (#[trigger] rest[k]).0 < 64 && 0
                <= rest[k].1 < 64 by {
                assert(rest[k] == moves[k + 1]);
            }
        }
        match promotion {
            None => {
                law_encoded_ply_decodes(turn_of(pos), from, to, Direction::Center, Role::Queen, pos);
            },
            Some(role) => {
                law_encoded_ply_decodes(turn_of(pos), from, to, direction_of_delta(to - from), role, pos);
            },
        }
        let m = classify_spec(turn_of(pos), from as u8, to as u8, promotion, occupant(pos, from), occupant(pos, to))->Ok_0;
        lemma_replay_encoded(prefix + head, rest, played(pos, engine_move_of(m)));
    }
}

/// Encoding a legal game's moves as tokens and decoding them gives the game
/// back: where the moves can be played one after another from the FEN's
/// position, their token stream replays to the same plies, and the PGN holds
/// exactly their SANs, numbered, with one clock comment per ply where a clock
/// list with one reading per move is given, and the result.
pub proof fn law_encoded_game_round_trips(
    moves: Seq<(int, int, Option<Role>)>,
    header: PGNHeaders,
    timestamps: Option<Seq<char>>,
    fen: Seq<char>,
    result: Seq<char>,
    link_id: Option<Seq<char>>,
)
    requires
        moves_on_board(moves),
        fen_position_of(fen) is Some,
        play_moves(moves, fen_position_of(fen)->0) is Ok,
        clocks_for(timestamps, moves.len() as int) is Ok,
    ensures
        ({
            let plies = play_moves(moves, fen_position_of(fen)->0)->Ok_0;
            &&& replay(encode_moves(moves), 0, fen_position_of(fen)->0) == Ok::<
                Seq<(Seq<char>, bool)>,
                DecodeError,
            >(plies)
            &&& plies.len() == moves.len()
            &&& assembled(header, encode_moves(moves), timestamps, fen, result, link_id) == Ok::<
                Seq<char>,
                DecodeError,
            >(
                header_text(header, link_id) + move_text(
                    plies,
                    clocks_for(timestamps, moves.len() as int)->Ok_0,
                    plies.len() as int,
                ) + result,
            )
        }),
{
    let start = fen_position_of(fen)->0;
    lemma_replay_encoded(Seq::empty(), moves, start);
    assert(Seq::<char>::empty() + encode_moves(moves) =~= encode_moves(moves));
    lemma_encoded_len(moves);
    law_replay_pairs(encode_moves(moves), 0, start);
}

/// Appends the clock comment of a clock reading.
pub fn push_clock(s: &mut String, ts: u32)
    ensures
        final(s)@ == old(s)@ + clock_text(ts as nat),
{
    let (h, m, sec, t) = time_from_timestamp(ts);
    let ghost start = s@;
    push_char(s, ' ');
    push_char(s, '{');
    push_char(s, '[');
    push_char(s, '%');
    push_char(s, 'c');
    push_char(s, 'l');
    push_char(s, 'k');
    push_char(s, ' ');
    push_decimal(s, h as u64);
    push_char(s, ':');
    push_two_digits(s, m as u64);
    push_char(s, ':');
    push_two_digits(s, sec as u64);
    push_char(s, '.');
    push_decimal(s, t as u64);
    push_char(s, ']');
    push_char(s, '}');
    push_char(s, ' ');
    assert(s@ =~= start + clock_text(ts as nat));
}

/// Writes the move text of the played plies, with clock comments where
/// `clocks` gives one reading per ply.
pub fn render_moves(plies: &Vec<PlayedPly>, clocks: Option<&Vec<u32>>) -> (r: String)
    requires
        clocks matches Some(c) ==> c@.len() == plies@.len(),
        plies@.len() < usize::MAX,
    ensures
        r@ == move_text(
            plies_view(plies@),
            match clocks {
                Some(c) => Some(c@),
                None => None,
            },
            plies@.len() as int,
        ),
{
    let ghost cv = match clocks {
        Some(c) => Some(c@),
        None => None,
    };
    let ghost timed = clocks is Some;
    let mut s = String::new();
    let mut n: u64 = 1;
    let mut i: usize = 0;
    while i < plies.len()
        invariant
            i <= plies@.len(),
            n == move_number(plies_view(plies@), timed, i as int),
            n <= i + 1,
            s@ == move_text(plies_view(plies@), cv, i as int),
            timed == (clocks is Some),
            cv == (match clocks {
                Some(c) => Some(c@),
                None => None,
            }),
            clocks matches Some(c) ==> c@.len() == plies@.len(),
            plies@.len() < usize::MAX,
        decreases plies@.len() - i,
    {
        let p = &plies[i];
        let ghost before = s@;
        match clocks {
            Some(c) => {
                push_decimal(&mut s, n);
                if p.white_moved {
                    push_char(&mut s, '.');
                    push_char(&mut s, ' ');
                } else {
                    push_char(&mut s, '.');
                    push_char(&mut s, '.');
                    push_char(&mut s, '.');
                    push_char(&mut s, ' ');
                }
                push_str(&mut s, p.san.as_str());
                push_clock(&mut s, c[i]);
                assert(plies_view(plies@)[i as int] == ply_view(*p));
                assert(s@ =~= before + ply_text(ply_view(*p), n as nat, Some(c@[i as int])));
                if !p.white_moved {
                    n = n + 1;
                }
            },
            None => {
                if p.white_moved {
                    push_decimal(&mut s, n);
                    push_char(&mut s, '.');
                    push_char(&mut s, ' ');
                }
                push_str(&mut s, p.san.as_str());
                push_char(&mut s, ' ');
                assert(plies_view(plies@)[i as int] == ply_view(*p));
                assert(s@ =~= before + ply_text(ply_view(*p), n as nat, None));
                if p.white_moved {
                    n = n + 1;
                }
            },
        }
        i = i + 1;
    }
    s
}

/// Decodes a live game's move stream from the starting position in FEN and
/// writes the whole PGN: header block, numbered move text (with clock
/// comments where `timestamps` is given) and the result.
pub fn assemble(
    header: &PGNHeaders,
    move_tokens: &str,
    timestamps: Option<&str>,
    starting_fen: &str,
    result: &str,
    link_id: Option<&str>,
) -> (r: Result<String, DecodeError>)
    ensures
        ({
            let expected = assembled(
                *header,
                move_tokens@,
                match timestamps {
                    Some(t) => Some(t@),
                    None => None,
                },
                starting_fen@,
                result@,
                match link_id {
                    Some(id) => Some(id@),
                    None => None,
                },
            );
            match r {
                Ok(s) => expected == Ok::<Seq<char>, DecodeError>(s@),
                Err(e) => expected == Err::<Seq<char>, DecodeError>(e),
            }
        }),
{
    let ghost tv = match timestamps {
        Some(t) => Some(t@),
        None => None,
    };
    let mut pos = match position_from_fen(starting_fen) {
        Ok(p) => p,
        Err(e) => return Err(e),
    };
    let ghost start = pos;
    let tokens = chars_of(move_tokens);
    let n = tokens.len();
    let clocks: Option<Vec<u32>> = match timestamps {
        None => None,
        Some(t) => {
            let c = match parse_timestamps(t) {
                Ok(c) => c,
                Err(e) => return Err(e),
            };
            if c.len() != n / 2 {
                return Err(DecodeError::TimestampCountMismatch);
            }
            Some(c)
        },
    };
    let ghost cv = match &clocks {
        Some(c) => Some(c@),
        None => None,
    };
    assert(clocks_for(tv, (n / 2) as int) == Ok::<Option<Seq<u32>>, DecodeError>(cv));
    let mut plies: Vec<PlayedPly> = Vec::new();
    let mut i: usize = 0;
    while i < n
        invariant
            n == tokens@.len(),
            tokens@ == move_tokens@,
            i <= n,
            plies@.len() * 2 == i,
            clocks_for(tv, (n / 2) as int) == Ok::<Option<Seq<u32>>, DecodeError>(cv),
            fen_position_of(starting_fen@) == Some(start),
            cv == (match &clocks {
                Some(c) => Some(c@),
                None => None::<Seq<u32>>,
            }),
            clocks matches Some(c) ==> c@.len() == n / 2,
            tv == (match timestamps {
                Some(t) => Some(t@),
                None => None::<Seq<char>>,
            }),
            replay(tokens@, 0, start) == match replay(tokens@, i as int, pos) {
                Err(e) => Err(e),
                Ok(rest) => Ok::<Seq<(Seq<char>, bool)>, DecodeError>(plies_view(plies@) + rest),
            },
        ensures
            i == n,
        decreases n - i,
    {
        let white_moved = match turn(&pos) {
            Side::White => true,
            Side::Black => false,
        };
        let ghost before = pos;
        let m = match next_ply(&tokens, i, &pos) {
            Ok(Some(m)) => m,
            Ok(None) => break,
            Err(e) => return Err(e),
        };
        let san = match play(&mut pos, &m) {
            Ok(san) => san,
            Err(e) => return Err(e),
        };
        let ghost old_plies = plies@;
        plies.push(PlayedPly { san, white_moved });
        proof {
            assert(plies_view(plies@) =~= plies_view(old_plies) + seq![
                (san_in(before, engine_move_of(m)), white_to_move(before)),
            ]);
            match replay(tokens@, i + 2, pos) {
                Err(e) => {},
                Ok(rest) => {
                    assert(plies_view(plies@) + rest =~= plies_view(old_plies) + (seq![
                        (san_in(before, engine_move_of(m)), white_to_move(before)),
                    ] + rest));
                },
            }
        }
        i = i + 2;
    }
    proof {
        assert(plies_view(plies@) + Seq::<(Seq<char>, bool)>::empty() =~= plies_view(plies@));
    }
    let mut out = header.header_block(link_id);
    let body = match &clocks {
        Some(c) => render_moves(&plies, Some(c)),
        None => render_moves(&plies, None),
    };
    push_str(&mut out, body.as_str());
    push_str(&mut out, result);
    assert(out@ =~= header_text(
        *header,
        match link_id {
            Some(id) => Some(id@),
            None => None,
        },
    ) + move_text(plies_view(plies@), cv, plies@.len() as int) + result@);
    Ok(out)
}

} // verus!
