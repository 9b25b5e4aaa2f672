use vstd::prelude::*;

use crate::board::{file_of, rank_of, DecodeError, Direction, MoveDescriptor, Piece, Role, Side};
use crate::engine::{
    castle_move, engine_move_of, legal_in, occupant, on_board, piece_at, play, played, san_in, turn, turn_of,
    white_to_move,
};

verus! {

/// The square (0..64, a1 = 0) that a square token names: `a`..`z` are 0..25,
/// `A`..`Z` are 26..51, `0`..`9` are 52..61, `!` is 62 and `?` is 63.
pub open spec fn token_square(c: char) -> Option<int> {
    let k = c as u32 as int;
    if 'a' as u32 as int <= k <= 'z' as u32 as int {
        Some(k - 'a' as u32 as int)
    } else if 'A' as u32 as int <= k <= 'Z' as u32 as int {
        Some(k - 'A' as u32 as int + 26)
    } else if '0' as u32 as int <= k <= '9' as u32 as int {
        Some(k - '0' as u32 as int + 52)
    } else if c == '!' {
        Some(62)
    } else if c == '?' {
        Some(63)
    } else {
        None
    }
}

/// Decodes a square token.
pub fn square_of(token: char) -> (r: Result<u8, DecodeError>)
    ensures
        match token_square(token) {
            Some(s) => r == Ok::<u8, DecodeError>(s as u8) && 0 <= s < 64,
            None => r == Err::<u8, DecodeError>(DecodeError::UnknownToken),
        },
{
    let k = token as u32;
    if k >= 'a' as u32 && k <= 'z' as u32 {
        Ok((k - 'a' as u32) as u8)
    } else if k >= 'A' as u32 && k <= 'Z' as u32 {
        Ok((k - 'A' as u32 + 26) as u8)
    } else if k >= '0' as u32 && k <= '9' as u32 {
        Ok((k - '0' as u32 + 52) as u8)
    } else if token == '!' {
        Ok(62)
    } else if token == '?' {
        Ok(63)
    } else {
        Err(DecodeError::UnknownToken)
    }
}

/// The direction and promotion role that a promotion token stands for.
pub open spec fn token_hint(c: char) -> Option<(Direction, Role)> {
    if c == '}' {
        Some((Direction::Right, Role::Queen))
    } else if c == ')' {
        Some((Direction::Right, Role::Knight))
    } else if c == ']' {
        Some((Direction::Right, Role::Rook))
    } else if c == '$' {
        Some((Direction::Right, Role::Bishop))
    } else if c == '~' {
        Some((Direction::Center, Role::Queen))
    } else if c == '^' {
        Some((Direction::Center, Role::Knight))
    } else if c == '_' {
        Some((Direction::Center, Role::Rook))
    } else if c == '#' {
        Some((Direction::Center, Role::Bishop))
    } else if c == '{' {
        Some((Direction::Left, Role::Queen))
    } else if c == '(' {
        Some((Direction::Left, Role::Knight))
    } else if c == '[' {
        Some((Direction::Left, Role::Rook))
    } else if c == '@' {
        Some((Direction::Left, Role::Bishop))
    } else {
        None
    }
}

/// Decodes a promotion token.
pub fn promotion_hint_of(token: char) -> (r: Result<(Direction, Role), DecodeError>)
    ensures
        match token_hint(token) {
            Some(h) => r == Ok::<(Direction, Role), DecodeError>(h),
            None => r == Err::<(Direction, Role), DecodeError>(DecodeError::UnknownToken),
        },
{
    match token {
        '}' => Ok((Direction::Right, Role::Queen)),
        ')' => Ok((Direction::Right, Role::Knight)),
        ']' => Ok((Direction::Right, Role::Rook)),
        '$' => Ok((Direction::Right, Role::Bishop)),
        '~' => Ok((Direction::Center, Role::Queen)),
        '^' => Ok((Direction::Center, Role::Knight)),
        '_' => Ok((Direction::Center, Role::Rook)),
        '#' => Ok((Direction::Center, Role::Bishop)),
        '{' => Ok((Direction::Left, Role::Queen)),
        '(' => Ok((Direction::Left, Role::Knight)),
        '[' => Ok((Direction::Left, Role::Rook)),
        '@' => Ok((Direction::Left, Role::Bishop)),
        _ => Err(DecodeError::UnknownToken),
    }
}

/// How far a promoting pawn travels in square indices: forward is +8 for
/// White and -8 for Black, and left and right are seen from the mover.
pub open spec fn offset(side: Side, direction: Direction) -> int {
    match side {
        Side::White => match direction {
            Direction::Left => 7,
            Direction::Center => 8,
            Direction::Right => 9,
        },
        Side::Black => match direction {
            Direction::Left => -9,
            Direction::Center => -8,
            Direction::Right => -7,
        },
    }
}

/// The destination of a promotion move, computed from its source square;
/// `None` where it would leave the board.
pub fn resolve_destination(side: Side, from: u8, direction: Direction) -> (r: Option<u8>)
    requires
        from < 64,
    ensures
        0 <= from + offset(side, direction) < 64 ==> r == Some((from + offset(side, direction)) as u8),
        !(0 <= from + offset(side, direction) < 64) ==> r is None,
{
    let up: u8 = match side {
        Side::White => match direction {
            Direction::Left => 7,
            Direction::Center => 8,
            Direction::Right => 9,
        },
        Side::Black => 0,
    };
    let down: u8 = match side {
        Side::White => 0,
        Side::Black => match direction {
            Direction::Left => 9,
            Direction::Center => 8,
            Direction::Right => 7,
        },
    };
    if from + up < down || from + up - down >= 64 {
        None
    } else {
        Some(from + up - down)
    }
}

/// Source square, destination square and promotion role that a pair of
/// tokens stands for, with `side` to move. The destination is `None` where a
/// promotion would leave the board.
pub open spec fn decode_tokens(side: Side, src: char, dst: char) -> Result<(u8, Option<u8>, Option<Role>), DecodeError> {
    match token_square(src) {
        None => Err(DecodeError::UnknownToken),
        Some(from) => match token_square(dst) {
            Some(to) => Ok((from as u8, Some(to as u8), None)),
            None => match token_hint(dst) {
                None => Err(DecodeError::UnknownToken),
                Some((direction, role)) => {
                    let to = from + offset(side, direction);
                    if 0 <= to < 64 {
                        Ok((from as u8, Some(to as u8), Some(role)))
                    } else {
                        Ok((from as u8, None, Some(role)))
                    }
                },
            },
        },
    }
}

/// Decodes the two tokens of a ply into squares and an optional promotion.
pub fn decode_pair(side: Side, src: char, dst: char) -> (r: Result<(u8, Option<u8>, Option<Role>), DecodeError>)
    ensures
        r == decode_tokens(side, src, dst),
        r matches Ok(t) ==> t.0 < 64 && (t.1 matches Some(to) ==> to < 64),
{
    let from = square_of(src)?;
    match square_of(dst) {
        Ok(to) => Ok((from, Some(to), None)),
        Err(_) => {
            let (direction, role) = promotion_hint_of(dst)?;
            Ok((from, resolve_destination(side, from, direction), Some(role)))
        },
    }
}

/// Whether a king's move from `from` to `to` is a castle: more than one file
/// along its own rank.
pub open spec fn is_castle(from: int, to: int) -> bool {
    rank_of(from) == rank_of(to) && (file_of(from) - file_of(to) > 1 || file_of(to) - file_of(from) > 1)
}

/// The corner square of the castling rook: on the back rank of `side`, on the
/// side of the board the king travels to.
pub open spec fn castle_rook(side: Side, from: int, to: int) -> int {
    let back = match side {
        Side::White => 0int,
        Side::Black => 56int,
    };
    if file_of(to) > file_of(from) {
        back + 7
    } else {
        back
    }
}

/// Whether a pawn's move is an en passant capture: it changes file, lands on
/// an empty square and does not promote.
pub open spec fn is_en_passant(role: Role, from: int, to: int, promotion: Option<Role>, target: Option<Piece>) -> bool {
    role == Role::Pawn && file_of(from) != file_of(to) && target is None && promotion is None
}

/// The move that a decoded ply stands for, given what stands on its source
/// and destination squares.
pub open spec fn classify_spec(
    side: Side,
    from: u8,
    to: u8,
    promotion: Option<Role>,
    mover: Option<Piece>,
    target: Option<Piece>,
) -> Result<MoveDescriptor, DecodeError> {
    match mover {
        None => Err(DecodeError::EmptySourceSquare),
        Some(p) => if p.role == Role::King && is_castle(from as int, to as int) {
            Ok(MoveDescriptor::Castle { king: from, rook: castle_rook(side, from as int, to as int) as u8 })
        } else if is_en_passant(p.role, from as int, to as int, promotion, target) {
            Ok(MoveDescriptor::EnPassant { from, to })
        } else {
            Ok(
                MoveDescriptor::Normal {
                    role: p.role,
                    from,
                    to,
                    capture: match target {
                        Some(t) => Some(t.role),
                        None => None,
                    },
                    promotion,
                },
            )
        },
    }
}

/// Classifies a decoded ply as a castle, an en passant capture or a normal
/// move (with its capture).
pub fn classify(
    side: Side,
    from: u8,
    to: u8,
    promotion: Option<Role>,
    mover: Option<Piece>,
    target: Option<Piece>,
) -> (r: Result<MoveDescriptor, DecodeError>)
    requires
        from < 64,
        to < 64,
    ensures
        r == classify_spec(side, from, to, promotion, mover, target),
        r matches Ok(m) ==> on_board(m),
{
    let p = match mover {
        None => return Err(DecodeError::EmptySourceSquare),
        Some(p) => p,
    };
    let (ff, tf) = (from % 8, to % 8);
    let castle = match p.role {
        Role::King => from / 8 == to / 8 && (ff > tf + 1 || tf > ff + 1),
        _ => false,
    };
    if castle {
        let back: u8 = match side {
            Side::White => 0,
            Side::Black => 56,
        };
        let rook = if tf > ff {
            back + 7
        } else {
            back
        };
        Ok(MoveDescriptor::Castle { king: from, rook })
    } else if p.role == Role::Pawn && ff != tf && target.is_none() && promotion.is_none() {
        Ok(MoveDescriptor::EnPassant { from, to })
    } else {
        let capture = match target {
            Some(t) => Some(t.role),
            None => None,
        };
        Ok(MoveDescriptor::Normal { role: p.role, from, to, capture, promotion })
    }
}

/// The move that the tokens `src`, `dst` stand for on position `pos`: the
/// tokens are read, then the source square must hold a piece, then a
/// promotion must stay on the board.
pub open spec fn ply_move(pos: shakmaty::Chess, src: char, dst: char) -> Result<MoveDescriptor, DecodeError> {
    match decode_tokens(turn_of(pos), src, dst) {
        Err(e) => Err(e),
        Ok((from, dest, promotion)) => if occupant(pos, from as int) is None {
            Err(DecodeError::EmptySourceSquare)
        } else {
            match dest {
                None => Err(DecodeError::IllegalMove),
                Some(to) => classify_spec(
                    turn_of(pos),
                    from,
                    to,
                    promotion,
                    occupant(pos, from as int),
                    occupant(pos, to as int),
                ),
            }
        },
    }
}

/// Resolves the move that two tokens stand for on a position, without playing it.
pub fn resolve_ply(pos: &shakmaty::Chess, src: char, dst: char) -> (r: Result<MoveDescriptor, DecodeError>)
    ensures
        r == ply_move(*pos, src, dst),
        r matches Ok(m) ==> on_board(m),
{
    let side = turn(pos);
    let (from, dest, promotion) = decode_pair(side, src, dst)?;
    let mover = piece_at(pos, from);
    if mover.is_none() {
        return Err(DecodeError::EmptySourceSquare);
    }
    let to = match dest {
        None => return Err(DecodeError::IllegalMove),
        Some(to) => to,
    };
    let target = piece_at(pos, to);
    classify(side, from, to, promotion, mover, target)
}

/// The next ply of a token stream read from index `at`: `None` at its end,
/// `OddTokenStream` where a single token is left, else the move of the next
/// two tokens.
pub open spec fn next_ply_spec(tokens: Seq<char>, at: int, pos: shakmaty::Chess) -> Result<Option<MoveDescriptor>, DecodeError> {
    if at >= tokens.len() {
        Ok(None)
    } else if tokens.len() - at == 1 {
        Err(DecodeError::OddTokenStream)
    } else {
        match ply_move(pos, tokens[at], tokens[at + 1]) {
            Ok(m) => Ok(Some(m)),
            Err(e) => Err(e),
        }
    }
}

/// Resolves the ply that starts at index `at` of a token stream, without
/// playing it.
pub fn next_ply(tokens: &Vec<char>, at: usize, position: &shakmaty::Chess) -> (r: Result<Option<MoveDescriptor>, DecodeError>)
    requires
        at <= tokens@.len(),
    ensures
        r == next_ply_spec(tokens@, at as int, *position),
        r matches Ok(Some(m)) ==> on_board(m),
{
    let n = tokens.len();
    if at == n {
        return Ok(None);
    }
    if n - at == 1 {
        return Err(DecodeError::OddTokenStream);
    }
    match resolve_ply(position, tokens[at], tokens[at + 1]) {
        Ok(m) => Ok(Some(m)),
        Err(e) => Err(e),
    }
}

/// Takes the next ply off a stack of tokens (its top is the end of `moves`),
/// plays it on `position` and returns its SAN. An empty stack gives `None`.
pub fn next_move(moves: &mut Vec<char>, position: &mut shakmaty::Chess) -> (r: Result<Option<String>, DecodeError>)
    ensures
        old(moves)@.len() == 0 ==> r == Ok::<Option<String>, DecodeError>(None) && final(moves)@ == old(moves)@,
        old(moves)@.len() == 1 ==> r == Err::<Option<String>, DecodeError>(DecodeError::OddTokenStream)
            && final(moves)@ == old(moves)@,
        old(moves)@.len() >= 2 ==> {
            let n = old(moves)@.len();
            &&& final(moves)@ == old(moves)@.subrange(0, n - 2)
            &&& match ply_move(*old(position), old(moves)@[n - 1], old(moves)@[n - 2]) {
                Err(e) => r == Err::<Option<String>, DecodeError>(e),
                Ok(m) => {
                    &&& (r is Ok) == legal_in(*old(position), engine_move_of(m))
                    &&& r is Err ==> r == Err::<Option<String>, DecodeError>(DecodeError::IllegalMove)
                    &&& r matches Ok(o) ==> (o matches Some(s) && s@ == san_in(
                        *old(position),
                        engine_move_of(m),
                    ) && *final(position) == played(*old(position), engine_move_of(m)))
                },
            }
        },
        r is Err ==> *final(position) == *old(position),
        r matches Ok(Some(_)) ==> white_to_move(*final(position)) == !white_to_move(*old(position)),
        r matches Ok(None) ==> *final(position) == *old(position),
{
    let n = moves.len();
    if n == 0 {
        return Ok(None);
    }
    if n == 1 {
        return Err(DecodeError::OddTokenStream);
    }
    let src = moves.pop().unwrap();
    let dst = moves.pop().unwrap();
    proof {
        assert(moves@ =~= old(moves)@.subrange(0, n - 2));
        assert(src == old(moves)@[n - 1] && dst == old(moves)@[n - 2]);
    }
    match resolve_ply(position, src, dst) {
        Err(e) => Err(e),
        Ok(m) => match play(position, &m) {
            Err(e) => Err(e),
            Ok(san) => Ok(Some(san)),
        },
    }
}


/// The token of a square: `a`..`z`, `A`..`Z`, `0`..`9`, `!`, `?` in square order.
pub open spec fn square_token(sq: int) -> char {
    (if sq < 26 {
        97 + sq
    } else if sq < 52 {
        65 + sq - 26
    } else if sq < 62 {
        48 + sq - 52
    } else if sq == 62 {
        33
    } else {
        63
    }) as u32 as char
}

/// The alphabet is a bijection with the squares: each square's token decodes
/// to that square, and only that token does.
pub proof fn law_alphabet_bijective(sq: int, c: char)
    requires
        0 <= sq < 64,
    ensures
        token_square(square_token(sq)) == Some(sq),
        token_square(c) == Some(sq) ==> c == square_token(sq),
{
    vstd::utf8::char_u32_cast(c, c as u32);
}

/// The token of each promotion direction and role.
pub open spec fn hint_token(direction: Direction, role: Role) -> char {
    match direction {
        Direction::Right => match role {
            Role::Knight => ')',
            Role::Rook => ']',
            Role::Bishop => '$',
            _ => '}',
        },
        Direction::Center => match role {
            Role::Knight => '^',
            Role::Rook => '_',
            Role::Bishop => '#',
            _ => '~',
        },
        Direction::Left => match role {
            Role::Knight => '(',
            Role::Rook => '[',
            Role::Bishop => '@',
            _ => '{',
        },
    }
}

/// Encoding a ply and decoding it gives the ply back: a move between two
/// squares written as their tokens decodes to those squares, and a promotion
/// written as the source token and the hint of its direction and role decodes
/// to its destination and role. On any position, the encoded squares are the
/// ones classified.
pub proof fn law_encoded_ply_decodes(
    side: Side,
    from: int,
    to: int,
    direction: Direction,
    role: Role,
    pos: shakmaty::Chess,
)
    requires
        0 <= from < 64,
        0 <= to < 64,
    ensures
        ply_move(pos, square_token(from), square_token(to)) == classify_spec(
            turn_of(pos),
            from as u8,
            to as u8,
            None,
            occupant(pos, from),
            occupant(pos, to),
        ),
        decode_tokens(side, square_token(from), square_token(to)) == Ok::<
            (u8, Option<u8>, Option<Role>),
            DecodeError,
        >((from as u8, Some(to as u8), None)),
        role != Role::Pawn && role != Role::King && 0 <= from + offset(side, direction) < 64
            ==> decode_tokens(side, square_token(from), hint_token(direction, role)) == Ok::<
            (u8, Option<u8>, Option<Role>),
            DecodeError,
        >((from as u8, Some((from + offset(side, direction)) as u8), Some(role))),
{
    law_alphabet_bijective(from, ' ');
    law_alphabet_bijective(to, ' ');
}

/// `OddTokenStream` is raised exactly where a single token is left once the
/// pairs before it are consumed.
pub proof fn law_odd_stream_iff_one_left(tokens: Seq<char>, at: int, pos: shakmaty::Chess)
    requires
        0 <= at <= tokens.len(),
    ensures
        (next_ply_spec(tokens, at, pos) == Err::<Option<MoveDescriptor>, DecodeError>(
            DecodeError::OddTokenStream,
        )) <==> tokens.len() - at == 1,
{
}

/// The index of a side's back rank's first square.
pub open spec fn back_rank(side: Side) -> int {
    match side {
        Side::White => 0,
        Side::Black => 56,
    }
}

/// Castling is decoded alike for both sides: the king going from the e-file
/// two files towards h is a castle with the h-corner rook (kingside), two
/// files towards a one with the a-corner rook (queenside), on that side's
/// back rank.
pub proof fn law_castle_symmetric(side: Side, kingside: bool, target: Option<Piece>)
    ensures
        ({
            let from = back_rank(side) + 4;
            let to = if kingside {
                from + 2
            } else {
                from - 2
            };
            classify_spec(
                side,
                from as u8,
                to as u8,
                None,
                Some(Piece { side, role: Role::King }),
                target,
            ) == Ok::<MoveDescriptor, DecodeError>(
                MoveDescriptor::Castle {
                    king: from as u8,
                    rook: (back_rank(side) + if kingside {
                        7int
                    } else {
                        0int
                    }) as u8,
                },
            )
        }),
{
}

/// On a position whose side to move has its king on the e-file of its back
/// rank, the king's tokens to the g-file or the c-file resolve to the castle
/// with the h-corner or the a-corner rook, for either side; `next_move` then
/// plays `castle_move` of those squares.
pub proof fn law_castle_resolved(pos: shakmaty::Chess, kingside: bool)
    requires
        occupant(pos, back_rank(turn_of(pos)) + 4) == Some(Piece { side: turn_of(pos), role: Role::King }),
    ensures
        ({
            let from = back_rank(turn_of(pos)) + 4;
            let to = if kingside {
                from + 2
            } else {
                from - 2
            };
            let rook = back_rank(turn_of(pos)) + if kingside {
                7int
            } else {
                0int
            };
            &&& ply_move(pos, square_token(from), square_token(to)) == Ok::<MoveDescriptor, DecodeError>(
                MoveDescriptor::Castle { king: from as u8, rook: rook as u8 },
            )
            &&& engine_move_of(MoveDescriptor::Castle { king: from as u8, rook: rook as u8 }) == castle_move(
                from as u8,
                rook as u8,
            )
        }),
{
    let from = back_rank(turn_of(pos)) + 4;
    let to = if kingside {
        from + 2
    } else {
        from - 2
    };
    law_alphabet_bijective(from, ' ');
    law_alphabet_bijective(to, ' ');
}

/// On a position whose side to move has a pawn on the rank before its last,
/// the pawn's token and a promotion token resolve to the pawn's move to the
/// last rank, taking what stands there and promoting to the token's role.
pub proof fn law_promotion_resolved(pos: shakmaty::Chess, from: int, c: char)
    requires
        0 <= from < 64,
        token_hint(c) is Some,
        occupant(pos, from) == Some(Piece { side: turn_of(pos), role: Role::Pawn }),
        rank_of(from) == match turn_of(pos) {
            Side::White => 6int,
            Side::Black => 1int,
        },
        hint_direction(c) == Direction::Left ==> file_of(from) > 0,
        hint_direction(c) == Direction::Right ==> file_of(from) < 7,
    ensures
        ({
            let (direction, role) = token_hint(c)->0;
            let to = from + offset(turn_of(pos), direction);
            ply_move(pos, square_token(from), c) == Ok::<MoveDescriptor, DecodeError>(
                MoveDescriptor::Normal {
                    role: Role::Pawn,
                    from: from as u8,
                    to: to as u8,
                    capture: match occupant(pos, to) {
                        Some(t) => Some(t.role),
                        None => None,
                    },
                    promotion: Some(role),
                },
            )
        }),
{
    law_alphabet_bijective(from, ' ');
    law_promotion_lands_on_last_rank(turn_of(pos), from, c);
}

/// The direction that a promotion token stands for.
pub open spec fn hint_direction(c: char) -> Direction {
    match token_hint(c) {
        Some((direction, _)) => direction,
        None => Direction::Center,
    }
}

/// Every promotion token, for either side to move, sends a pawn from the rank
/// before its last to the last rank, one file to the left, straight on, or one
/// file to the right, and promotes to a queen, knight, rook or bishop. A pawn
/// on the a-file has no left and one on the h-file no right.
pub proof fn law_promotion_lands_on_last_rank(side: Side, from: int, c: char)
    requires
        0 <= from < 64,
        token_hint(c) is Some,
        rank_of(from) == match side {
            Side::White => 6int,
            Side::Black => 1int,
        },
        hint_direction(c) == Direction::Left ==> file_of(from) > 0,
        hint_direction(c) == Direction::Right ==> file_of(from) < 7,
    ensures
        ({
            let (direction, role) = token_hint(c)->0;
            let to = from + offset(side, direction);
            &&& 0 <= to < 64
            &&& rank_of(to) == match side {
                Side::White => 7int,
                Side::Black => 0int,
            }
            &&& file_of(to) == file_of(from) + match direction {
                Direction::Left => -1int,
                Direction::Center => 0int,
                Direction::Right => 1int,
            }
            &&& role == Role::Queen || role == Role::Knight || role == Role::Rook || role == Role::Bishop
            &&& token_square(c) is None
        }),
{
}

} // verus!
