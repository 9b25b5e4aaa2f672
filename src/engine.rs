use vstd::prelude::*;

use shakmaty::Position;

use crate::board::{role_code, role_of_code, DecodeError, MoveDescriptor, Piece, Role, Side};

verus! {

#[verifier::external_type_specification]
#[verifier::external_body]
pub struct ExChess(shakmaty::Chess);

#[verifier::external_type_specification]
#[verifier::external_body]
pub struct ExFen(shakmaty::fen::Fen);

#[verifier::external_type_specification]
#[verifier::external_body]
pub struct ExMove(shakmaty::Move);

/// What stands on the occupied squares of a position: for each square index,
/// whether the piece is white, and the engine's number of its role.
pub uninterp spec fn placement(p: shakmaty::Chess) -> Map<int, (bool, u8)>;

/// Whether White is the side to move in a position.
pub uninterp spec fn white_to_move(p: shakmaty::Chess) -> bool;

/// The side to move in a position.
pub open spec fn turn_of(p: shakmaty::Chess) -> Side {
    if white_to_move(p) {
        Side::White
    } else {
        Side::Black
    }
}

/// The piece on square `sq` of a position, if any.
pub open spec fn occupant(p: shakmaty::Chess, sq: int) -> Option<Piece> {
    if placement(p).contains_key(sq) {
        let (white, code) = placement(p)[sq];
        Some(
            Piece { side: if white { Side::White } else { Side::Black }, role: role_of_code(code) },
        )
    } else {
        None
    }
}

/// Squares of a move that the engine can name (all below 64).
pub open spec fn on_board(m: MoveDescriptor) -> bool {
    match m {
        MoveDescriptor::Normal { from, to, .. } => from < 64 && to < 64,
        MoveDescriptor::Castle { king, rook } => king < 64 && rook < 64,
        MoveDescriptor::EnPassant { from, to } => from < 64 && to < 64,
    }
}

/// The FEN record that a text reads as, `None` where it is malformed.
pub uninterp spec fn fen_of(text: Seq<char>) -> Option<shakmaty::fen::Fen>;

/// The standard-chess position that a FEN record sets up, `None` where it is
/// no legal setup.
pub uninterp spec fn setup_position(fen: shakmaty::fen::Fen) -> Option<shakmaty::Chess>;

/// The engine's normal move with these role numbers and squares.
pub uninterp spec fn normal_move(role: u8, from: u8, capture: Option<u8>, to: u8, promotion: Option<u8>) -> shakmaty::Move;

/// The engine's castling move of the king on `king` with the rook on `rook`.
pub uninterp spec fn castle_move(king: u8, rook: u8) -> shakmaty::Move;

/// The engine's en passant capture of the pawn on `from` moving to `to`.
pub uninterp spec fn en_passant_move(from: u8, to: u8) -> shakmaty::Move;

/// Whether a move is legal in a position.
pub uninterp spec fn legal_in(p: shakmaty::Chess, m: shakmaty::Move) -> bool;

/// The SAN of a move in a position, with its check or mate suffix.
pub uninterp spec fn san_in(p: shakmaty::Chess, m: shakmaty::Move) -> Seq<char>;

/// The position after a move.
pub uninterp spec fn played(p: shakmaty::Chess, m: shakmaty::Move) -> shakmaty::Chess;

/// The standard-chess position that a FEN text sets up, if any.
pub open spec fn fen_position_of(text: Seq<char>) -> Option<shakmaty::Chess> {
    match fen_of(text) {
        Some(f) => setup_position(f),
        None => None,
    }
}

/// The engine number of an optional role.
pub open spec fn role_code_of(role: Option<Role>) -> Option<u8> {
    match role {
        Some(x) => Some(role_code(x)),
        None => None,
    }
}

/// The engine's move for a move descriptor.
pub open spec fn engine_move_of(m: MoveDescriptor) -> shakmaty::Move {
    match m {
        MoveDescriptor::Normal { role, from, to, capture, promotion } => normal_move(
            role_code(role),
            from,
            role_code_of(capture),
            to,
            role_code_of(promotion),
        ),
        MoveDescriptor::Castle { king, rook } => castle_move(king, rook),
        MoveDescriptor::EnPassant { from, to } => en_passant_move(from, to),
    }
}

/// Relies on `Fen::from_ascii`: reads FEN text, `None` where it is malformed.
#[verifier::external_body]
fn parse_fen(text: &str) -> (r: Option<shakmaty::fen::Fen>)
    ensures
        r == fen_of(text@),
{
    shakmaty::fen::Fen::from_ascii(text.as_bytes()).ok()
}

/// Relies on `Fen::into_position`: the standard-chess position of a FEN,
/// `None` where it is no legal setup.
#[verifier::external_body]
fn fen_position(fen: shakmaty::fen::Fen) -> (r: Option<shakmaty::Chess>)
    ensures
        r == setup_position(fen),
{
    fen.into_position(shakmaty::CastlingMode::Standard).ok()
}

/// Relies on `Position::turn` of `Chess`.
#[verifier::external_body]
fn engine_turn(pos: &shakmaty::Chess) -> (r: Side)
    ensures
        r == turn_of(*pos),
{
    match pos.turn() {
        shakmaty::Color::White => Side::White,
        shakmaty::Color::Black => Side::Black,
    }
}

/// Relies on `Board::piece_at` of the position's board: the colour of the piece
/// on a square and its role's number (`Role` is numbered pawn 1 up to king 6).
#[verifier::external_body]
fn engine_piece_at(pos: &shakmaty::Chess, sq: u8) -> (r: Option<(bool, u8)>)
    requires
        sq < 64,
    ensures
        r == (if placement(*pos).contains_key(sq as int) {
            Some(placement(*pos)[sq as int])
        } else {
            None
        }),
        r matches Some(p) ==> 1 <= p.1 <= 6,
{
    pos.board().piece_at(shakmaty::Square::new(sq as u32)).map(|p| (p.color.is_white(), p.role as u8))
}

/// Relies on the `Move::Normal` variant, on `Role`'s `TryFrom<u8>` (pawn 1 up
/// to king 6) and on `Square::new`, which panics outside 0..64.
#[verifier::external_body]
fn engine_normal(role: u8, from: u8, capture: Option<u8>, to: u8, promotion: Option<u8>) -> (r:
    shakmaty::Move)
    requires
        1 <= role <= 6,
        from < 64,
        to < 64,
        capture matches Some(c) ==> 1 <= c <= 6,
        promotion matches Some(c) ==> 1 <= c <= 6,
    ensures
        r == normal_move(role, from, capture, to, promotion),
{
    let role_of = |c: u8| shakmaty::Role::try_from(c).unwrap();
    shakmaty::Move::Normal {
        role: role_of(role),
        from: shakmaty::Square::new(from as u32),
        capture: capture.map(role_of),
        to: shakmaty::Square::new(to as u32),
        promotion: promotion.map(role_of),
    }
}

/// Relies on the `Move::Castle` variant (king square, rook square) and on
/// `Square::new`, which panics outside 0..64.
#[verifier::external_body]
fn engine_castle(king: u8, rook: u8) -> (r: shakmaty::Move)
    requires
        king < 64,
        rook < 64,
    ensures
        r == castle_move(king, rook),
{
    shakmaty::Move::Castle { king: shakmaty::Square::new(king as u32), rook: shakmaty::Square::new(rook as u32) }
}

/// Relies on the `Move::EnPassant` variant (source and destination square of
/// the capturing pawn) and on `Square::new`, which panics outside 0..64.
#[verifier::external_body]
fn engine_en_passant(from: u8, to: u8) -> (r: shakmaty::Move)
    requires
        from < 64,
        to < 64,
    ensures
        r == en_passant_move(from, to),
{
    shakmaty::Move::EnPassant { from: shakmaty::Square::new(from as u32), to: shakmaty::Square::new(to as u32) }
}

/// Relies on `Position::is_legal`.
#[verifier::external_body]
fn engine_is_legal(pos: &shakmaty::Chess, m: &shakmaty::Move) -> (r: bool)
    ensures
        r == legal_in(*pos, *m),
{
    pos.is_legal(m)
}

/// Relies on `SanPlus::from_move_and_play_unchecked` and its `Display`: plays
/// the move and writes it in SAN with its check or mate suffix. Playing hands
/// the turn to the other side (`do_move` sets `turn` to `!color`). The move
/// must be legal: an illegal one may corrupt the position or panic.
#[verifier::external_body]
fn engine_play(pos: &mut shakmaty::Chess, m: &shakmaty::Move) -> (r: String)
    requires
        legal_in(*old(pos), *m),
    ensures
        r@ == san_in(*old(pos), *m),
        *final(pos) == played(*old(pos), *m),
        white_to_move(*final(pos)) == !white_to_move(*old(pos)),
{
    shakmaty::san::SanPlus::from_move_and_play_unchecked(pos, m).to_string()
}

/// Reads a starting position from FEN text.
pub fn position_from_fen(fen: &str) -> (r: Result<shakmaty::Chess, DecodeError>)
    ensures
        r == match fen_position_of(fen@) {
            Some(p) => Ok::<shakmaty::Chess, DecodeError>(p),
            None => Err(DecodeError::InvalidStartingPosition),
        },
{
    match parse_fen(fen) {
        None => Err(DecodeError::InvalidStartingPosition),
        Some(setup) => match fen_position(setup) {
            None => Err(DecodeError::InvalidStartingPosition),
            Some(pos) => Ok(pos),
        },
    }
}

/// The side to move.
pub fn turn(pos: &shakmaty::Chess) -> (r: Side)
    ensures
        r == turn_of(*pos),
{
    engine_turn(pos)
}

/// The piece standing on a square.
pub fn piece_at(pos: &shakmaty::Chess, sq: u8) -> (r: Option<Piece>)
    requires
        sq < 64,
    ensures
        r == occupant(*pos, sq as int),
{
    match engine_piece_at(pos, sq) {
        None => None,
        Some((white, code)) => {
            let side = if white {
                Side::White
            } else {
                Side::Black
            };
            Some(Piece { side, role: Role::from_code(code) })
        },
    }
}

fn role_code_opt(role: Option<Role>) -> (r: Option<u8>)
    ensures
        r == role_code_of(role),
        r matches Some(c) ==> 1 <= c <= 6,
{
    match role {
        Some(x) => Some(x.code()),
        None => None,
    }
}

fn engine_move(m: &MoveDescriptor) -> (r: shakmaty::Move)
    requires
        on_board(*m),
    ensures
        r == engine_move_of(*m),
{
    match *m {
        MoveDescriptor::Normal { role, from, to, capture, promotion } => engine_normal(
            role.code(),
            from,
            role_code_opt(capture),
            to,
            role_code_opt(promotion),
        ),
        MoveDescriptor::Castle { king, rook } => engine_castle(king, rook),
        MoveDescriptor::EnPassant { from, to } => engine_en_passant(from, to),
    }
}

/// Plays a decoded move and returns its SAN. Where the rules engine refuses the
/// move the position is left as it was and the error is `IllegalMove`.
pub fn play(pos: &mut shakmaty::Chess, m: &MoveDescriptor) -> (r: Result<String, DecodeError>)
    requires
        on_board(*m),
    ensures
        (r is Ok) == legal_in(*old(pos), engine_move_of(*m)),
        r is Err ==> r == Err::<String, DecodeError>(DecodeError::IllegalMove) && *final(pos)
            == *old(pos),
        r matches Ok(s) ==> s@ == san_in(*old(pos), engine_move_of(*m)) && *final(pos) == played(
            *old(pos),
            engine_move_of(*m),
        ),
        r is Ok ==> white_to_move(*final(pos)) == !white_to_move(*old(pos)),
{
    let em = engine_move(m);
    if engine_is_legal(pos, &em) {
        Ok(engine_play(pos, &em))
    } else {
        Err(DecodeError::IllegalMove)
    }
}

} // verus!
