use cgf::board::{DecodeError, Direction, MoveDescriptor, Role, Side};
use cgf::engine::position_from_fen;
use cgf::utils::{decode_pair, next_move, promotion_hint_of, resolve_destination, square_of};
use shakmaty::{fen::Fen, CastlingMode, Chess, Position};

#[test]
fn test_next_move_e4_e5() {
    let mut moves: Vec<char> = vec!['K', '0', 'C', 'm'];
    let mut position = Chess::default();

    let e4 = next_move(&mut moves, &mut position);
    assert_eq!(e4, Ok(Some("e4".to_string())));
    assert_eq!(moves, vec!['K', '0']);

    let e5 = next_move(&mut moves, &mut position);
    assert_eq!(e5, Ok(Some("e5".to_string())));
    assert_eq!(moves, Vec::<char>::new());

    let no_moves = next_move(&mut moves, &mut position);
    assert_eq!(no_moves, Ok(None));
}

#[test]
fn test_next_move_e4_captures() {
    let mut moves: Vec<char> = vec!['J', 'C', 'J', 'Z', 'C', 'm'];
    let mut position = Chess::default();

    let e4 = next_move(&mut moves, &mut position);
    assert_eq!(e4, Ok(Some("e4".to_string())));
    assert_eq!(moves, vec!['J', 'C', 'J', 'Z']);

    let d5 = next_move(&mut moves, &mut position);
    assert_eq!(d5, Ok(Some("d5".to_string())));
    assert_eq!(moves, vec!['J', 'C']);

    let exd5 = next_move(&mut moves, &mut position);
    assert_eq!(exd5, Ok(Some("exd5".to_string())));
    assert_eq!(moves, Vec::<char>::new());

    let no_moves = next_move(&mut moves, &mut position);
    assert_eq!(no_moves, Ok(None));
}

#[test]
fn test_next_move_bongcloud() {
    let mut moves: Vec<char> = vec!['B', '7', 'u', 'm', 'C', 'J', 'm', 'e', 'J', 'Z', 'C', 'm'];
    let mut position = Chess::default();

    let e4 = next_move(&mut moves, &mut position);
    assert_eq!(e4, Ok(Some("e4".to_string())));
    assert_eq!(moves, vec!['B', '7', 'u', 'm', 'C', 'J', 'm', 'e', 'J', 'Z']);

    let d5 = next_move(&mut moves, &mut position);
    assert_eq!(d5, Ok(Some("d5".to_string())));
    assert_eq!(moves, vec!['B', '7', 'u', 'm', 'C', 'J', 'm', 'e']);

    let ke2 = next_move(&mut moves, &mut position);
    assert_eq!(ke2, Ok(Some("Ke2".to_string())));
    assert_eq!(moves, vec!['B', '7', 'u', 'm', 'C', 'J']);

    let dxe4 = next_move(&mut moves, &mut position);
    assert_eq!(dxe4, Ok(Some("dxe4".to_string())));
    assert_eq!(moves, vec!['B', '7', 'u', 'm']);

    let ke3 = next_move(&mut moves, &mut position);
    assert_eq!(ke3, Ok(Some("Ke3".to_string())));
    assert_eq!(moves, vec!['B', '7']);

    let qd4 = next_move(&mut moves, &mut position);
    assert_eq!(qd4, Ok(Some("Qd4+".to_string())));
    assert_eq!(moves, Vec::<char>::new());
    assert_eq!(position.is_check(), true);

    let no_moves = next_move(&mut moves, &mut position);
    assert_eq!(no_moves, Ok(None));
}

#[test]
fn test_next_move_scholars_mate() {
    let mut moves: Vec<char> = vec![
        '1', 'N', 'T', '!', 'A', 'f', 'Q', '5', 'N', 'd', 'K', '0', 'C', 'm',
    ];
    let mut position = Chess::default();

    let e4 = next_move(&mut moves, &mut position);
    assert_eq!(e4, Ok(Some("e4".to_string())));
    assert_eq!(moves, vec!['1', 'N', 'T', '!', 'A', 'f', 'Q', '5', 'N', 'd', 'K', '0']);

    let e5 = next_move(&mut moves, &mut position);
    assert_eq!(e5, Ok(Some("e5".to_string())));
    assert_eq!(moves, vec!['1', 'N', 'T', '!', 'A', 'f', 'Q', '5', 'N', 'd']);

    let qh5 = next_move(&mut moves, &mut position);
    assert_eq!(qh5, Ok(Some("Qh5".to_string())));
    assert_eq!(moves, vec!['1', 'N', 'T', '!', 'A', 'f', 'Q', '5']);

    let nc6 = next_move(&mut moves, &mut position);
    assert_eq!(nc6, Ok(Some("Nc6".to_string())));
    assert_eq!(moves, vec!['1', 'N', 'T', '!', 'A', 'f']);

    let bc4 = next_move(&mut moves, &mut position);
    assert_eq!(bc4, Ok(Some("Bc4".to_string())));
    assert_eq!(moves, vec!['1', 'N', 'T', '!']);

    let nf6 = next_move(&mut moves, &mut position);
    assert_eq!(nf6, Ok(Some("Nf6".to_string())));
    assert_eq!(moves, vec!['1', 'N']);

    let qxf7 = next_move(&mut moves, &mut position);
    assert_eq!(qxf7, Ok(Some("Qxf7#".to_string())));
    assert_eq!(moves, Vec::<char>::new());
    assert_eq!(position.is_checkmate(), true);

    let no_moves = next_move(&mut moves, &mut position);
    assert_eq!(no_moves, Ok(None));
}

fn position_of(fen: &[u8]) -> Chess {
    Fen::from_ascii(fen)
        .unwrap()
        .into_position(CastlingMode::Standard)
        .unwrap()
}

#[test]
fn test_next_move_castle_king_side() {
    let mut moves: Vec<char> = vec!['g', 'e'];
    let mut position =
        position_of(b"rnb1kbnr/ppp2ppp/3p4/4p1q1/2B1P3/5N2/PPPP1PPP/RNBQK2R w KQkq - 0 4");

    let castle = next_move(&mut moves, &mut position);
    assert_eq!(castle, Ok(Some("O-O".to_string())));
}

#[test]
fn test_next_move_castle_queen_side() {
    let mut moves: Vec<char> = vec!['6', '8'];
    let mut position =
        position_of(b"r3kbnr/p1pp1ppp/bpn5/4p1q1/2B1P3/3P1N2/PPP1QPPP/RNB2RK1 b kq - 0 6");

    let castle = next_move(&mut moves, &mut position);
    assert_eq!(castle, Ok(Some("O-O-O".to_string())));
}

#[test]
fn test_next_move_promote_to_queen() {
    let mut moves: Vec<char> = vec!['}', 'm'];
    let mut position =
        position_of(b"2kr1bnr/p1p3pp/bpn5/4p3/4P3/5P1N/PPP1p1PP/RNB2RK1 b - - 0 11");

    let castle = next_move(&mut moves, &mut position);
    assert_eq!(castle, Ok(Some("exf1=Q#".to_string())));
}

#[test]
fn test_next_move_promote_to_knight() {
    let mut moves: Vec<char> = vec!['^', 'm'];
    let mut position =
        position_of(b"2kr1bnr/p1p3pp/bpn5/4p3/4P3/5P1N/PPP1p1PP/RNB2RK1 b - - 0 11");

    let castle = next_move(&mut moves, &mut position);
    assert_eq!(castle, Ok(Some("e1=N".to_string())));
}

#[test]
fn castle_for_black_kingside_and_white_queenside() {
    // Black castles short: e8 (token '8') to g8 (token '!').
    let mut position =
        position_of(b"rnbqk2r/pppp1ppp/5n2/2b1p3/2B1P3/5N2/PPPP1PPP/RNBQK2R b KQkq - 5 4");
    let mut moves: Vec<char> = vec!['!', '8'];
    assert_eq!(next_move(&mut moves, &mut position), Ok(Some("O-O".to_string())));

    // White castles long: e1 (token 'e') to c1 (token 'c').
    let mut position =
        position_of(b"r3kbnr/ppp1qppp/2np4/4p3/4P1b1/2NPBN2/PPPQ1PPP/R3KB1R w KQkq - 2 6");
    let mut moves: Vec<char> = vec!['c', 'e'];
    assert_eq!(next_move(&mut moves, &mut position), Ok(Some("O-O-O".to_string())));
}

#[test]
fn single_token_left_is_odd_stream() {
    let mut moves: Vec<char> = vec!['m'];
    let mut position = Chess::default();
    assert_eq!(next_move(&mut moves, &mut position), Err(DecodeError::OddTokenStream));
    assert_eq!(moves, vec!['m']);

    let mut moves: Vec<char> = vec!['K', 'C', 'm'];
    assert_eq!(next_move(&mut moves, &mut position), Ok(Some("e4".to_string())));
    assert_eq!(next_move(&mut moves, &mut position), Err(DecodeError::OddTokenStream));
}

#[test]
fn unknown_and_empty_and_illegal_plies() {
    let mut position = Chess::default();
    let mut moves: Vec<char> = vec!['C', '*'];
    assert_eq!(next_move(&mut moves, &mut position), Err(DecodeError::UnknownToken));
    let mut moves: Vec<char> = vec!['*', 'm'];
    assert_eq!(next_move(&mut moves, &mut position), Err(DecodeError::UnknownToken));
    // e4 is empty at the start.
    let mut moves: Vec<char> = vec!['K', 'C'];
    assert_eq!(next_move(&mut moves, &mut position), Err(DecodeError::EmptySourceSquare));
    // e2 to e5 is no pawn move.
    let mut moves: Vec<char> = vec!['K', 'm'];
    assert_eq!(next_move(&mut moves, &mut position), Err(DecodeError::IllegalMove));
    assert_eq!(position, Chess::default());
    // A promotion hint on a knight is refused by the rules engine.
    let mut moves: Vec<char> = vec!['~', 'b'];
    assert_eq!(next_move(&mut moves, &mut position), Err(DecodeError::IllegalMove));
}

#[test]
fn alphabet_tokens() {
    assert_eq!(square_of('a'), Ok(0));
    assert_eq!(square_of('z'), Ok(25));
    assert_eq!(square_of('A'), Ok(26));
    assert_eq!(square_of('Z'), Ok(51));
    assert_eq!(square_of('0'), Ok(52));
    assert_eq!(square_of('9'), Ok(61));
    assert_eq!(square_of('!'), Ok(62));
    assert_eq!(square_of('?'), Ok(63));
    assert_eq!(square_of('}'), Err(DecodeError::UnknownToken));
    assert_eq!(square_of(' '), Err(DecodeError::UnknownToken));
    let all = "abcdefghijklmnopqrstuvwxyzABCDEFGHIJKLMNOPQRSTUVWXYZ0123456789!?";
    for (i, c) in all.chars().enumerate() {
        assert_eq!(square_of(c), Ok(i as u8));
        assert_eq!(promotion_hint_of(c), Err(DecodeError::UnknownToken));
    }
}

#[test]
fn promotion_tokens_for_both_sides() {
    let hints = [
        ('{', Direction::Left, Role::Queen),
        ('(', Direction::Left, Role::Knight),
        ('[', Direction::Left, Role::Rook),
        ('@', Direction::Left, Role::Bishop),
        ('~', Direction::Center, Role::Queen),
        ('^', Direction::Center, Role::Knight),
        ('_', Direction::Center, Role::Rook),
        ('#', Direction::Center, Role::Bishop),
        ('}', Direction::Right, Role::Queen),
        (')', Direction::Right, Role::Knight),
        (']', Direction::Right, Role::Rook),
        ('$', Direction::Right, Role::Bishop),
    ];
    for (c, direction, role) in hints {
        assert_eq!(promotion_hint_of(c), Ok((direction, role)));
        assert_eq!(square_of(c), Err(DecodeError::UnknownToken));
        // White pawn on e7 (52 = '0'), black pawn on e2 (12 = 'm').
        let (_, white_to, white_role) = decode_pair(Side::White, '0', c).unwrap();
        let (_, black_to, black_role) = decode_pair(Side::Black, 'm', c).unwrap();
        let (white_to, black_to) = (white_to.unwrap(), black_to.unwrap());
        assert_eq!(white_to / 8, 7);
        assert_eq!(black_to / 8, 0);
        let shift: i32 = match direction {
            Direction::Left => -1,
            Direction::Center => 0,
            Direction::Right => 1,
        };
        assert_eq!((white_to % 8) as i32, 4 + shift);
        assert_eq!((black_to % 8) as i32, 4 + shift);
        assert_eq!(white_role, Some(role));
        assert_eq!(black_role, Some(role));
    }
}

#[test]
fn destinations_from_offsets() {
    assert_eq!(resolve_destination(Side::White, 52, Direction::Left), Some(59));
    assert_eq!(resolve_destination(Side::White, 52, Direction::Center), Some(60));
    assert_eq!(resolve_destination(Side::White, 52, Direction::Right), Some(61));
    assert_eq!(resolve_destination(Side::Black, 12, Direction::Left), Some(3));
    assert_eq!(resolve_destination(Side::Black, 12, Direction::Center), Some(4));
    assert_eq!(resolve_destination(Side::Black, 12, Direction::Right), Some(5));
    assert_eq!(resolve_destination(Side::White, 60, Direction::Center), None);
    assert_eq!(resolve_destination(Side::Black, 3, Direction::Left), None);
    assert_eq!(decode_pair(Side::White, '?', '~'), Ok((63, None, Some(Role::Queen))));
    assert_eq!(decode_pair(Side::White, 'a', 'h'), Ok((0, Some(7), None)));
}

#[test]
fn decoded_castle_descriptor() {
    let position =
        position_of(b"rnb1kbnr/ppp2ppp/3p4/4p1q1/2B1P3/5N2/PPPP1PPP/RNBQK2R w KQkq - 0 4");
    let m = cgf::utils::resolve_ply(&position, 'e', 'g');
    assert_eq!(m, Ok(MoveDescriptor::Castle { king: 4, rook: 7 }));
}

#[test]
fn invalid_fen_is_reported() {
    assert_eq!(position_from_fen("not a fen").err(), Some(DecodeError::InvalidStartingPosition));
    assert!(position_from_fen("rnbqkbnr/pppppppp/8/8/8/8/PPPPPPPP/RNBQKBNR w KQkq - 0 1").is_ok());
}

#[test]
fn en_passant_capture() {
    // After 1. e4 a6 2. e5 d5, the pawn on e5 (token 'K') takes on d6
    // (token 'R') en passant, onto an empty square.
    let mut position = position_of(b"rnbqkbnr/1pp1pppp/p7/3pP3/8/8/PPPP1PPP/RNBQKBNR w KQkq d6 0 3");
    let m = cgf::utils::resolve_ply(&position, 'K', 'R');
    assert_eq!(m, Ok(MoveDescriptor::EnPassant { from: 36, to: 43 }));
    let mut moves: Vec<char> = vec!['R', 'K'];
    assert_eq!(next_move(&mut moves, &mut position), Ok(Some("exd6".to_string())));
    assert_eq!(position.board().piece_at(shakmaty::Square::D5), None);
}

#[test]
fn pawn_to_empty_square_without_right_is_refused() {
    // No en passant square is set, so the diagonal move is refused.
    let mut position = position_of(b"rnbqkbnr/1pp1pppp/p7/3pP3/8/8/PPPP1PPP/RNBQKBNR w KQkq - 0 3");
    let mut moves: Vec<char> = vec!['R', 'K'];
    assert_eq!(next_move(&mut moves, &mut position), Err(DecodeError::IllegalMove));
}

#[test]
fn black_castles_with_the_h8_rook() {
    let position =
        position_of(b"rnbqk2r/pppp1ppp/5n2/2b1p3/2B1P3/5N2/PPPP1PPP/RNBQK2R b KQkq - 5 4");
    assert_eq!(
        cgf::utils::resolve_ply(&position, '8', '!'),
        Ok(MoveDescriptor::Castle { king: 60, rook: 63 })
    );
    assert_eq!(cgf::engine::turn(&position), Side::Black);
}

#[test]
fn empty_source_comes_before_off_board_promotion() {
    // White to move; h8 (token '?') is empty and '}' points off the board.
    let mut position = position_of(b"6R1/8/8/8/8/8/8/K6k w - - 0 1");
    let mut moves: Vec<char> = vec!['}', '?'];
    assert_eq!(next_move(&mut moves, &mut position), Err(DecodeError::EmptySourceSquare));
    // A white rook stands on g8 (token '!'), but the hint leaves the board.
    let mut position = position_of(b"6R1/8/8/8/8/8/8/K6k w - - 0 1");
    let mut moves: Vec<char> = vec!['}', '!'];
    assert_eq!(next_move(&mut moves, &mut position), Err(DecodeError::IllegalMove));
}
