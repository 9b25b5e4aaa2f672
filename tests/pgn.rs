use cgf::api::chessdotcom::PGNHeaders;
use cgf::board::DecodeError;
use cgf::pgn::{assemble, parse_timestamps, render_moves, PlayedPly};

const START: &str = "rnbqkbnr/pppppppp/8/8/8/8/PPPPPPPP/RNBQKBNR w KQkq - 0 1";

fn headers() -> PGNHeaders {
    PGNHeaders {
        event: "E".to_string(),
        site: "S".to_string(),
        date: "D".to_string(),
        white: "W".to_string(),
        black: "B".to_string(),
        result: "1-0".to_string(),
        eco: "X".to_string(),
        white_elo: 1,
        black_elo: 2,
        time_control: "T".to_string(),
        end_time: "N".to_string(),
        termination: "R".to_string(),
        set_up: "1".to_string(),
        fen: START.to_string(),
        variant: None,
    }
}

fn header_text() -> String {
    headers().header_block(None)
}

fn moves_of(tokens: &str, fen: &str) -> Result<String, DecodeError> {
    let out = assemble(&headers(), tokens, None, fen, "*", None)?;
    Ok(out[header_text().len()..].to_string())
}

#[test]
fn open_game_decodes_to_e4_e5() {
    assert_eq!(moves_of("mC0K", START), Ok("1. e4 e5 *".to_string()));
}

#[test]
fn capture_decodes_to_exd5() {
    assert_eq!(moves_of("mCZJCJ", START), Ok("1. e4 d5 2. exd5 *".to_string()));
}

#[test]
fn scholars_mate_decodes_with_mate_sign() {
    assert_eq!(
        moves_of("mC0KdN5QfA!TN1", START),
        Ok("1. e4 e5 2. Qh5 Nc6 3. Bc4 Nf6 4. Qxf7# *".to_string())
    );
}

#[test]
fn promotion_decodes_to_exf1_queen_mate() {
    let fen = "2kr1bnr/p1p3pp/bpn5/4p3/4P3/5P1N/PPP1p1PP/RNB2RK1 b - - 0 11";
    assert_eq!(moves_of("m}", fen), Ok("exf1=Q# *".to_string()));
    assert_eq!(moves_of("m^", fen), Ok("e1=N *".to_string()));
}

#[test]
fn clocks_number_every_ply() {
    let out = assemble(&headers(), "mC0Kgv", Some("1795,1793,36000"), START, "1-0", Some("9"))
        .unwrap();
    let expected_head = headers().to_pgn_string("9");
    assert!(out.starts_with(&expected_head));
    assert_eq!(
        &out[expected_head.len()..],
        "1. e4 {[%clk 0:02:59.5]} 1... e5 {[%clk 0:02:59.3]} 2. Nf3 {[%clk 1:00:00.0]} 1-0"
    );
}

#[test]
fn empty_stream_gives_header_and_result() {
    let out = assemble(&headers(), "", Some(""), START, "1/2-1/2", None).unwrap();
    assert_eq!(out, format!("{}1/2-1/2", header_text()));
}

#[test]
fn assemble_errors() {
    assert_eq!(moves_of("mC0", START), Err(DecodeError::OddTokenStream));
    assert_eq!(moves_of("mC0*", START), Err(DecodeError::UnknownToken));
    assert_eq!(moves_of("Cm", START), Err(DecodeError::EmptySourceSquare));
    assert_eq!(moves_of("mK", START), Err(DecodeError::IllegalMove));
    assert_eq!(moves_of("mC", "no fen"), Err(DecodeError::InvalidStartingPosition));
    assert_eq!(
        assemble(&headers(), "mC0K", Some("10"), START, "*", None),
        Err(DecodeError::TimestampCountMismatch)
    );
    assert_eq!(
        assemble(&headers(), "mC0K", Some("10,x"), START, "*", None),
        Err(DecodeError::InvalidTimestamp)
    );
    assert_eq!(
        assemble(&headers(), "mC0K", Some("10,20"), "no fen", "*", None),
        Err(DecodeError::InvalidStartingPosition)
    );
    assert_eq!(
        assemble(&headers(), "mC0K", Some("10,x"), "no fen", "*", None),
        Err(DecodeError::InvalidStartingPosition)
    );
    assert_eq!(
        assemble(&headers(), "mC0K", Some("10"), "no fen", "*", None),
        Err(DecodeError::InvalidStartingPosition)
    );
}

#[test]
fn timestamp_lists() {
    assert_eq!(parse_timestamps(""), Ok(vec![]));
    assert_eq!(parse_timestamps("7"), Ok(vec![7]));
    assert_eq!(parse_timestamps("1795,1793,0"), Ok(vec![1795, 1793, 0]));
    assert_eq!(parse_timestamps("4294967295"), Ok(vec![4294967295]));
    assert_eq!(parse_timestamps("4294967296"), Err(DecodeError::InvalidTimestamp));
    assert_eq!(parse_timestamps("1,,2"), Err(DecodeError::InvalidTimestamp));
    assert_eq!(parse_timestamps("1,2,"), Err(DecodeError::InvalidTimestamp));
    assert_eq!(parse_timestamps(",1"), Err(DecodeError::InvalidTimestamp));
    assert_eq!(parse_timestamps("1, 2"), Err(DecodeError::InvalidTimestamp));
    assert_eq!(parse_timestamps("-1"), Err(DecodeError::InvalidTimestamp));
}

#[test]
fn move_text_numbering() {
    let plies = vec![
        PlayedPly { san: "e5".to_string(), white_moved: false },
        PlayedPly { san: "Nf3".to_string(), white_moved: true },
        PlayedPly { san: "Nc6".to_string(), white_moved: false },
    ];
    assert_eq!(render_moves(&plies, None), "e5 1. Nf3 Nc6 ");
    assert_eq!(
        render_moves(&plies, Some(&vec![5, 600, 36061])),
        "1... e5 {[%clk 0:00:00.5]} 2. Nf3 {[%clk 0:01:00.0]} 2... Nc6 {[%clk 1:00:06.1]} "
    );
}

const ALPHABET: &str = "abcdefghijklmnopqrstuvwxyzABCDEFGHIJKLMNOPQRSTUVWXYZ0123456789!?";

fn token(square: &str) -> char {
    let b = square.as_bytes();
    let index = (b[0] - b'a') as usize + 8 * (b[1] - b'1') as usize;
    ALPHABET.chars().nth(index).unwrap()
}

fn encode(moves: &[(&str, &str)]) -> String {
    moves.iter().flat_map(|(from, to)| [token(from), token(to)]).collect()
}

#[test]
fn encoded_legal_game_round_trips() {
    let tokens = encode(&[
        ("e2", "e4"),
        ("e7", "e5"),
        ("g1", "f3"),
        ("b8", "c6"),
        ("f1", "b5"),
        ("a7", "a6"),
        ("b5", "a4"),
        ("g8", "f6"),
        ("e1", "g1"),
        ("f8", "e7"),
        ("a4", "c6"),
        ("d7", "c6"),
    ]);
    assert_eq!(tokens, "mC0Kgv5QfHWOHy!Teg90yQZQ");
    assert_eq!(
        moves_of(&tokens, START),
        Ok("1. e4 e5 2. Nf3 Nc6 3. Bb5 a6 4. Ba4 Nf6 5. O-O Be7 6. Bxc6 dxc6 *".to_string())
    );
}

#[test]
fn game_with_en_passant_round_trips() {
    let tokens = encode(&[("e2", "e4"), ("a7", "a6"), ("e4", "e5"), ("d7", "d5"), ("e5", "d6")]);
    assert_eq!(moves_of(&tokens, START), Ok("1. e4 a6 2. e5 d5 3. exd6 *".to_string()));
}
