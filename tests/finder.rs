use cgf::api::chessdotcom::{Game, GameArchives, Player};
use cgf::api::{Api, DisplayableChessGame};
use cgf::cli::ChessGameFinderCLI;
use cgf::client::first_day_next_month;
use cgf::finder::{parse_number, GameFinder, Pieces, Search};

fn choices(args: &[&str]) -> ChessGameFinderCLI {
    let has = |flag: &str| args.contains(&flag);
    let api = if has("--api=lichess.org") { "lichess.org" } else { "chess.com" };
    ChessGameFinderCLI::from_choices(
        args[1],
        has("--player"),
        api,
        has("--white"),
        has("--black"),
        None,
        None,
        None,
        None,
        has("--pgn"),
        has("--json-pretty"),
        has("--json"),
    )
}

fn plain(search: Search, api: &str, pieces: Option<Pieces>) -> GameFinder {
    GameFinder {
        search,
        api: api.to_string(),
        pieces,
        year: None,
        month: None,
        day: None,
        opponent: None,
    }
}

#[test]
fn single_game_id_choice() {
    let cgf = choices(&["cgf", "12345678910"]);
    assert_eq!(cgf.finder, plain(Search::ID("12345678910".to_owned()), "chess.com", None));
    assert_eq!(cgf.output(), "table");
}

#[test]
fn single_player_username_choice() {
    let cgf = choices(&["cgf", "a_player"]);
    assert_eq!(cgf.finder, plain(Search::Player("a_player".to_owned()), "chess.com", None));
}

#[test]
fn numeric_player_username_choice() {
    let cgf = choices(&["cgf", "12345678910", "--player"]);
    assert_eq!(cgf.finder, plain(Search::Player("12345678910".to_owned()), "chess.com", None));
}

#[test]
fn api_choices() {
    let cgf = choices(&["cgf", "a_player", "--api=chess.com"]);
    assert_eq!(cgf.finder, plain(Search::Player("a_player".to_owned()), "chess.com", None));
    let cgf = choices(&["cgf", "a_player", "--api=lichess.org"]);
    assert_eq!(cgf.finder, plain(Search::Player("a_player".to_owned()), "lichess.org", None));
}

#[test]
fn color_choices() {
    let cgf = choices(&["cgf", "a_player", "--white"]);
    assert_eq!(
        cgf.finder,
        plain(Search::Player("a_player".to_owned()), "chess.com", Some(Pieces::White))
    );
    let cgf = choices(&["cgf", "a_player", "--black", "--json"]);
    assert_eq!(
        cgf.finder,
        plain(Search::Player("a_player".to_owned()), "chess.com", Some(Pieces::Black))
    );
    assert_eq!(cgf.output(), "json");
}

#[test]
fn date_choices_and_overrides() {
    let cgf = ChessGameFinderCLI::from_choices(
        "p", false, "chess.com", false, false, Some((2020, 9, 14)), None, Some(10), None, false,
        true, false,
    );
    assert_eq!(cgf.finder().year, Some(2020));
    assert_eq!(cgf.finder().month, Some(10));
    assert_eq!(cgf.finder().day, Some(14));
    assert_eq!(cgf.output(), "json-pretty");
    // Arabic-Indic digits are numeric too.
    let cgf = ChessGameFinderCLI::from_choices(
        "١٢٣", false, "chess.com", false, false, None, None, None, None, true, false, false,
    );
    assert!(matches!(cgf.finder().search, Search::ID(_)));
    assert_eq!(cgf.output(), "pgn");
}

#[test]
fn finder_builders() {
    let mut f = GameFinder::by_player("me", "chess.com");
    assert_eq!(f.search.get_value(), "me");
    f.white();
    f.year(2020);
    f.month(9);
    f.day(1);
    f.oponent("SomeOne");
    assert_eq!(f.pieces, Some(Pieces::White));
    assert_eq!((f.year, f.month, f.day), (Some(2020), Some(9), Some(1)));
    assert_eq!(f.opponent, Some("someone".to_string()));
    f.black();
    assert_eq!(f.pieces, Some(Pieces::Black));
    f.date(2021, 2, 3);
    assert_eq!((f.year, f.month, f.day), (Some(2021), Some(2), Some(3)));
    let g = GameFinder::by_id("42", "lichess.org");
    assert_eq!(g.search, Search::ID("42".to_string()));
    assert_eq!(g.search.get_value(), "42");
}

fn player(name: &str) -> Player {
    Player {
        username: name.to_string(),
        rating: 1000,
        result: "win".to_string(),
        id: String::new(),
    }
}

fn game(white: &str, black: &str, end_time: i64) -> Game {
    Game {
        white: player(white),
        black: player(black),
        url: format!("https://www.chess.com/game/{}", end_time),
        fen: String::new(),
        pgn: String::new(),
        start_time: None,
        end_time,
        time_control: String::new(),
        rules: "chess".to_string(),
        eco: None,
        tournament: None,
        game_match: None,
    }
}

#[test]
fn colors_and_days() {
    let mut f = GameFinder::by_player("alice", "chess.com");
    // 2020-09-01T12:00:00Z and 2020-09-02T12:00:00Z
    let g1 = game("Alice", "Bob", 1598961600);
    let g2 = game("Bob", "ALICE", 1599048000);
    assert!(f.check_game_found(&g1) && f.check_game_found(&g2));
    f.white();
    assert!(f.players_had_correct_colors(&g1));
    assert!(!f.players_had_correct_colors(&g2));
    f.oponent("bob");
    assert!(f.players_had_correct_colors(&g1));
    f.oponent("carol");
    assert!(!f.players_had_correct_colors(&g1));
    let mut f = GameFinder::by_player("alice", "chess.com");
    f.black();
    assert!(f.players_had_correct_colors(&g2));
    f.day(2);
    assert!(f.played_on_expected_day(&g2));
    assert!(!f.played_on_expected_day(&g1));
    assert!(f.check_game_found(&g2));
    assert!(!f.check_game_found(&g1));
}

#[test]
fn earliest_matching_game() {
    let f = GameFinder::by_player("alice", "chess.com");
    let games = vec![
        game("alice", "x", 300),
        game("y", "z", 100),
        game("alice", "w", 200),
        game("alice", "v", 200),
    ];
    let mut white = f.clone();
    white.white();
    assert_eq!(white.earliest_match(&games), Some(2));
    assert_eq!(f.earliest_match(&games), Some(1));
    let mut nobody = GameFinder::by_player("nobody", "chess.com");
    nobody.black();
    assert_eq!(nobody.earliest_match(&games), None);
    assert_eq!(games[2].end_time(), 200);
}

#[test]
fn archives_filtered_by_year_and_month() {
    let archives = GameArchives {
        archives: vec![
            "https://api.chess.com/pub/player/user1/games/2020/08".to_string(),
            "https://api.chess.com/pub/player/user1/games/2020/09".to_string(),
            "https://api.chess.com/pub/player/user1/games/2021/09".to_string(),
            "not a url".to_string(),
            "https://api.chess.com/pub/player/user1/games/x/09".to_string(),
        ],
    };
    let mut f = GameFinder::by_player("user1", "chess.com");
    assert_eq!(f.year_month_archives(&archives), vec![(2020, 8), (2020, 9), (2021, 9)]);
    f.month(9);
    assert_eq!(f.year_month_archives(&archives), vec![(2020, 9), (2021, 9)]);
    f.year(2020);
    assert_eq!(f.year_month_archives(&archives), vec![(2020, 9)]);
    let mut g = GameFinder::by_player("user1", "chess.com");
    g.year(2021);
    assert_eq!(g.year_month_archives(&archives), vec![(2021, 9)]);
}

#[test]
fn numbers() {
    assert_eq!(parse_number("09"), Some(9));
    assert_eq!(parse_number("2020"), Some(2020));
    assert_eq!(parse_number(""), None);
    assert_eq!(parse_number("+1"), None);
    assert_eq!(parse_number("99999999999"), None);
}

#[test]
fn next_month() {
    assert_eq!(first_day_next_month(2020, 12), (2021, 1, 1));
    assert_eq!(first_day_next_month(2020, 10), (2020, 11, 1));
}

#[test]
fn user_games_endpoints() {
    assert_eq!(
        Api::ChessDotCom.user_games_url("user1", 2020, 9, 1598918400, 1601510400),
        "https://api.chess.com/pub/player/user1/games/2020/09"
    );
    assert_eq!(
        Api::LichessDotOrg.user_games_url("user1", 2020, 9, 1598918400, 1601510400),
        "https://lichess.org/api/games/user/user1?evals=true&pgnInJson=true&clocks=true&opening=true&since=1598918400&until=1601510400"
    );
}
