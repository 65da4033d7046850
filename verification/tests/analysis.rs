use golemate::analysis::{
    accept_best_move, conclude_analysis, interpret_uci, is_keyword, parse_moves, score_advantage, Advantage,
    AnalysisResult, Interpreter, LegalMove, ParseError,
};
use golemate::backends::BackendError;
use golemate::chess::{Color, Position, Role, Square, UciMove};

const START: &str = "rnbqkbnr/pppppppp/8/8/8/8/PPPPPPPP/RNBQKBNR w KQkq - 0 1";
const AFTER_E4: &str = "rnbqkbnr/pppppppp/8/8/4P3/8/PPPP1PPP/RNBQKBNR b KQkq e3 0 1";

fn start() -> Position {
    Position::from_fen(START).expect("the start position is legal")
}

fn after_e4() -> Position {
    Position::from_fen(AFTER_E4).expect("a legal position")
}

fn chars(s: &str) -> Vec<char> {
    s.chars().collect()
}

fn lines(text: &[&str]) -> Vec<String> {
    text.iter().map(|l| l.to_string()).collect()
}

fn normal(from: (u8, u8), to: (u8, u8)) -> UciMove {
    UciMove::Normal {
        from: Square { file: from.0, rank: from.1 },
        to: Square { file: to.0, rank: to.1 },
        promotion: None,
    }
}

fn e2e4() -> UciMove {
    normal((4, 1), (4, 3))
}

fn e7e5() -> UciMove {
    normal((4, 6), (4, 4))
}

fn interpret(position: Position, text: &[&str]) -> Result<AnalysisResult, ParseError> {
    interpret_uci(position, lines(text))
}

#[test]
fn transcript_round_trip() {
    let result = interpret(start(), &["info depth 20 pv e2e4 e7e5", "info score cp 35", "bestmove e2e4"])
        .expect("a result");
    assert_eq!(result.depth, 20);
    assert_eq!(result.pv, vec![e2e4(), e7e5()]);
    assert_eq!(result.advantage, Advantage::Centipawns(35));
    assert_eq!(result.advantage_side, Color::White);
    assert_eq!(result.best_move, LegalMove { uci: e2e4(), notation: "e2-e4".to_string() });
}

#[test]
fn negative_score_favours_the_opponent() {
    let result = interpret(start(), &["info score cp -50", "bestmove e2e4"]).expect("a result");
    assert_eq!(result.advantage_side, Color::Black);
    assert_eq!(result.advantage, Advantage::Centipawns(50));
}

#[test]
fn negative_score_with_black_to_move_favours_white() {
    let result = interpret(after_e4(), &["info score mate -3", "bestmove e7e5"]).expect("a result");
    assert_eq!(result.advantage_side, Color::White);
    assert_eq!(result.advantage, Advantage::Mate(3));
}

#[test]
fn positive_score_with_black_to_move_favours_black() {
    let result = interpret(after_e4(), &["info score cp 12", "bestmove e7e5"]).expect("a result");
    assert_eq!(result.advantage_side, Color::Black);
    assert_eq!(result.advantage, Advantage::Centipawns(12));
}

#[test]
fn zero_score_is_equality_for_centipawns() {
    let result = interpret(start(), &["info score cp 0", "bestmove e2e4"]).expect("a result");
    assert_eq!(result.advantage, Advantage::Equality);
    assert_eq!(result.advantage_side, Color::White);
}

#[test]
fn zero_score_is_equality_for_mate() {
    let result = interpret(start(), &["info score mate 0", "bestmove e2e4"]).expect("a result");
    assert_eq!(result.advantage, Advantage::Equality);
    let negative_zero = interpret(start(), &["info score mate -0", "bestmove e2e4"]).expect("a result");
    assert_eq!(negative_zero.advantage, Advantage::Equality);
    assert_eq!(negative_zero.advantage_side, Color::White);
}

#[test]
fn zero_score_is_equality_whatever_the_kind() {
    assert_eq!(score_advantage(&chars("cp"), 0, Color::Black), Ok((Advantage::Equality, Color::Black)));
    assert_eq!(score_advantage(&chars("mate"), 0, Color::White), Ok((Advantage::Equality, Color::White)));
    assert_eq!(score_advantage(&chars("lowerbound"), 0, Color::White), Ok((Advantage::Equality, Color::White)));
}

#[test]
fn score_kinds_are_told_apart() {
    assert_eq!(score_advantage(&chars("cp"), 35, Color::White), Ok((Advantage::Centipawns(35), Color::White)));
    assert_eq!(score_advantage(&chars("mate"), 2, Color::White), Ok((Advantage::Mate(2), Color::White)));
    assert_eq!(score_advantage(&chars("mate"), -2, Color::White), Ok((Advantage::Mate(2), Color::Black)));
    assert_eq!(
        score_advantage(&chars("cp"), i32::MIN, Color::Black),
        Ok((Advantage::Centipawns(2147483648), Color::White))
    );
    assert_eq!(
        score_advantage(&chars("cp"), i32::MAX, Color::Black),
        Ok((Advantage::Centipawns(2147483647), Color::Black))
    );
}

#[test]
fn unknown_score_kind_is_an_error() {
    assert_eq!(
        score_advantage(&chars("pawns"), 3, Color::White),
        Err(ParseError::UnknownScoreType("pawns".to_string()))
    );
    assert_eq!(
        interpret(start(), &["info score CP 35", "bestmove e2e4"]),
        Err(ParseError::UnknownScoreType("CP".to_string()))
    );
}

#[test]
fn transcript_without_best_move_has_no_result() {
    assert_eq!(interpret(start(), &["info depth 20 score cp 35 pv e2e4"]), Err(ParseError::MissingBestMove));
    assert_eq!(interpret(start(), &[]), Err(ParseError::MissingBestMove));
    assert_eq!(interpret(start(), &["uciok", "readyok", ""]), Err(ParseError::MissingBestMove));
    assert_eq!(interpret(start(), &["info bestmove e2e4"]), Err(ParseError::MissingBestMove));
}

#[test]
fn depth_without_number_is_an_error() {
    assert_eq!(
        interpret(start(), &["info depth", "bestmove e2e4"]),
        Err(ParseError::MissingArgument("depth".to_string()))
    );
    assert_eq!(
        interpret(start(), &["info score cp 35 depth", "bestmove e2e4"]),
        Err(ParseError::MissingArgument("depth".to_string()))
    );
}

#[test]
fn score_without_arguments_is_an_error() {
    assert_eq!(
        interpret(start(), &["info score", "bestmove e2e4"]),
        Err(ParseError::MissingArgument("score".to_string()))
    );
    assert_eq!(
        interpret(start(), &["info depth 3 score cp", "bestmove e2e4"]),
        Err(ParseError::MissingArgument("score".to_string()))
    );
}

#[test]
fn other_keyword_without_argument_is_an_error() {
    assert_eq!(
        interpret(start(), &["info depth 3 nodes", "bestmove e2e4"]),
        Err(ParseError::MissingArgument("nodes".to_string()))
    );
}

#[test]
fn best_move_without_move_is_an_error() {
    assert_eq!(interpret(start(), &["bestmove"]), Err(ParseError::MissingArgument("bestmove".to_string())));
}

#[test]
fn malformed_numbers_are_errors() {
    assert_eq!(
        interpret(start(), &["info depth twenty", "bestmove e2e4"]),
        Err(ParseError::BadInteger("twenty".to_string()))
    );
    assert_eq!(
        interpret(start(), &["info depth -1", "bestmove e2e4"]),
        Err(ParseError::BadInteger("-1".to_string()))
    );
    assert_eq!(
        interpret(start(), &["info score cp 3.5", "bestmove e2e4"]),
        Err(ParseError::BadInteger("3.5".to_string()))
    );
    assert_eq!(
        interpret(start(), &["info score cp 2147483648", "bestmove e2e4"]),
        Err(ParseError::BadInteger("2147483648".to_string()))
    );
    assert_eq!(
        interpret(start(), &["info score pawns x", "bestmove e2e4"]),
        Err(ParseError::BadInteger("x".to_string()))
    );
}

#[test]
fn malformed_moves_are_errors() {
    assert_eq!(
        interpret(start(), &["info pv e2e4 e7-e5", "bestmove e2e4"]),
        Err(ParseError::BadMove("e7-e5".to_string()))
    );
    assert_eq!(interpret(start(), &["bestmove xyz"]), Err(ParseError::BadMove("xyz".to_string())));
}

#[test]
fn illegal_best_move_is_an_error() {
    assert_eq!(interpret(start(), &["bestmove e2e5"]), Err(ParseError::IllegalMove("e2e5".to_string())));
    assert_eq!(interpret(start(), &["bestmove e7e5"]), Err(ParseError::IllegalMove("e7e5".to_string())));
    assert_eq!(interpret(start(), &["bestmove 0000"]), Err(ParseError::IllegalMove("0000".to_string())));
    assert_eq!(interpret(after_e4(), &["bestmove e2e4"]), Err(ParseError::IllegalMove("e2e4".to_string())));
}

#[test]
fn first_error_ends_the_interpretation() {
    assert_eq!(
        interpret(start(), &["bestmove e2e4", "info depth x", "info score cp"]),
        Err(ParseError::BadInteger("x".to_string()))
    );
}

#[test]
fn other_lines_are_passed_over() {
    let result = interpret(
        start(),
        &["Stockfish 11 by the authors", "id name Stockfish", "uciok", "", "   ", "bestmove g1f3", "readyok depth x"],
    )
    .expect("a result");
    assert_eq!(result.best_move.notation, "Ng1-f3");
    assert_eq!(result.best_move.uci, normal((6, 0), (5, 2)));
}

#[test]
fn reading_starts_from_the_defaults() {
    let result = interpret(start(), &["bestmove e2e4"]).expect("a result");
    assert_eq!(result.depth, 0);
    assert_eq!(result.advantage, Advantage::Mate(0));
    assert_eq!(result.advantage_side, Color::White);
    assert!(result.pv.is_empty());
    let black = interpret(after_e4(), &["bestmove e7e5"]).expect("a result");
    assert_eq!(black.advantage_side, Color::Black);
}

#[test]
fn later_lines_overwrite_earlier_ones() {
    let result = interpret(
        start(),
        &[
            "info depth 1 score cp 10 pv d2d4",
            "info depth 2 score cp -20 pv e2e4 e7e5",
            "bestmove d2d4",
            "bestmove e2e4 ponder e7e5",
        ],
    )
    .expect("a result");
    assert_eq!(result.depth, 2);
    assert_eq!(result.advantage, Advantage::Centipawns(20));
    assert_eq!(result.advantage_side, Color::Black);
    assert_eq!(result.pv, vec![e2e4(), e7e5()]);
    assert_eq!(result.best_move.uci, e2e4());
}

#[test]
fn unknown_fields_are_skipped_with_their_argument() {
    let result = interpret(
        start(),
        &["info depth 12 seldepth 17 multipv 1 score mate 4 nodes 4100 nps 512000 time 8 pv e2e4", "bestmove e2e4"],
    )
    .expect("a result");
    assert_eq!(result.depth, 12);
    assert_eq!(result.advantage, Advantage::Mate(4));
    assert_eq!(result.pv, vec![e2e4()]);
}

#[test]
fn pv_takes_the_rest_of_the_line() {
    let result = interpret(start(), &["info pv e2e4 depth 9", "bestmove e2e4"]);
    assert_eq!(result, Err(ParseError::BadMove("depth".to_string())));
    let empty = interpret(start(), &["info pv e2e4", "info depth 3 pv", "bestmove e2e4"]).expect("a result");
    assert!(empty.pv.is_empty());
    assert_eq!(empty.depth, 3);
}

#[test]
fn pv_may_hold_promotions_drops_and_null_moves() {
    let result = interpret(start(), &["info pv a7a8q N@f3 0000", "bestmove e2e4"]).expect("a result");
    assert_eq!(
        result.pv,
        vec![
            UciMove::Normal {
                from: Square { file: 0, rank: 6 },
                to: Square { file: 0, rank: 7 },
                promotion: Some(Role::Queen)
            },
            UciMove::Put { role: Role::Knight, to: Square { file: 5, rank: 2 } },
            UciMove::Null,
        ]
    );
}

#[test]
fn lines_are_fed_one_by_one() {
    let position = start();
    let state = Interpreter::new(position.turn());
    let state = state.feed(&position, "info depth 5 score cp 7").expect("a well-formed line");
    assert_eq!(state.depth, 5);
    assert_eq!(state.advantage, Advantage::Centipawns(7));
    assert!(state.best_move.is_none());
    let state = state.feed(&position, "bestmove e2e4").expect("a well-formed line");
    let result = state.finish().expect("a result");
    assert_eq!(result.depth, 5);
    assert_eq!(result.best_move.notation, "e2-e4");
}

#[test]
fn interpreter_without_best_move_does_not_finish() {
    assert_eq!(Interpreter::new(Color::White).finish(), Err(ParseError::MissingBestMove));
}

#[test]
fn info_fields_are_read_from_an_index() {
    let ws: Vec<Vec<char>> = ["info", "depth", "4", "score", "mate", "-1"].iter().map(|w| chars(w)).collect();
    let state = Interpreter::new(Color::White).read_info(Color::White, &ws, 1).expect("well-formed fields");
    assert_eq!(state.depth, 4);
    assert_eq!(state.advantage, Advantage::Mate(1));
    assert_eq!(state.advantage_side, Color::Black);
    let unchanged = Interpreter::new(Color::Black).read_info(Color::Black, &ws, 6).expect("no fields");
    assert_eq!(unchanged.depth, 0);
}

#[test]
fn keywords_are_compared_exactly() {
    assert!(is_keyword(&chars("info"), "info"));
    assert!(!is_keyword(&chars("inf"), "info"));
    assert!(!is_keyword(&chars("infos"), "info"));
    assert!(!is_keyword(&chars("Info"), "info"));
    assert!(is_keyword(&chars(""), ""));
}

#[test]
fn moves_are_read_from_an_index() {
    let ws: Vec<Vec<char>> = ["pv", "e2e4", "e7e5"].iter().map(|w| chars(w)).collect();
    assert_eq!(parse_moves(&ws, 1), Ok(vec![e2e4(), e7e5()]));
    assert_eq!(parse_moves(&ws, 3), Ok(Vec::new()));
    assert_eq!(parse_moves(&ws, 0), Err(ParseError::BadMove("pv".to_string())));
}

#[test]
fn best_move_is_accepted_only_if_it_is_a_legal_move() {
    assert_eq!(
        accept_best_move(&chars("e2e4"), Some("e2-e4".to_string())),
        Ok(LegalMove { uci: e2e4(), notation: "e2-e4".to_string() })
    );
    assert_eq!(accept_best_move(&chars("e2e4"), None), Err(ParseError::IllegalMove("e2e4".to_string())));
    assert_eq!(accept_best_move(&chars("e2"), None), Err(ParseError::BadMove("e2".to_string())));
    assert_eq!(
        accept_best_move(&chars("e2"), Some("e2-e4".to_string())),
        Err(ParseError::BadMove("e2".to_string()))
    );
}

#[test]
fn advantage_is_described() {
    let mut result = interpret(start(), &["info depth 20 score cp 35", "bestmove e2e4"]).expect("a result");
    assert_eq!(result.describe_advantage(), "White has 35 centipawns advantage");
    result.advantage = Advantage::Mate(3);
    result.advantage_side = Color::Black;
    assert_eq!(result.describe_advantage(), "Black has a mate in 3 moves");
    result.advantage = Advantage::Equality;
    assert_eq!(result.describe_advantage(), "The position is equal.");
}

#[test]
fn result_is_described() {
    let result = interpret(start(), &["info depth 20 score cp 35", "bestmove g1f3"]).expect("a result");
    assert_eq!(
        result.describe(),
        "Analysis depth: 20.\nWhite has 35 centipawns advantage.\nThe best move is Ng1-f3."
    );
    let equal = interpret(start(), &["info depth 1 score cp 0", "bestmove e2e4"]).expect("a result");
    assert_eq!(equal.describe(), "Analysis depth: 1.\nThe position is equal..\nThe best move is e2-e4.");
}

#[test]
fn backend_error_ends_the_analysis() {
    assert_eq!(conclude_analysis(start(), Err(BackendError::ExecutionFailed)), Err(BackendError::ExecutionFailed));
    assert_eq!(conclude_analysis(start(), Err(BackendError::SpawnFailure)), Err(BackendError::SpawnFailure));
    assert_eq!(conclude_analysis(start(), Err(BackendError::WorkspaceConflict)), Err(BackendError::WorkspaceConflict));
}

#[test]
fn transcript_error_is_a_protocol_violation() {
    assert_eq!(
        conclude_analysis(start(), Ok(lines(&["info depth 20"]))),
        Err(BackendError::ProtocolViolation(ParseError::MissingBestMove))
    );
    assert_eq!(
        conclude_analysis(start(), Ok(lines(&["info depth", "bestmove e2e4"]))),
        Err(BackendError::ProtocolViolation(ParseError::MissingArgument("depth".to_string())))
    );
}

#[test]
fn well_formed_transcript_concludes_the_analysis() {
    let result = conclude_analysis(start(), Ok(lines(&["info depth 9 score cp 1", "bestmove e2e4"]))).expect("a result");
    assert_eq!(result.depth, 9);
    assert_eq!(result.best_move.uci, e2e4());
}
