use chessbench::domain::{MatchState, MatchStatus, ResultReason, Side, START_FEN};
use chessbench::match_runner::{
    fail_match, finish_match, finish_with_outcome, format_pgn, judge, update_match_state,
    MatchRunner, Phase, Verdict,
};
use chessbench::registry::MatchRegistry;
use chessbench::rules::{Ending, Outcome};
use chessbench::uci::UciError;

const FOOLS_MATE: &str = "rnb1kbnr/pppp1ppp/8/4p3/6Pq/5P2/PPPPP2P/RNBQKBNR w KQkq - 1 3";
const STALEMATE: &str = "7k/5Q2/6K1/8/8/8/8/8 b - - 0 1";

fn new_match(id: &str, initial_ms: u64) -> (MatchRunner, MatchRegistry) {
    let mut matches = MatchRegistry::new();
    matches.insert(id.to_string(), MatchState::new(id.to_string(), initial_ms));
    (MatchRunner::new(id.to_string(), initial_ms), matches)
}

fn play(runner: &mut MatchRunner, matches: &mut MatchRegistry, token: &str, elapsed_ms: u64) -> bool {
    let request = runner.begin_ply(matches).expect("a request");
    assert_eq!(request.timeout_ms, runner.clocks().remaining(request.side));
    runner
        .end_ply(matches, Ok(token.to_string()), elapsed_ms)
        .expect("no error")
}

fn texts(moves: &[&str]) -> Vec<String> {
    moves.iter().map(|san| san.to_string()).collect()
}

#[test]
fn move_text_of_no_moves_is_empty() {
    assert_eq!(format_pgn(&[]), "");
}

#[test]
fn move_text_numbers_the_moves_of_white() {
    assert_eq!(format_pgn(&texts(&["e4"])), "1. e4");
    assert_eq!(format_pgn(&texts(&["e4", "e5"])), "1. e4 e5");
    assert_eq!(format_pgn(&texts(&["e4", "e5", "Nf3"])), "1. e4 e5 2. Nf3");
}

#[test]
fn move_text_with_two_digit_move_numbers() {
    let moves: Vec<String> = (0..21).map(|i| format!("m{}", i)).collect();
    let pgn = format_pgn(&moves);
    assert!(pgn.starts_with("1. m0 m1 2. m2 m3 "));
    assert!(pgn.ends_with(" 9. m16 m17 10. m18 m19 11. m20"));
}

#[test]
fn move_text_keeps_empty_moves_apart() {
    assert_eq!(format_pgn(&texts(&["", "", ""])), "1.   2. ");
}

#[test]
fn first_request_goes_to_white_with_both_clocks() {
    let (mut runner, mut matches) = new_match("m1", 300000);
    assert_eq!(runner.phase(), Phase::Ready);
    let request = runner.begin_ply(&mut matches).expect("a request");
    assert_eq!(request.side, Side::White);
    assert_eq!(request.position_command, format!("position fen {}", START_FEN));
    assert_eq!(request.wtime, 300000);
    assert_eq!(request.btime, 300000);
    assert_eq!(request.timeout_ms, 300000);
    assert_eq!(runner.phase(), Phase::Waiting(Side::White));
    assert_eq!(matches.get("m1").unwrap().status, MatchStatus::Running);
}

#[test]
fn first_move_charges_the_mover_and_is_recorded() {
    let (mut runner, mut matches) = new_match("m1", 300000);
    assert!(play(&mut runner, &mut matches, "e2e4", 1200));

    assert_eq!(runner.clocks().white_ms, 298800);
    assert_eq!(runner.clocks().black_ms, 300000);
    assert_eq!(runner.ply(), 1);
    assert_eq!(runner.phase(), Phase::Ready);
    assert_eq!(runner.history().len(), 1);
    assert_eq!(runner.history()[0].ply, 1);
    assert_eq!(runner.history()[0].uci, "e2e4");
    assert_eq!(runner.history()[0].san, "e4");

    let state = matches.snapshot("m1").unwrap();
    assert_eq!(state.status, MatchStatus::Running);
    assert!(state.result.is_none());
    assert_eq!(state.clocks.white_ms, 298800);
    assert_eq!(state.clocks.black_ms, 300000);
    assert_eq!(state.ply, 1);
    assert_eq!(state.pgn, "1. e4");
    assert_eq!(state.side_to_move, Side::Black);
    assert_eq!(
        state.current_fen,
        "rnbqkbnr/pppppppp/8/8/4P3/8/PPPP1PPP/RNBQKBNR b KQkq - 0 1"
    );
    assert_eq!(state.start_fen, START_FEN);
    let last = state.last_move.unwrap();
    assert_eq!(last.ply, 1);
    assert_eq!(last.uci, "e2e4");
    assert_eq!(last.san, "e4");
    assert_eq!(last.fen, state.current_fen);
    assert_eq!(last.pgn, "1. e4");
}

#[test]
fn second_request_goes_to_black() {
    let (mut runner, mut matches) = new_match("m1", 300000);
    play(&mut runner, &mut matches, "e2e4", 1200);
    let request = runner.begin_ply(&mut matches).expect("a request");
    assert_eq!(request.side, Side::Black);
    assert_eq!(request.wtime, 298800);
    assert_eq!(request.btime, 300000);
    assert_eq!(request.timeout_ms, 300000);
    assert!(runner
        .end_ply(&mut matches, Ok("e7e5".to_string()), 700)
        .unwrap());
    assert_eq!(runner.clocks().white_ms, 298800);
    assert_eq!(runner.clocks().black_ms, 299300);
    assert_eq!(matches.get("m1").unwrap().pgn, "1. e4 e5");
    assert_eq!(matches.get("m1").unwrap().side_to_move, Side::White);
}

#[test]
fn clock_stops_at_zero() {
    let (mut runner, mut matches) = new_match("m1", 1000);
    assert!(play(&mut runner, &mut matches, "e2e4", 5000));
    assert_eq!(runner.clocks().white_ms, 0);
    assert_eq!(runner.clocks().black_ms, 1000);
    assert_eq!(matches.get("m1").unwrap().clocks.white_ms, 0);
}

#[test]
fn side_without_time_forfeits_before_it_is_asked() {
    let (mut runner, mut matches) = new_match("m1", 1000);
    play(&mut runner, &mut matches, "e2e4", 1000);
    play(&mut runner, &mut matches, "e7e5", 10);
    assert!(runner.begin_ply(&mut matches).is_none());
    assert!(runner.is_done());
    let state = matches.snapshot("m1").unwrap();
    assert_eq!(state.status, MatchStatus::Finished);
    let result = state.result.unwrap();
    assert_eq!(result.result, "0-1");
    assert_eq!(result.reason, ResultReason::Timeout);
    assert_eq!(state.ply, 2);
}

#[test]
fn match_without_budget_is_lost_by_white_at_once() {
    let (mut runner, mut matches) = new_match("m1", 0);
    assert!(runner.begin_ply(&mut matches).is_none());
    let result = matches.snapshot("m1").unwrap().result.unwrap();
    assert_eq!(result.result, "0-1");
    assert_eq!(result.reason, ResultReason::Timeout);
}

#[test]
fn request_that_times_out_forfeits_and_applies_nothing() {
    let (mut runner, mut matches) = new_match("m1", 3000);
    play(&mut runner, &mut matches, "e2e4", 100);
    runner.begin_ply(&mut matches).expect("a request");
    let go_on = runner
        .end_ply(&mut matches, Err(UciError::Timeout("bestmove")), 3000)
        .unwrap();
    assert!(!go_on);
    assert!(runner.is_done());
    assert_eq!(runner.ply(), 1);
    assert_eq!(runner.clocks().black_ms, 0);
    assert_eq!(runner.clocks().white_ms, 2900);
    let state = matches.snapshot("m1").unwrap();
    assert_eq!(state.status, MatchStatus::Finished);
    assert_eq!(state.ply, 1);
    assert_eq!(state.pgn, "1. e4");
    let result = state.result.unwrap();
    assert_eq!(result.result, "1-0");
    assert_eq!(result.reason, ResultReason::Timeout);
}

#[test]
fn illegal_move_forfeits() {
    let (mut runner, mut matches) = new_match("m1", 300000);
    assert!(!play(&mut runner, &mut matches, "e2e5", 50));
    let state = matches.snapshot("m1").unwrap();
    assert_eq!(state.status, MatchStatus::Finished);
    assert_eq!(state.ply, 0);
    assert!(state.last_move.is_none());
    let result = state.result.unwrap();
    assert_eq!(result.result, "0-1");
    assert_eq!(result.reason, ResultReason::Illegal);
}

#[test]
fn malformed_token_forfeits() {
    let (mut runner, mut matches) = new_match("m1", 300000);
    play(&mut runner, &mut matches, "e2e4", 50);
    assert!(!play(&mut runner, &mut matches, "resign", 50));
    let result = matches.snapshot("m1").unwrap().result.unwrap();
    assert_eq!(result.result, "1-0");
    assert_eq!(result.reason, ResultReason::Illegal);
    assert_eq!(runner.ply(), 1);
}

#[test]
fn no_move_token_while_moves_exist_is_an_error_without_winner() {
    let (mut runner, mut matches) = new_match("m1", 300000);
    assert!(!play(&mut runner, &mut matches, "(none)", 50));
    let state = matches.snapshot("m1").unwrap();
    assert_eq!(state.status, MatchStatus::Finished);
    let result = state.result.unwrap();
    assert_eq!(result.result, "*");
    assert_eq!(result.reason, ResultReason::Error);
}

#[test]
fn no_move_token_in_checkmate_ends_as_checkmate() {
    let (mut runner, mut matches) = new_match("m1", 300000);
    runner.begin_ply(&mut matches).expect("a request");
    let verdict = judge(FOOLS_MATE, "(none)");
    let go_on = runner.record_verdict(&mut matches, "(none)".to_string(), 10, verdict);
    assert!(!go_on);
    let state = matches.snapshot("m1").unwrap();
    assert_eq!(state.status, MatchStatus::Finished);
    let result = state.result.unwrap();
    assert_eq!(result.reason, ResultReason::Checkmate);
    assert_eq!(result.result, "0-1");
}

#[test]
fn no_move_token_in_stalemate_ends_as_stalemate() {
    let (mut runner, mut matches) = new_match("m1", 300000);
    runner.begin_ply(&mut matches).expect("a request");
    let verdict = judge(STALEMATE, "(none)");
    let go_on = runner.record_verdict(&mut matches, "(none)".to_string(), 10, verdict);
    assert!(!go_on);
    let state = matches.snapshot("m1").unwrap();
    assert_eq!(state.status, MatchStatus::Finished);
    let result = state.result.unwrap();
    assert_eq!(result.reason, ResultReason::Stalemate);
    assert_eq!(result.result, "1/2-1/2");
}

#[test]
fn game_that_ends_in_checkmate() {
    let (mut runner, mut matches) = new_match("m1", 300000);
    assert!(play(&mut runner, &mut matches, "f2f3", 10));
    assert!(play(&mut runner, &mut matches, "e7e5", 20));
    assert!(play(&mut runner, &mut matches, "g2g4", 30));
    assert!(!play(&mut runner, &mut matches, "d8h4", 40));
    assert!(runner.is_done());
    assert_eq!(runner.fen(), FOOLS_MATE);
    assert_eq!(runner.match_id(), "m1");

    let state = matches.snapshot("m1").unwrap();
    assert_eq!(state.status, MatchStatus::Finished);
    assert_eq!(state.ply, 4);
    assert_eq!(state.pgn, "1. f3 e5 2. g4 Qh4");
    assert_eq!(state.current_fen, FOOLS_MATE);
    assert_eq!(state.clocks.white_ms, 299960);
    assert_eq!(state.clocks.black_ms, 299940);
    let result = state.result.unwrap();
    assert_eq!(result.reason, ResultReason::Checkmate);
    assert_eq!(result.result, "0-1");

    let plies: Vec<u32> = runner.history().iter().map(|record| record.ply).collect();
    assert_eq!(plies, vec![1, 2, 3, 4]);
    let pgns: Vec<&str> = runner.history().iter().map(|record| record.pgn.as_str()).collect();
    assert_eq!(pgns, vec!["1. f3", "1. f3 e5", "1. f3 e5 2. g4", "1. f3 e5 2. g4 Qh4"]);
    assert_eq!(runner.history()[3].fen, FOOLS_MATE);
}

#[test]
fn nothing_is_written_after_the_result() {
    let (mut runner, mut matches) = new_match("m1", 300000);
    play(&mut runner, &mut matches, "f2f3", 10);
    play(&mut runner, &mut matches, "e7e5", 20);
    play(&mut runner, &mut matches, "g2g4", 30);
    play(&mut runner, &mut matches, "d8h4", 40);
    let before = format!("{:?}", matches.snapshot("m1").unwrap());

    assert!(runner.begin_ply(&mut matches).is_none());
    assert!(!runner
        .end_ply(&mut matches, Ok("e2e4".to_string()), 5)
        .unwrap());
    runner.record_timeout(&mut matches, 5);
    runner.record_failure(&mut matches, 5);
    runner.abort(&mut matches);
    finish_match("m1", Side::Black, ResultReason::Illegal, &mut matches);
    fail_match("m1", &mut matches);
    update_match_state(
        &mut matches,
        "m1",
        5,
        START_FEN,
        "1. e4",
        1,
        2,
        "e2e4".to_string(),
        "e4".to_string(),
    );
    assert_eq!(format!("{:?}", matches.snapshot("m1").unwrap()), before);
    assert_eq!(runner.ply(), 4);
}

#[test]
fn failure_of_the_exchange_fails_the_match() {
    let (mut runner, mut matches) = new_match("m1", 300000);
    runner.begin_ply(&mut matches).expect("a request");
    let broken = std::io::Error::new(std::io::ErrorKind::BrokenPipe, "pipe closed");
    let outcome = runner.end_ply(&mut matches, Err(UciError::Io(broken)), 10);
    assert!(matches!(outcome, Err(UciError::Io(_))));
    assert!(runner.is_done());
    let state = matches.snapshot("m1").unwrap();
    assert_eq!(state.status, MatchStatus::Error);
    let result = state.result.unwrap();
    assert_eq!(result.result, "*");
    assert_eq!(result.reason, ResultReason::Error);
}

#[test]
fn end_of_stream_fails_the_match() {
    let (mut runner, mut matches) = new_match("m1", 300000);
    runner.begin_ply(&mut matches).expect("a request");
    let outcome = runner.end_ply(&mut matches, Err(UciError::UnexpectedEof), 10);
    assert!(matches!(outcome, Err(UciError::UnexpectedEof)));
    assert_eq!(matches.get("m1").unwrap().status, MatchStatus::Error);
}

#[test]
fn abort_fails_a_running_match() {
    let (mut runner, mut matches) = new_match("m1", 300000);
    play(&mut runner, &mut matches, "e2e4", 10);
    runner.abort(&mut matches);
    assert!(runner.is_done());
    let state = matches.snapshot("m1").unwrap();
    assert_eq!(state.status, MatchStatus::Error);
    assert_eq!(state.ply, 1);
    let result = state.result.unwrap();
    assert_eq!(result.result, "*");
    assert_eq!(result.reason, ResultReason::Error);
}

#[test]
fn answer_that_nobody_awaits_changes_nothing() {
    let (mut runner, mut matches) = new_match("m1", 300000);
    let go_on = runner
        .end_ply(&mut matches, Ok("e2e4".to_string()), 100)
        .unwrap();
    assert!(go_on);
    assert_eq!(runner.ply(), 0);
    assert_eq!(runner.clocks().white_ms, 300000);
    assert_eq!(runner.phase(), Phase::Ready);
    assert_eq!(matches.get("m1").unwrap().ply, 0);
}

#[test]
fn request_move_takes_the_side_it_is_given() {
    let (mut runner, mut matches) = new_match("m1", 300000);
    let request = runner.request_move(&mut matches, Some(Side::Black)).unwrap();
    assert_eq!(request.side, Side::Black);
    assert_eq!(runner.phase(), Phase::Waiting(Side::Black));

    let (mut lost, mut registry) = new_match("m2", 300000);
    assert!(lost.request_move(&mut registry, None).is_none());
    assert!(lost.is_done());
    let state = registry.snapshot("m2").unwrap();
    assert_eq!(state.status, MatchStatus::Error);
    assert_eq!(state.result.unwrap().reason, ResultReason::Error);
}

#[test]
fn verdict_of_a_move_with_an_ending_publishes_both() {
    let (mut runner, mut matches) = new_match("m1", 300000);
    runner.begin_ply(&mut matches).expect("a request");
    let verdict = Verdict::Played {
        san: "Kd2".to_string(),
        fen: "8/8/8/4k3/8/8/3K4/8 b - - 1 1".to_string(),
        ending: Some(Ending {
            outcome: Outcome::Draw,
            checkmate: false,
            stalemate: false,
        }),
    };
    assert!(!runner.record_verdict(&mut matches, "e1d2".to_string(), 25, verdict));
    let state = matches.snapshot("m1").unwrap();
    assert_eq!(state.status, MatchStatus::Finished);
    assert_eq!(state.ply, 1);
    assert_eq!(state.pgn, "1. Kd2");
    assert_eq!(state.clocks.white_ms, 299975);
    let result = state.result.unwrap();
    assert_eq!(result.result, "1/2-1/2");
    assert_eq!(result.reason, ResultReason::Draw);
}

#[test]
fn finish_with_outcome_prefers_checkmate_over_stalemate() {
    let mut matches = MatchRegistry::new();
    matches.insert("m1".to_string(), MatchState::new("m1".to_string(), 1));
    let ending = Ending {
        outcome: Outcome::Decisive { winner: Side::White },
        checkmate: true,
        stalemate: true,
    };
    finish_with_outcome("m1", ending, &mut matches);
    let result = matches.snapshot("m1").unwrap().result.unwrap();
    assert_eq!(result.reason, ResultReason::Checkmate);
    assert_eq!(result.result, "1-0");
}

#[test]
fn finish_match_credits_the_opponent() {
    let mut matches = MatchRegistry::new();
    matches.insert("w".to_string(), MatchState::new("w".to_string(), 1));
    matches.insert("b".to_string(), MatchState::new("b".to_string(), 1));
    finish_match("w", Side::White, ResultReason::Illegal, &mut matches);
    finish_match("b", Side::Black, ResultReason::Timeout, &mut matches);
    finish_match("missing", Side::Black, ResultReason::Timeout, &mut matches);
    assert_eq!(matches.get("w").unwrap().result.as_ref().unwrap().result, "0-1");
    assert_eq!(matches.get("b").unwrap().result.as_ref().unwrap().result, "1-0");
    assert!(!matches.contains("missing"));
}
