use chessbench::api::{MatchCreateRequest, TimeControlRequest};
use chessbench::domain::{MatchState, MatchStatus, ResultReason, Side, START_FEN};
use chessbench::engine::EngineSpec;
use chessbench::match_runner::{finish_match, update_match_state};
use chessbench::registry::MatchRegistry;
use chessbench::server::{
    create_match, get_match, stream_match, stream_tick, CreateMatchError, EngineRoster, StreamEvent,
};

fn sample_engines() -> Vec<EngineSpec> {
    vec![
        EngineSpec {
            id: "stockfish-16".to_string(),
            name: "Stockfish 16".to_string(),
            author: "SF Team".to_string(),
            path: "/opt/stockfish".into(),
            args: vec!["-threads".to_string(), "4".to_string()],
            working_dir: None,
        },
        EngineSpec {
            id: "lc0-0.30".to_string(),
            name: "Leela Chess Zero".to_string(),
            author: "Lc0 Team".to_string(),
            path: "/opt/lc0".into(),
            args: Vec::new(),
            working_dir: None,
        },
    ]
}

fn request(white: &str, black: &str, initial_ms: u64) -> MatchCreateRequest {
    MatchCreateRequest {
        white_engine_id: white.to_string(),
        black_engine_id: black.to_string(),
        time_control: TimeControlRequest { initial_ms },
    }
}

#[test]
fn get_engines_returns_configured_engines() {
    let roster = EngineRoster::new(sample_engines());
    let payload = roster.get_engines();

    assert_eq!(payload.engines.len(), 2);
    assert_eq!(payload.engines[0].id, "stockfish-16");
    assert_eq!(payload.engines[1].id, "lc0-0.30");
    assert_eq!(payload.engines[0].name, "Stockfish 16");
    assert_eq!(payload.engines[1].author, "Lc0 Team");
}

#[test]
fn post_match_creates_match() {
    let roster = EngineRoster::new(sample_engines());
    let mut matches = MatchRegistry::new();
    let payload = request("stockfish-16", "lc0-0.30", 300000);

    let start = create_match(&roster, &mut matches, &payload, "match-1".to_string()).unwrap();

    assert!(!start.response.match_id.is_empty());
    assert_eq!(start.response.match_id, "match-1");
    assert_eq!(start.white.id, "stockfish-16");
    assert_eq!(start.white.args, vec!["-threads", "4"]);
    assert_eq!(start.black.id, "lc0-0.30");
    assert_eq!(start.initial_ms, 300000);
    let state = matches.snapshot("match-1").unwrap();
    assert_eq!(state.status, MatchStatus::Running);
    assert_eq!(state.clocks.white_ms, 300000);
    assert_eq!(state.clocks.black_ms, 300000);
    assert_eq!(state.current_fen, START_FEN);
    assert_eq!(state.side_to_move, Side::White);
}

#[test]
fn post_match_rejects_unknown_engine() {
    let roster = EngineRoster::new(sample_engines());
    let mut matches = MatchRegistry::new();
    let payload = request("unknown", "lc0-0.30", 300000);

    let refused = create_match(&roster, &mut matches, &payload, "match-1".to_string());

    assert_eq!(refused.unwrap_err(), CreateMatchError::UnknownEngine);
    assert!(!matches.contains("match-1"));
}

#[test]
fn post_match_rejects_zero_budget_first() {
    let roster = EngineRoster::new(sample_engines());
    let mut matches = MatchRegistry::new();
    let refused = create_match(&roster, &mut matches, &request("unknown", "unknown", 0), "m".to_string());
    assert_eq!(refused.unwrap_err(), CreateMatchError::ZeroInitialMs);
    assert_eq!(
        CreateMatchError::ZeroInitialMs.message(),
        "initial_ms must be greater than zero"
    );
}

#[test]
fn post_match_rejects_unknown_black_engine() {
    let roster = EngineRoster::new(sample_engines());
    let mut matches = MatchRegistry::new();
    let refused = create_match(&roster, &mut matches, &request("lc0-0.30", "nobody", 1), "m".to_string());
    assert_eq!(refused.unwrap_err(), CreateMatchError::UnknownEngine);
    assert_eq!(CreateMatchError::UnknownEngine.message(), "unknown engine id");
}

#[test]
fn post_match_rejects_the_same_engine_on_both_sides() {
    let roster = EngineRoster::new(sample_engines());
    let mut matches = MatchRegistry::new();
    let refused = create_match(&roster, &mut matches, &request("lc0-0.30", "lc0-0.30", 1), "m".to_string());
    assert_eq!(refused.unwrap_err(), CreateMatchError::SameEngine);
    assert_eq!(
        CreateMatchError::SameEngine.message(),
        "white and black engines must differ"
    );
    assert!(!matches.contains("m"));
}

#[test]
fn roster_keeps_the_later_of_two_engines_with_one_id() {
    let mut engines = sample_engines();
    engines.push(EngineSpec {
        id: "lc0-0.30".to_string(),
        name: "Another".to_string(),
        author: "".to_string(),
        path: "/opt/other".to_string(),
        args: Vec::new(),
        working_dir: Some("/tmp".to_string()),
    });
    let roster = EngineRoster::new(engines);
    assert_eq!(roster.get_engines().engines.len(), 3);
    assert_eq!(roster.find("lc0-0.30").unwrap().path, "/opt/other");
    assert_eq!(roster.find("stockfish-16").unwrap().path, "/opt/stockfish");
    assert!(roster.find("nobody").is_none());
}

#[test]
fn get_match_copies_the_state() {
    let mut matches = MatchRegistry::new();
    assert!(get_match(&matches, "m1").is_none());
    matches.insert("m1".to_string(), MatchState::new("m1".to_string(), 5000));
    finish_match("m1", Side::White, ResultReason::Timeout, &mut matches);
    let response = get_match(&matches, "m1").unwrap();
    assert_eq!(response.match_id, "m1");
    assert_eq!(response.status, MatchStatus::Finished);
    assert_eq!(response.current_fen, START_FEN);
    assert_eq!(response.pgn, "");
    assert_eq!(response.clocks.white_ms, 5000);
    let result = response.result.unwrap();
    assert_eq!(result.result, "0-1");
    assert_eq!(result.reason, ResultReason::Timeout);
}

#[test]
fn feed_opens_with_the_start_position() {
    let mut matches = MatchRegistry::new();
    assert!(stream_match(&matches, "m1").is_none());
    matches.insert("m1".to_string(), MatchState::new("m1".to_string(), 5000));
    match stream_match(&matches, "m1").unwrap() {
        StreamEvent::MatchStarted(event) => {
            assert_eq!(event.match_id, "m1");
            assert_eq!(event.start_fen, START_FEN);
        }
        other => panic!("expected the opening notice, got {:?}", other),
    }
}

#[test]
fn feed_reports_each_move_once_and_ends_with_the_result() {
    let mut matches = MatchRegistry::new();
    matches.insert("m1".to_string(), MatchState::new("m1".to_string(), 5000));

    let first = stream_tick(&matches, "m1", 0);
    assert!(!first.done);
    assert_eq!(first.last_emitted_ply, 0);
    assert_eq!(first.events.len(), 1);
    match &first.events[0] {
        StreamEvent::Clock(clock) => {
            assert_eq!(clock.white_ms, 5000);
            assert_eq!(clock.black_ms, 5000);
        }
        other => panic!("expected the clocks, got {:?}", other),
    }

    update_match_state(
        &mut matches,
        "m1",
        1,
        "fen-1",
        "1. e4",
        4000,
        5000,
        "e2e4".to_string(),
        "e4".to_string(),
    );
    let second = stream_tick(&matches, "m1", first.last_emitted_ply);
    assert!(!second.done);
    assert_eq!(second.last_emitted_ply, 1);
    assert_eq!(second.events.len(), 2);
    assert!(matches!(&second.events[0], StreamEvent::Clock(clock) if clock.white_ms == 4000));
    match &second.events[1] {
        StreamEvent::Move(event) => {
            assert_eq!(event.ply, 1);
            assert_eq!(event.uci, "e2e4");
            assert_eq!(event.san, "e4");
            assert_eq!(event.fen, "fen-1");
            assert_eq!(event.pgn, "1. e4");
        }
        other => panic!("expected a move, got {:?}", other),
    }

    let third = stream_tick(&matches, "m1", second.last_emitted_ply);
    assert_eq!(third.events.len(), 1);
    assert_eq!(third.last_emitted_ply, 1);

    finish_match("m1", Side::Black, ResultReason::Illegal, &mut matches);
    let last = stream_tick(&matches, "m1", third.last_emitted_ply);
    assert!(last.done);
    assert_eq!(last.events.len(), 2);
    match &last.events[1] {
        StreamEvent::Result(event) => {
            assert_eq!(event.result, "1-0");
            assert_eq!(event.reason, ResultReason::Illegal);
        }
        other => panic!("expected the result, got {:?}", other),
    }
}

#[test]
fn feed_of_a_missing_match_ends_without_notice() {
    let matches = MatchRegistry::new();
    let step = stream_tick(&matches, "gone", 3);
    assert!(step.done);
    assert!(step.events.is_empty());
    assert_eq!(step.last_emitted_ply, 3);
}

#[test]
fn feed_reports_move_and_result_in_one_tick() {
    let mut matches = MatchRegistry::new();
    matches.insert("m1".to_string(), MatchState::new("m1".to_string(), 5000));
    update_match_state(
        &mut matches,
        "m1",
        1,
        "fen-1",
        "1. e4",
        4000,
        5000,
        "e2e4".to_string(),
        "e4".to_string(),
    );
    finish_match("m1", Side::Black, ResultReason::Timeout, &mut matches);
    let step = stream_tick(&matches, "m1", 0);
    assert!(step.done);
    assert_eq!(step.events.len(), 3);
    assert!(matches!(step.events[0], StreamEvent::Clock(_)));
    assert!(matches!(step.events[1], StreamEvent::Move(_)));
    assert!(matches!(step.events[2], StreamEvent::Result(_)));
    let names: Vec<&str> = step.events.iter().map(|event| event.name()).collect();
    assert_eq!(names, vec!["clock", "move", "result"]);
    assert_eq!(stream_match(&matches, "m1").unwrap().name(), "match_started");
}
