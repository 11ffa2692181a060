//! What the server hands to its clients and takes from them, as values.

use crate::domain::Clock;
use crate::domain::MatchResult;
use crate::domain::MatchResultView;
use crate::domain::MatchState;
use crate::domain::MatchStateView;
use crate::domain::MatchStatus;
use crate::domain::MoveSnapshot;
use crate::domain::MoveSnapshotView;
use crate::domain::result_view;
use crate::domain::ResultReason;
use crate::engine::EngineSpec;
use crate::engine::EngineSpecView;
use vstd::prelude::*;

verus! {

/// The engines that matches can be played with.
#[derive(Debug)]
pub struct EnginesResponse {
    pub engines: Vec<EngineInfo>,
}

/// How an engine identifies itself.
#[derive(Debug)]
pub struct EngineInfo {
    pub id: String,
    pub name: String,
    pub author: String,
}

/// An `EngineInfo` as plain values.
pub struct EngineInfoView {
    pub id: Seq<char>,
    pub name: Seq<char>,
    pub author: Seq<char>,
}

impl View for EngineInfo {
    type V = EngineInfoView;

    open spec fn view(&self) -> EngineInfoView {
        EngineInfoView { id: self.id@, name: self.name@, author: self.author@ }
    }
}

/// The views of a sequence of engine descriptions.
pub open spec fn info_views(infos: Seq<EngineInfo>) -> Seq<EngineInfoView> {
    infos.map_values(|info: EngineInfo| info@)
}

impl View for EnginesResponse {
    type V = Seq<EngineInfoView>;

    open spec fn view(&self) -> Seq<EngineInfoView> {
        info_views(self.engines@)
    }
}

impl EngineSpecView {
    /// How the engine identifies itself.
    pub open spec fn info(self) -> EngineInfoView {
        EngineInfoView { id: self.id, name: self.name, author: self.author }
    }
}

impl EngineInfo {
    /// How `engine` identifies itself.
    pub fn of(engine: &EngineSpec) -> (info: EngineInfo)
        ensures
            info@ == engine@.info(),
    {
        EngineInfo {
            id: engine.id.clone(),
            name: engine.name.clone(),
            author: engine.author.clone(),
        }
    }
}

impl Clone for EngineInfo {
    fn clone(&self) -> (copy: EngineInfo)
        ensures
            copy@ == self@,
    {
        EngineInfo { id: self.id.clone(), name: self.name.clone(), author: self.author.clone() }
    }
}

/// A request for a new match between two engines.
#[derive(Debug)]
pub struct MatchCreateRequest {
    pub white_engine_id: String,
    pub black_engine_id: String,
    pub time_control: TimeControlRequest,
}

/// The time budget of each side, in milliseconds.
#[derive(Debug, Clone, Copy, PartialEq, Eq, Structural)]
pub struct TimeControlRequest {
    pub initial_ms: u64,
}

/// The answer to an accepted request for a match.
#[derive(Debug)]
pub struct MatchCreateResponse {
    pub match_id: String,
}

/// The state of a match as clients get it.
#[derive(Debug)]
pub struct MatchStatusResponse {
    pub match_id: String,
    pub status: MatchStatus,
    pub current_fen: String,
    pub pgn: String,
    pub clocks: Clock,
    pub result: Option<MatchResult>,
}

/// A `MatchStatusResponse` as plain values.
pub struct MatchStatusView {
    pub match_id: Seq<char>,
    pub status: MatchStatus,
    pub current_fen: Seq<char>,
    pub pgn: Seq<char>,
    pub clocks: Clock,
    pub result: Option<MatchResultView>,
}

impl View for MatchStatusResponse {
    type V = MatchStatusView;

    open spec fn view(&self) -> MatchStatusView {
        MatchStatusView {
            match_id: self.match_id@,
            status: self.status,
            current_fen: self.current_fen@,
            pgn: self.pgn@,
            clocks: self.clocks,
            result: result_view(self.result),
        }
    }
}

impl MatchStateView {
    /// What clients get of this state.
    pub open spec fn status_response(self) -> MatchStatusView {
        MatchStatusView {
            match_id: self.match_id,
            status: self.status,
            current_fen: self.current_fen,
            pgn: self.pgn,
            clocks: self.clocks,
            result: self.result,
        }
    }
}

impl MatchStatusResponse {
    /// What clients get of `state`.
    pub fn of(state: &MatchState) -> (response: MatchStatusResponse)
        ensures
            response@ == state@.status_response(),
    {
        let result = match &state.result {
            Some(r) => Some(r.clone()),
            None => None,
        };
        MatchStatusResponse {
            match_id: state.match_id.clone(),
            status: state.status,
            current_fen: state.current_fen.clone(),
            pgn: state.pgn.clone(),
            clocks: state.clocks,
            result,
        }
    }
}

/// The notice that opens the feed of a match.
#[derive(Debug)]
pub struct MatchStartedEvent {
    pub match_id: String,
    pub start_fen: String,
}

/// The time each side has left, as the feed reports it.
#[derive(Debug, Clone, Copy, PartialEq, Eq, Structural)]
pub struct ClockEvent {
    pub white_ms: u64,
    pub black_ms: u64,
}

impl ClockEvent {
    /// The notice of `clocks`.
    pub fn of(clocks: &Clock) -> (event: ClockEvent)
        ensures
            event == (ClockEvent { white_ms: clocks.white_ms, black_ms: clocks.black_ms }),
    {
        ClockEvent { white_ms: clocks.white_ms, black_ms: clocks.black_ms }
    }
}

/// An applied move, as the feed reports it.
#[derive(Debug)]
pub struct MoveEvent {
    pub ply: u32,
    pub uci: String,
    pub san: String,
    pub fen: String,
    pub pgn: String,
}

impl View for MoveEvent {
    type V = MoveSnapshotView;

    open spec fn view(&self) -> MoveSnapshotView {
        MoveSnapshotView {
            ply: self.ply,
            uci: self.uci@,
            san: self.san@,
            fen: self.fen@,
            pgn: self.pgn@,
        }
    }
}

impl MoveEvent {
    /// The notice of the move `record`.
    pub fn of(record: &MoveSnapshot) -> (event: MoveEvent)
        ensures
            event@ == record@,
    {
        MoveEvent {
            ply: record.ply,
            uci: record.uci.clone(),
            san: record.san.clone(),
            fen: record.fen.clone(),
            pgn: record.pgn.clone(),
        }
    }
}

/// The terminal result, as the feed reports it.
#[derive(Debug)]
pub struct ResultEvent {
    pub result: String,
    pub reason: ResultReason,
}

impl View for ResultEvent {
    type V = MatchResultView;

    open spec fn view(&self) -> MatchResultView {
        MatchResultView { result: self.result@, reason: self.reason }
    }
}

impl ResultEvent {
    /// The notice of `result`.
    pub fn of(result: &MatchResult) -> (event: ResultEvent)
        ensures
            event@ == result@,
    {
        ResultEvent { result: result.result.clone(), reason: result.reason }
    }
}

} // verus!
