//! The data of a match: sides, clocks, move records, results and the state
//! that observers read.

use vstd::prelude::*;
use vstd::string::StringExecFns;

verus! {

/// The position every match starts from.
pub const START_FEN: &'static str = "rnbqkbnr/pppppppp/8/8/8/8/PPPPPPPP/RNBQKBNR w KQkq - 0 1";

/// The score token of a game that has no winner assigned.
pub const UNRESOLVED: &'static str = "*";

/// The score token of a game that White won.
pub const WHITE_WINS: &'static str = "1-0";

/// The score token of a game that Black won.
pub const BLACK_WINS: &'static str = "0-1";

/// Where a match is in its life.
#[derive(Debug, Clone, Copy, PartialEq, Eq, Structural)]
pub enum MatchStatus {
    Running,
    Finished,
    Error,
}

/// Why a match ended.
#[derive(Debug, Clone, Copy, PartialEq, Eq, Structural)]
pub enum ResultReason {
    Checkmate,
    Stalemate,
    Timeout,
    Illegal,
    Resignation,
    Draw,
    Error,
}

/// One of the two players.
#[derive(Debug, Clone, Copy, PartialEq, Eq, Structural)]
pub enum Side {
    White,
    Black,
}

impl Side {
    /// The other player.
    pub open spec fn other(self) -> Side {
        match self {
            Side::White => Side::Black,
            Side::Black => Side::White,
        }
    }

    /// The other player.
    pub fn opponent(self) -> (side: Side)
        ensures
            side == self.other(),
    {
        match self {
            Side::White => Side::Black,
            Side::Black => Side::White,
        }
    }

    /// The score token of a game that this side lost.
    pub open spec fn loss_token(self) -> Seq<char> {
        match self {
            Side::White => BLACK_WINS@,
            Side::Black => WHITE_WINS@,
        }
    }

    /// The score token of a game that this side lost.
    pub fn loss(self) -> (token: &'static str)
        ensures
            token@ == self.loss_token(),
    {
        match self {
            Side::White => BLACK_WINS,
            Side::Black => WHITE_WINS,
        }
    }
}

/// The time each side has left, in milliseconds.
#[derive(Debug, Clone, Copy, PartialEq, Eq, Structural)]
pub struct Clock {
    pub white_ms: u64,
    pub black_ms: u64,
}

impl Clock {
    /// What `side` has left.
    pub open spec fn of(self, side: Side) -> u64 {
        match side {
            Side::White => self.white_ms,
            Side::Black => self.black_ms,
        }
    }

    /// This clock after `side` has spent `elapsed_ms`: that side's time goes
    /// down, to zero at the least, and the other side's time stays.
    pub open spec fn charged(self, side: Side, elapsed_ms: u64) -> Clock {
        let left = if self.of(side) >= elapsed_ms {
            (self.of(side) - elapsed_ms) as u64
        } else {
            0u64
        };
        match side {
            Side::White => Clock { white_ms: left, black_ms: self.black_ms },
            Side::Black => Clock { white_ms: self.white_ms, black_ms: left },
        }
    }

    /// A clock with the same budget for both sides.
    pub fn new(initial_ms: u64) -> (clock: Clock)
        ensures
            clock == (Clock { white_ms: initial_ms, black_ms: initial_ms }),
    {
        Clock { white_ms: initial_ms, black_ms: initial_ms }
    }

    /// What `side` has left.
    pub fn remaining(&self, side: Side) -> (ms: u64)
        ensures
            ms == self.of(side),
    {
        match side {
            Side::White => self.white_ms,
            Side::Black => self.black_ms,
        }
    }

    /// Takes `elapsed_ms` from the time of `side`, stopping at zero.
    pub fn charge(&mut self, side: Side, elapsed_ms: u64)
        ensures
            *final(self) == old(self).charged(side, elapsed_ms),
            final(self).of(side) <= old(self).of(side),
            final(self).of(side.other()) == old(self).of(side.other()),
    {
        match side {
            Side::White => {
                self.white_ms = self.white_ms.saturating_sub(elapsed_ms);
            },
            Side::Black => {
                self.black_ms = self.black_ms.saturating_sub(elapsed_ms);
            },
        }
    }
}

/// How a match ended: the score token and the reason.
#[derive(Debug)]
pub struct MatchResult {
    pub result: String,
    pub reason: ResultReason,
}

/// A `MatchResult` as plain values.
pub struct MatchResultView {
    pub result: Seq<char>,
    pub reason: ResultReason,
}

impl View for MatchResult {
    type V = MatchResultView;

    open spec fn view(&self) -> MatchResultView {
        MatchResultView { result: self.result@, reason: self.reason }
    }
}

impl Clone for MatchResult {
    fn clone(&self) -> (copy: MatchResult)
        ensures
            copy@ == self@,
    {
        MatchResult { result: self.result.clone(), reason: self.reason }
    }
}

/// One applied half-move: its number, the move as the engine wrote it and in
/// algebraic notation, the position it led to and the move text up to it.
#[derive(Debug)]
pub struct MoveSnapshot {
    pub ply: u32,
    pub uci: String,
    pub san: String,
    pub fen: String,
    pub pgn: String,
}

/// A `MoveSnapshot` as plain values.
pub struct MoveSnapshotView {
    pub ply: u32,
    pub uci: Seq<char>,
    pub san: Seq<char>,
    pub fen: Seq<char>,
    pub pgn: Seq<char>,
}

impl View for MoveSnapshot {
    type V = MoveSnapshotView;

    open spec fn view(&self) -> MoveSnapshotView {
        MoveSnapshotView {
            ply: self.ply,
            uci: self.uci@,
            san: self.san@,
            fen: self.fen@,
            pgn: self.pgn@,
        }
    }
}

impl Clone for MoveSnapshot {
    fn clone(&self) -> (copy: MoveSnapshot)
        ensures
            copy@ == self@,
    {
        MoveSnapshot {
            ply: self.ply,
            uci: self.uci.clone(),
            san: self.san.clone(),
            fen: self.fen.clone(),
            pgn: self.pgn.clone(),
        }
    }
}

/// What observers see of a match.
#[derive(Debug)]
pub struct MatchState {
    pub match_id: String,
    pub status: MatchStatus,
    pub current_fen: String,
    pub pgn: String,
    pub clocks: Clock,
    pub result: Option<MatchResult>,
    pub side_to_move: Side,
    pub ply: u32,
    pub start_fen: String,
    pub last_move: Option<MoveSnapshot>,
}

/// A `MatchState` as plain values.
pub struct MatchStateView {
    pub match_id: Seq<char>,
    pub status: MatchStatus,
    pub current_fen: Seq<char>,
    pub pgn: Seq<char>,
    pub clocks: Clock,
    pub result: Option<MatchResultView>,
    pub side_to_move: Side,
    pub ply: u32,
    pub start_fen: Seq<char>,
    pub last_move: Option<MoveSnapshotView>,
}

/// The view of a result that may be absent.
pub open spec fn result_view(result: Option<MatchResult>) -> Option<MatchResultView> {
    match result {
        Some(r) => Some(r@),
        None => None,
    }
}

/// The view of a move record that may be absent.
pub open spec fn move_view(last_move: Option<MoveSnapshot>) -> Option<MoveSnapshotView> {
    match last_move {
        Some(m) => Some(m@),
        None => None,
    }
}

impl View for MatchState {
    type V = MatchStateView;

    open spec fn view(&self) -> MatchStateView {
        MatchStateView {
            match_id: self.match_id@,
            status: self.status,
            current_fen: self.current_fen@,
            pgn: self.pgn@,
            clocks: self.clocks,
            result: result_view(self.result),
            side_to_move: self.side_to_move,
            ply: self.ply,
            start_fen: self.start_fen@,
            last_move: move_view(self.last_move),
        }
    }
}

impl Clone for MatchState {
    fn clone(&self) -> (copy: MatchState)
        ensures
            copy@ == self@,
    {
        let result = match &self.result {
            Some(r) => Some(r.clone()),
            None => None,
        };
        let last_move = match &self.last_move {
            Some(m) => Some(m.clone()),
            None => None,
        };
        MatchState {
            match_id: self.match_id.clone(),
            status: self.status,
            current_fen: self.current_fen.clone(),
            pgn: self.pgn.clone(),
            clocks: self.clocks,
            result,
            side_to_move: self.side_to_move,
            ply: self.ply,
            start_fen: self.start_fen.clone(),
            last_move,
        }
    }
}

impl MatchStateView {
    /// The state of a match that has just been created.
    pub open spec fn initial(match_id: Seq<char>, initial_ms: u64) -> MatchStateView {
        MatchStateView {
            match_id,
            status: MatchStatus::Running,
            current_fen: START_FEN@,
            pgn: Seq::empty(),
            clocks: Clock { white_ms: initial_ms, black_ms: initial_ms },
            result: None,
            side_to_move: Side::White,
            ply: 0,
            start_fen: START_FEN@,
            last_move: None,
        }
    }

    /// Whether the match has ended.
    pub open spec fn is_terminal(self) -> bool {
        self.status != MatchStatus::Running
    }

    /// The parts of a state agree: a result stands exactly when the match has
    /// ended, and the last move record is that of the current ply, position
    /// and move text.
    pub open spec fn consistent(self) -> bool {
        &&& self.result is Some <==> self.status != MatchStatus::Running
        &&& self.last_move is None <==> self.ply == 0
        &&& self.last_move matches Some(m) ==> {
            &&& m.ply == self.ply
            &&& m.fen == self.current_fen
            &&& m.pgn == self.pgn
        }
    }

    /// This state after the move `record` was applied, with `clocks` left:
    /// ply, position and move text are those of the record, and the turn has
    /// passed to the other side.
    pub open spec fn with_move(self, record: MoveSnapshotView, clocks: Clock) -> MatchStateView {
        MatchStateView {
            current_fen: record.fen,
            pgn: record.pgn,
            clocks,
            side_to_move: self.side_to_move.other(),
            ply: record.ply,
            last_move: Some(record),
            ..self
        }
    }

    /// This state after the match ended with `status` and `result`.
    pub open spec fn with_result(self, status: MatchStatus, result: MatchResultView) -> MatchStateView {
        MatchStateView { status, result: Some(result), ..self }
    }
}

impl MatchState {
    /// The state of a match that has just been created: running, at the start
    /// position, nothing played, both clocks at `initial_ms`.
    pub fn new(match_id: String, initial_ms: u64) -> (state: MatchState)
        ensures
            state@ == MatchStateView::initial(match_id@, initial_ms),
            state@.consistent(),
    {
        MatchState {
            match_id,
            status: MatchStatus::Running,
            current_fen: String::from_str(START_FEN),
            pgn: String::new(),
            clocks: Clock::new(initial_ms),
            result: None,
            side_to_move: Side::White,
            ply: 0,
            start_fen: String::from_str(START_FEN),
            last_move: None,
        }
    }

    /// Whether the match has ended.
    pub fn is_terminal(&self) -> (ended: bool)
        ensures
            ended == self@.is_terminal(),
    {
        match self.status {
            MatchStatus::Running => false,
            _ => true,
        }
    }
}

} // verus!
