//! The match orchestrator: one game between two engines, from the first
//! request for a move to the terminal result. The orchestrator decides; the
//! driver that owns the engine processes sends what it is asked to send and
//! hands back what the engine answered and how long that took.

pub mod laws;

use crate::domain::Clock;
use crate::domain::MatchResult;
use crate::domain::MatchResultView;
use crate::domain::MatchState;
use crate::domain::MatchStateView;
use crate::domain::MatchStatus;
use crate::domain::MoveSnapshot;
use crate::domain::MoveSnapshotView;
use crate::domain::ResultReason;
use crate::domain::Side;
use crate::domain::START_FEN;
use crate::domain::UNRESOLVED;
use crate::registry::all_consistent;
use crate::registry::MatchRegistry;
use crate::registry::written;
use crate::rules::apply_move;
use crate::rules::Ending;
use crate::rules::ending;
use crate::rules::ending_at;
use crate::rules::fen_after;
use crate::rules::san_at;
use crate::rules::side_to_move;
use crate::rules::to_algebraic;
use crate::rules::turn_at;
use crate::text::decimal;
use crate::text::push_decimal;
use crate::text::same_text;
use crate::text::texts;
use crate::uci::UciError;
use vstd::prelude::*;
use vstd::string::StringExecFns;

verus! {

/// What the move at `index` (from zero) adds to the move text: White's moves
/// carry the move number, and all but the first entry begin with a space.
pub open spec fn pgn_entry(index: nat, san: Seq<char>) -> Seq<char> {
    if index % 2 == 0 {
        let gap = if index == 0 {
            Seq::<char>::empty()
        } else {
            seq![' ']
        };
        gap + decimal(index / 2 + 1) + seq!['.', ' '] + san
    } else {
        seq![' '] + san
    }
}

/// The move text of a game: `1. e4 e5 2. Nf3` for three moves.
pub open spec fn pgn_text(moves: Seq<Seq<char>>) -> Seq<char>
    decreases moves.len(),
{
    if moves.len() == 0 {
        Seq::<char>::empty()
    } else {
        pgn_text(moves.drop_last()) + pgn_entry((moves.len() - 1) as nat, moves.last())
    }
}

/// The move text of the game whose moves, in algebraic notation, are `moves`.
pub fn format_pgn(moves: &[String]) -> (pgn: String)
    ensures
        pgn@ == pgn_text(texts(moves@)),
{
    let mut pgn = String::new();
    let n: usize = moves.len();
    let mut idx: usize = 0;
    while idx < n
        invariant
            n == moves@.len(),
            idx <= n,
            pgn@ == pgn_text(texts(moves@).take(idx as int)),
        decreases n - idx,
    {
        let ghost before = pgn@;
        let san: &String = &moves[idx];
        if idx % 2 == 0 {
            if idx > 0 {
                pgn.append(" ");
            }
            let move_no: usize = idx / 2 + 1;
            push_decimal(&mut pgn, move_no as u64);
            pgn.append(". ");
            pgn.append(san.as_str());
        } else {
            pgn.append(" ");
            pgn.append(san.as_str());
        }
        proof {
            reveal_strlit(" ");
            reveal_strlit(". ");
            let all = texts(moves@);
            let upto = all.take(idx + 1);
            assert(upto.drop_last() =~= all.take(idx as int));
            assert(upto.last() == san@);
            assert(" "@ =~= seq![' ']);
            assert(". "@ =~= seq!['.', ' ']);
            assert(pgn@ =~= before + pgn_entry(idx as nat, san@));
        }
        idx += 1;
    }
    proof {
        assert(texts(moves@).take(n as int) =~= texts(moves@));
    }
    pgn
}

/// The move text grows by one entry with each move.
pub proof fn lemma_pgn_text_push(moves: Seq<Seq<char>>, san: Seq<char>)
    ensures
        pgn_text(moves.push(san)) == pgn_text(moves) + pgn_entry(moves.len(), san),
{
    assert(moves.push(san).drop_last() =~= moves);
}

/// The terminal result of a forfeit: the offender loses, except that a match
/// that ends for the reason `Error` has no winner assigned.
pub open spec fn forfeit(offender: Side, reason: ResultReason) -> MatchResultView {
    MatchResultView {
        result: if reason == ResultReason::Error {
            UNRESOLVED@
        } else {
            offender.loss_token()
        },
        reason,
    }
}

/// The reason that stands for an ending: checkmate where the rules flag one,
/// else stalemate where they flag one, else a draw.
pub open spec fn ending_reason(ending: Ending) -> ResultReason {
    if ending.checkmate {
        ResultReason::Checkmate
    } else if ending.stalemate {
        ResultReason::Stalemate
    } else {
        ResultReason::Draw
    }
}

/// The terminal result of a game that the rules declared over.
pub open spec fn settled(ending: Ending) -> MatchResultView {
    MatchResultView { result: ending.outcome.token(), reason: ending_reason(ending) }
}

/// The terminal result of a match that failed.
pub open spec fn failure() -> MatchResultView {
    MatchResultView { result: UNRESOLVED@, reason: ResultReason::Error }
}

/// The registry after the move `record` was published for the match `id`,
/// with `clocks` left: a running entry takes the move, anything else stays.
pub open spec fn moved(
    registry: Map<Seq<char>, MatchStateView>,
    id: Seq<char>,
    record: MoveSnapshotView,
    clocks: Clock,
) -> Map<Seq<char>, MatchStateView> {
    written(registry, id, registry[id].with_move(record, clocks))
}

/// The registry after the match `id` was ended with `status` and `result`: a
/// running entry takes them, anything else stays.
pub open spec fn ended(
    registry: Map<Seq<char>, MatchStateView>,
    id: Seq<char>,
    status: MatchStatus,
    result: MatchResultView,
) -> Map<Seq<char>, MatchStateView> {
    written(registry, id, registry[id].with_result(status, result))
}

/// Publishes an applied move: the entry of `match_id` takes the ply, the new
/// position, the move text, the clocks and the move's record, and the turn
/// passes to the other side. A missing or ended match is left as it is.
pub fn update_match_state(
    matches: &mut MatchRegistry,
    match_id: &str,
    ply: u32,
    fen: &str,
    pgn: &str,
    white_ms: u64,
    black_ms: u64,
    uci: String,
    san: String,
)
    ensures
        final(matches)@ == moved(
            old(matches)@,
            match_id@,
            MoveSnapshotView { ply, uci: uci@, san: san@, fen: fen@, pgn: pgn@ },
            Clock { white_ms, black_ms },
        ),
        ply > 0 && all_consistent(old(matches)@) ==> all_consistent(final(matches)@),
{
    match matches.snapshot(match_id) {
        Some(entry) => {
            let record = MoveSnapshot {
                ply,
                uci,
                san,
                fen: String::from_str(fen),
                pgn: String::from_str(pgn),
            };
            let next = MatchState {
                match_id: entry.match_id,
                status: entry.status,
                current_fen: String::from_str(fen),
                pgn: String::from_str(pgn),
                clocks: Clock { white_ms, black_ms },
                result: entry.result,
                side_to_move: entry.side_to_move.opponent(),
                ply,
                start_fen: entry.start_fen,
                last_move: Some(record),
            };
            matches.update(match_id, next);
        },
        None => {},
    }
}

/// Writes `result` with `status` into the entry of `match_id`. A missing or
/// ended match is left as it is.
fn finish(matches: &mut MatchRegistry, match_id: &str, status: MatchStatus, result: MatchResult)
    requires
        status != MatchStatus::Running,
    ensures
        final(matches)@ == ended(old(matches)@, match_id@, status, result@),
        all_consistent(old(matches)@) ==> all_consistent(final(matches)@),
{
    match matches.snapshot(match_id) {
        Some(entry) => {
            let next = MatchState {
                match_id: entry.match_id,
                status,
                current_fen: entry.current_fen,
                pgn: entry.pgn,
                clocks: entry.clocks,
                result: Some(result),
                side_to_move: entry.side_to_move,
                ply: entry.ply,
                start_fen: entry.start_fen,
                last_move: entry.last_move,
            };
            matches.update(match_id, next);
        },
        None => {},
    }
}

/// Ends the match `match_id` as forfeited by `offender` for `reason`: the
/// match is finished and the offender's opponent is credited the win; for the
/// reason `Error` no winner is assigned. A missing or ended match is left as it
/// is.
pub fn finish_match(
    match_id: &str,
    offender: Side,
    reason: ResultReason,
    matches: &mut MatchRegistry,
)
    ensures
        final(matches)@ == ended(
            old(matches)@,
            match_id@,
            MatchStatus::Finished,
            forfeit(offender, reason),
        ),
        all_consistent(old(matches)@) ==> all_consistent(final(matches)@),
{
    let token: &str = match reason {
        ResultReason::Error => UNRESOLVED,
        _ => offender.loss(),
    };
    let result = MatchResult { result: String::from_str(token), reason };
    finish(matches, match_id, MatchStatus::Finished, result);
}

/// Ends the match `match_id` as the rules decided it: the score is that of
/// the outcome, and the reason is checkmate, stalemate or draw. A missing or
/// ended match is left as it is.
pub fn finish_with_outcome(match_id: &str, ending: Ending, matches: &mut MatchRegistry)
    ensures
        final(matches)@ == ended(
            old(matches)@,
            match_id@,
            MatchStatus::Finished,
            settled(ending),
        ),
        all_consistent(old(matches)@) ==> all_consistent(final(matches)@),
{
    let reason = if ending.checkmate {
        ResultReason::Checkmate
    } else if ending.stalemate {
        ResultReason::Stalemate
    } else {
        ResultReason::Draw
    };
    let result = MatchResult { result: String::from_str(ending.outcome.as_str()), reason };
    finish(matches, match_id, MatchStatus::Finished, result);
}

/// Ends the match `match_id` as failed: status `Error`, no winner assigned. A
/// missing or ended match is left as it is, so a result that was written
/// before stands.
pub fn fail_match(match_id: &str, matches: &mut MatchRegistry)
    ensures
        final(matches)@ == ended(old(matches)@, match_id@, MatchStatus::Error, failure()),
        all_consistent(old(matches)@) ==> all_consistent(final(matches)@),
{
    let result = MatchResult { result: String::from_str(UNRESOLVED), reason: ResultReason::Error };
    finish(matches, match_id, MatchStatus::Error, result);
}

/// The token by which an engine says that it has no move.
pub const NO_MOVE: &'static str = "(none)";

/// The command that sets an engine's position is this, then the position.
pub const POSITION_COMMAND: &'static str = "position fen ";

/// What the rules make of an engine's answer in a position.
#[derive(Debug)]
pub enum Verdict {
    /// The engine has no move; `ending` is what the rules say of the position.
    NoMove { ending: Option<Ending> },
    /// The answer names no legal move.
    Illegal,
    /// The answer is a legal move: its algebraic notation, the position it
    /// leads to, and what the rules say of that position.
    Played { san: String, fen: String, ending: Option<Ending> },
}

/// A `Verdict` as plain values.
pub enum VerdictView {
    NoMove { ending: Option<Ending> },
    Illegal,
    Played { san: Seq<char>, fen: Seq<char>, ending: Option<Ending> },
}

impl View for Verdict {
    type V = VerdictView;

    open spec fn view(&self) -> VerdictView {
        match self {
            Verdict::NoMove { ending } => VerdictView::NoMove { ending: *ending },
            Verdict::Illegal => VerdictView::Illegal,
            Verdict::Played { san, fen, ending } => VerdictView::Played {
                san: san@,
                fen: fen@,
                ending: *ending,
            },
        }
    }
}

/// What the rules make of the answer `token` in the position `fen`: the
/// no-move token is judged by the position's ending; any other token is a move
/// if the rules resolve it and accept it, and illegal otherwise.
pub open spec fn verdict_at(fen: Seq<char>, token: Seq<char>) -> VerdictView {
    if token == NO_MOVE@ {
        VerdictView::NoMove { ending: ending_at(fen) }
    } else if san_at(fen, token) is Some && fen_after(fen, token) is Some {
        VerdictView::Played {
            san: san_at(fen, token).unwrap(),
            fen: fen_after(fen, token).unwrap(),
            ending: ending_at(fen_after(fen, token).unwrap()),
        }
    } else {
        VerdictView::Illegal
    }
}

/// Whether `ending`, where it is a checkmate in the position `fen`, is scored
/// as a loss of the side to move there.
pub open spec fn mate_is_loss(fen: Seq<char>, ending: Ending) -> bool {
    ending.checkmate ==> turn_at(fen) is Some && settled(ending) == (MatchResultView {
        result: turn_at(fen).unwrap().loss_token(),
        reason: ResultReason::Checkmate,
    })
}

/// Asks the rules what to make of the answer `token` in the position `fen`.
/// Where the game has ended in checkmate, the ending is a loss of the mated
/// side, which is the side to move in the final position.
pub fn judge(fen: &str, token: &str) -> (verdict: Verdict)
    ensures
        verdict@ == verdict_at(fen@, token@),
        verdict@ matches VerdictView::NoMove { ending: Some(e) } ==> mate_is_loss(fen@, e),
        verdict@ matches VerdictView::Played { fen: next, ending: Some(e), .. } ==> mate_is_loss(
            next,
            e,
        ),
{
    if same_text(token, NO_MOVE) {
        return Verdict::NoMove { ending: ending(fen) };
    }
    match to_algebraic(fen, token) {
        Some(san) => match apply_move(fen, token) {
            Some(next) => {
                let end = ending(next.as_str());
                Verdict::Played { san, fen: next, ending: end }
            },
            None => Verdict::Illegal,
        },
        None => Verdict::Illegal,
    }
}

/// Where the orchestrator stands between the driver's calls.
#[derive(Debug, Clone, Copy, PartialEq, Eq, Structural)]
pub enum Phase {
    /// The next move can be requested.
    Ready,
    /// A move was requested of this side, and its answer is awaited.
    Waiting(Side),
    /// The match has ended.
    Done,
}

/// What the driver is to ask of an engine: set the position with
/// `position_command`, then request a move with both clocks, and wait for the
/// answer no longer than `timeout_ms`.
#[derive(Debug)]
pub struct MoveRequest {
    pub side: Side,
    pub position_command: String,
    pub wtime: u64,
    pub btime: u64,
    pub timeout_ms: u64,
}

/// A `MoveRequest` as plain values.
pub struct MoveRequestView {
    pub side: Side,
    pub position_command: Seq<char>,
    pub wtime: u64,
    pub btime: u64,
    pub timeout_ms: u64,
}

impl View for MoveRequest {
    type V = MoveRequestView;

    open spec fn view(&self) -> MoveRequestView {
        MoveRequestView {
            side: self.side,
            position_command: self.position_command@,
            wtime: self.wtime,
            btime: self.btime,
            timeout_ms: self.timeout_ms,
        }
    }
}

/// The view of a request that may be absent.
pub open spec fn request_view(request: Option<MoveRequest>) -> Option<MoveRequestView> {
    match request {
        Some(r) => Some(r@),
        None => None,
    }
}

/// The orchestrator of one match: the position, the clocks and the moves
/// played so far.
pub struct MatchRunner {
    match_id: String,
    fen: String,
    clocks: Clock,
    ply: u32,
    moves: Vec<String>,
    history: Vec<MoveSnapshot>,
    phase: Phase,
}

/// A `MatchRunner` as plain values.
pub struct MatchRunnerView {
    pub match_id: Seq<char>,
    pub fen: Seq<char>,
    pub clocks: Clock,
    pub ply: u32,
    pub moves: Seq<Seq<char>>,
    pub history: Seq<MoveSnapshotView>,
    pub phase: Phase,
}

/// The views of a sequence of move records.
pub open spec fn records(history: Seq<MoveSnapshot>) -> Seq<MoveSnapshotView> {
    history.map_values(|m: MoveSnapshot| m@)
}

impl View for MatchRunner {
    type V = MatchRunnerView;

    closed spec fn view(&self) -> MatchRunnerView {
        MatchRunnerView {
            match_id: self.match_id@,
            fen: self.fen@,
            clocks: self.clocks,
            ply: self.ply,
            moves: texts(self.moves@),
            history: records(self.history@),
            phase: self.phase,
        }
    }
}

impl MatchRunnerView {
    /// The orchestrator of a match that has just been created.
    pub open spec fn initial(match_id: Seq<char>, initial_ms: u64) -> MatchRunnerView {
        MatchRunnerView {
            match_id,
            fen: START_FEN@,
            clocks: Clock { white_ms: initial_ms, black_ms: initial_ms },
            ply: 0,
            moves: Seq::empty(),
            history: Seq::empty(),
            phase: Phase::Ready,
        }
    }

    /// The history is that of the game: one record per applied move, numbered
    /// from 1 without gap or repeat, each with its move and the move text up to
    /// it, the last one leading to the current position.
    pub open spec fn wf(self) -> bool {
        &&& self.moves.len() == self.ply
        &&& self.history.len() == self.ply
        &&& forall|i: int|
            0 <= i < self.history.len() ==> {
                &&& (#[trigger] self.history[i]).ply == i + 1
                &&& self.history[i].san == self.moves[i]
                &&& self.history[i].pgn == pgn_text(self.moves.take(i + 1))
            }
        &&& self.ply > 0 ==> self.history.last().fen == self.fen
    }

    /// The record of the move `token`, written `san` and leading to `fen`, as
    /// the next move of this game.
    pub open spec fn next_record(
        self,
        token: Seq<char>,
        san: Seq<char>,
        fen: Seq<char>,
    ) -> MoveSnapshotView {
        MoveSnapshotView {
            ply: (self.ply + 1) as u32,
            uci: token,
            san,
            fen,
            pgn: pgn_text(self.moves.push(san)),
        }
    }

    /// The orchestrator after the driver asked for the next request, `turn`
    /// being the side to move: it waits for that side if that side has time
    /// left, and is done otherwise.
    pub open spec fn requested(self, turn: Option<Side>) -> MatchRunnerView {
        if self.phase == Phase::Done {
            self
        } else if turn is Some && self.clocks.of(turn.unwrap()) > 0 {
            MatchRunnerView { phase: Phase::Waiting(turn.unwrap()), ..self }
        } else {
            MatchRunnerView { phase: Phase::Done, ..self }
        }
    }

    /// The request that the driver gets, `turn` being the side to move: none
    /// where the match has ended or ends here.
    pub open spec fn request(self, turn: Option<Side>) -> Option<MoveRequestView> {
        if self.phase != Phase::Done && turn is Some && self.clocks.of(turn.unwrap()) > 0 {
            Some(
                MoveRequestView {
                    side: turn.unwrap(),
                    position_command: POSITION_COMMAND@ + self.fen,
                    wtime: self.clocks.white_ms,
                    btime: self.clocks.black_ms,
                    timeout_ms: self.clocks.of(turn.unwrap()),
                },
            )
        } else {
            None
        }
    }

    /// The registry after the driver asked for the next request: a side to
    /// move without time left forfeits on time, and a position that the rules
    /// cannot read fails the match.
    pub open spec fn request_written(
        self,
        registry: Map<Seq<char>, MatchStateView>,
        turn: Option<Side>,
    ) -> Map<Seq<char>, MatchStateView> {
        if self.phase == Phase::Done {
            registry
        } else if turn is None {
            ended(registry, self.match_id, MatchStatus::Error, failure())
        } else if self.clocks.of(turn.unwrap()) == 0 {
            ended(
                registry,
                self.match_id,
                MatchStatus::Finished,
                forfeit(turn.unwrap(), ResultReason::Timeout),
            )
        } else {
            registry
        }
    }

    /// The orchestrator after the awaited engine answered `token` within
    /// `elapsed_ms`, the rules having judged the answer as `verdict`. The
    /// mover's clock is charged whatever the verdict. A legal move is applied
    /// and the game goes on, unless the rules declare it over; any other
    /// verdict ends the match, and so does a move that the ply counter has no
    /// number left for.
    pub open spec fn answered(
        self,
        token: Seq<char>,
        elapsed_ms: u64,
        verdict: VerdictView,
    ) -> MatchRunnerView {
        match self.phase {
            Phase::Waiting(side) => {
                let clocks = self.clocks.charged(side, elapsed_ms);
                match verdict {
                    VerdictView::Played { san, fen, ending } => if self.ply < u32::MAX {
                        MatchRunnerView {
                            fen,
                            clocks,
                            ply: (self.ply + 1) as u32,
                            moves: self.moves.push(san),
                            history: self.history.push(self.next_record(token, san, fen)),
                            phase: if ending is Some {
                                Phase::Done
                            } else {
                                Phase::Ready
                            },
                            ..self
                        }
                    } else {
                        MatchRunnerView { clocks, phase: Phase::Done, ..self }
                    },
                    _ => MatchRunnerView { clocks, phase: Phase::Done, ..self },
                }
            },
            _ => self,
        }
    }

    /// The registry after the awaited engine answered `token` within
    /// `elapsed_ms`, the rules having judged the answer as `verdict`: a legal
    /// move is published, and then the ending if the rules declare one; the
    /// no-move token ends the match as the rules see the position, or for the
    /// reason `Error` where they see no ending; an illegal answer forfeits the
    /// match; a move that the ply counter has no number left for fails it.
    pub open spec fn answer_written(
        self,
        registry: Map<Seq<char>, MatchStateView>,
        token: Seq<char>,
        elapsed_ms: u64,
        verdict: VerdictView,
    ) -> Map<Seq<char>, MatchStateView> {
        match self.phase {
            Phase::Waiting(side) => match verdict {
                VerdictView::NoMove { ending: Some(e) } => ended(
                    registry,
                    self.match_id,
                    MatchStatus::Finished,
                    settled(e),
                ),
                VerdictView::NoMove { ending: None } => ended(
                    registry,
                    self.match_id,
                    MatchStatus::Finished,
                    forfeit(side, ResultReason::Error),
                ),
                VerdictView::Illegal => ended(
                    registry,
                    self.match_id,
                    MatchStatus::Finished,
                    forfeit(side, ResultReason::Illegal),
                ),
                VerdictView::Played { san, fen, ending } => if self.ply < u32::MAX {
                    let published = moved(
                        registry,
                        self.match_id,
                        self.next_record(token, san, fen),
                        self.clocks.charged(side, elapsed_ms),
                    );
                    match ending {
                        Some(e) => ended(
                            published,
                            self.match_id,
                            MatchStatus::Finished,
                            settled(e),
                        ),
                        None => published,
                    }
                } else {
                    ended(registry, self.match_id, MatchStatus::Error, failure())
                },
            },
            _ => registry,
        }
    }

    /// The orchestrator after the awaited answer did not come: the mover's
    /// clock is charged and the match is over.
    pub open spec fn unanswered(self, elapsed_ms: u64) -> MatchRunnerView {
        match self.phase {
            Phase::Waiting(side) => MatchRunnerView {
                clocks: self.clocks.charged(side, elapsed_ms),
                phase: Phase::Done,
                ..self
            },
            _ => self,
        }
    }

    /// The registry after the awaited engine ran out of time: it forfeits.
    pub open spec fn timeout_written(
        self,
        registry: Map<Seq<char>, MatchStateView>,
    ) -> Map<Seq<char>, MatchStateView> {
        match self.phase {
            Phase::Waiting(side) => ended(
                registry,
                self.match_id,
                MatchStatus::Finished,
                forfeit(side, ResultReason::Timeout),
            ),
            _ => registry,
        }
    }

    /// The registry after the exchange with the awaited engine failed: the
    /// match has failed.
    pub open spec fn failure_written(
        self,
        registry: Map<Seq<char>, MatchStateView>,
    ) -> Map<Seq<char>, MatchStateView> {
        match self.phase {
            Phase::Waiting(_) => ended(registry, self.match_id, MatchStatus::Error, failure()),
            _ => registry,
        }
    }
}

impl MatchRunner {
    /// The orchestrator of a new match: at the start position, nothing played,
    /// both clocks at `initial_ms`.
    pub fn new(match_id: String, initial_ms: u64) -> (runner: MatchRunner)
        ensures
            runner@ == MatchRunnerView::initial(match_id@, initial_ms),
            runner@.wf(),
    {
        let runner = MatchRunner {
            match_id,
            fen: String::from_str(START_FEN),
            clocks: Clock::new(initial_ms),
            ply: 0,
            moves: Vec::new(),
            history: Vec::new(),
            phase: Phase::Ready,
        };
        proof {
            assert(runner@.moves =~= Seq::<Seq<char>>::empty());
            assert(runner@.history =~= Seq::<MoveSnapshotView>::empty());
        }
        runner
    }

    /// The identifier of the match.
    pub fn match_id(&self) -> (id: &str)
        ensures
            id@ == self@.match_id,
    {
        self.match_id.as_str()
    }

    /// The current position.
    pub fn fen(&self) -> (fen: &str)
        ensures
            fen@ == self@.fen,
    {
        self.fen.as_str()
    }

    /// The time each side has left.
    pub fn clocks(&self) -> (clocks: Clock)
        ensures
            clocks == self@.clocks,
    {
        self.clocks
    }

    /// The number of moves applied so far.
    pub fn ply(&self) -> (ply: u32)
        ensures
            ply == self@.ply,
    {
        self.ply
    }

    /// Where the orchestrator stands.
    pub fn phase(&self) -> (phase: Phase)
        ensures
            phase == self@.phase,
    {
        self.phase
    }

    /// Whether the match has ended.
    pub fn is_done(&self) -> (done: bool)
        ensures
            done == (self@.phase == Phase::Done),
    {
        match self.phase {
            Phase::Done => true,
            _ => false,
        }
    }

    /// The records of the moves applied so far, in order.
    pub fn history(&self) -> (history: &Vec<MoveSnapshot>)
        ensures
            records(history@) == self@.history,
    {
        &self.history
    }

    /// Decides the next request, `turn` being the side to move in the current
    /// position. A match that has ended asks for nothing. A side to move
    /// whose clock stands at zero forfeits on time, and nothing is asked of
    /// it; a position without a side to move fails the match. Otherwise the
    /// side to move is asked for a move within the time it has left.
    pub fn request_move(&mut self, matches: &mut MatchRegistry, turn: Option<Side>) -> (request:
        Option<MoveRequest>)
        ensures
            final(self)@ == old(self)@.requested(turn),
            request_view(request) == old(self)@.request(turn),
            final(matches)@ == old(self)@.request_written(old(matches)@, turn),
            old(self)@.wf() ==> final(self)@.wf(),
            all_consistent(old(matches)@) ==> all_consistent(final(matches)@),
    {
        match self.phase {
            Phase::Done => {
                return None;
            },
            _ => {},
        }
        let side = match turn {
            Some(side) => side,
            None => {
                fail_match(self.match_id.as_str(), matches);
                self.phase = Phase::Done;
                return None;
            },
        };
        let remaining_ms = self.clocks.remaining(side);
        if remaining_ms == 0 {
            finish_match(self.match_id.as_str(), side, ResultReason::Timeout, matches);
            self.phase = Phase::Done;
            return None;
        }
        self.phase = Phase::Waiting(side);
        Some(
            MoveRequest {
                side,
                position_command: String::from_str(POSITION_COMMAND).concat(self.fen.as_str()),
                wtime: self.clocks.white_ms,
                btime: self.clocks.black_ms,
                timeout_ms: remaining_ms,
            },
        )
    }

    /// Decides the next request as `request_move` does, for the side that the
    /// rules name as the one to move in the current position.
    pub fn begin_ply(&mut self, matches: &mut MatchRegistry) -> (request: Option<MoveRequest>)
        ensures
            final(self)@ == old(self)@.requested(turn_at(old(self)@.fen)),
            request_view(request) == old(self)@.request(turn_at(old(self)@.fen)),
            final(matches)@ == old(self)@.request_written(
                old(matches)@,
                turn_at(old(self)@.fen),
            ),
            old(self)@.wf() ==> final(self)@.wf(),
            all_consistent(old(matches)@) ==> all_consistent(final(matches)@),
    {
        let turn = side_to_move(self.fen.as_str());
        self.request_move(matches, turn)
    }

    /// Takes the awaited engine's answer `token`, which came within
    /// `elapsed_ms` and which the rules judged as `verdict`. Returns whether
    /// the match goes on. Where no answer is awaited, nothing changes.
    pub fn record_verdict(
        &mut self,
        matches: &mut MatchRegistry,
        token: String,
        elapsed_ms: u64,
        verdict: Verdict,
    ) -> (go_on: bool)
        ensures
            final(self)@ == old(self)@.answered(token@, elapsed_ms, verdict@),
            final(matches)@ == old(self)@.answer_written(
                old(matches)@,
                token@,
                elapsed_ms,
                verdict@,
            ),
            go_on == (final(self)@.phase != Phase::Done),
            old(self)@.wf() ==> final(self)@.wf(),
            all_consistent(old(matches)@) ==> all_consistent(final(matches)@),
    {
        let side = match self.phase {
            Phase::Waiting(side) => side,
            Phase::Ready => {
                return true;
            },
            Phase::Done => {
                return false;
            },
        };
        self.clocks.charge(side, elapsed_ms);
        match verdict {
            Verdict::NoMove { ending: Some(e) } => {
                finish_with_outcome(self.match_id.as_str(), e, matches);
                self.phase = Phase::Done;
                false
            },
            Verdict::NoMove { ending: None } => {
                finish_match(self.match_id.as_str(), side, ResultReason::Error, matches);
                self.phase = Phase::Done;
                false
            },
            Verdict::Illegal => {
                finish_match(self.match_id.as_str(), side, ResultReason::Illegal, matches);
                self.phase = Phase::Done;
                false
            },
            Verdict::Played { san, fen, ending } => {
                if self.ply == u32::MAX {
                    fail_match(self.match_id.as_str(), matches);
                    self.phase = Phase::Done;
                    return false;
                }
                self.ply = self.ply + 1;
                self.moves.push(san.clone());
                let pgn = format_pgn(self.moves.as_slice());
                proof {
                    assert(texts(self.moves@) =~= old(self)@.moves.push(san@));
                }
                self.history.push(
                    MoveSnapshot {
                        ply: self.ply,
                        uci: token.clone(),
                        san: san.clone(),
                        fen: fen.clone(),
                        pgn: pgn.clone(),
                    },
                );
                update_match_state(
                    matches,
                    self.match_id.as_str(),
                    self.ply,
                    fen.as_str(),
                    pgn.as_str(),
                    self.clocks.white_ms,
                    self.clocks.black_ms,
                    token,
                    san,
                );
                self.fen = fen;
                let go_on = match ending {
                    Some(e) => {
                        finish_with_outcome(self.match_id.as_str(), e, matches);
                        self.phase = Phase::Done;
                        false
                    },
                    None => {
                        self.phase = Phase::Ready;
                        true
                    },
                };
                proof {
                    let before = old(self)@;
                    let after = self@;
                    let record = before.next_record(token@, san@, fen@);
                    assert(after.history =~= before.history.push(record));
                    assert(after.moves =~= before.moves.push(san@));
                    if before.wf() {
                        assert forall|i: int| 0 <= i < after.history.len() implies {
                            &&& (#[trigger] after.history[i]).ply == i + 1
                            &&& after.history[i].san == after.moves[i]
                            &&& after.history[i].pgn == pgn_text(after.moves.take(i + 1))
                        } by {
                            if i < before.history.len() {
                                assert(after.moves.take(i + 1) =~= before.moves.take(i + 1));
                            } else {
                                assert(after.moves.take(i + 1) =~= after.moves);
                            }
                        }
                    }
                }
                go_on
            },
        }
    }

    /// Takes the news that the awaited engine did not answer in time, after
    /// `elapsed_ms`: it forfeits on time, and no move is applied. Where no
    /// answer is awaited, nothing changes.
    pub fn record_timeout(&mut self, matches: &mut MatchRegistry, elapsed_ms: u64)
        ensures
            final(self)@ == old(self)@.unanswered(elapsed_ms),
            final(matches)@ == old(self)@.timeout_written(old(matches)@),
            old(self)@.wf() ==> final(self)@.wf(),
            all_consistent(old(matches)@) ==> all_consistent(final(matches)@),
    {
        match self.phase {
            Phase::Waiting(side) => {
                self.clocks.charge(side, elapsed_ms);
                finish_match(self.match_id.as_str(), side, ResultReason::Timeout, matches);
                self.phase = Phase::Done;
            },
            _ => {},
        }
    }

    /// Takes the news that the exchange with the awaited engine failed, after
    /// `elapsed_ms`: the match has failed. Where no answer is awaited, nothing
    /// changes.
    pub fn record_failure(&mut self, matches: &mut MatchRegistry, elapsed_ms: u64)
        ensures
            final(self)@ == old(self)@.unanswered(elapsed_ms),
            final(matches)@ == old(self)@.failure_written(old(matches)@),
            old(self)@.wf() ==> final(self)@.wf(),
            all_consistent(old(matches)@) ==> all_consistent(final(matches)@),
    {
        match self.phase {
            Phase::Waiting(side) => {
                self.clocks.charge(side, elapsed_ms);
                fail_match(self.match_id.as_str(), matches);
                self.phase = Phase::Done;
            },
            _ => {},
        }
    }

    /// Takes what the request for a move brought after `elapsed_ms`: an
    /// answer, which the rules judge in the current position; a timeout, which
    /// forfeits the match; or another error, which fails the match and is
    /// handed back. Returns whether the match goes on.
    pub fn end_ply(
        &mut self,
        matches: &mut MatchRegistry,
        reply: Result<String, UciError>,
        elapsed_ms: u64,
    ) -> (outcome: Result<bool, UciError>)
        ensures
            reply matches Ok(token) ==> {
                &&& final(self)@ == old(self)@.answered(
                    token@,
                    elapsed_ms,
                    verdict_at(old(self)@.fen, token@),
                )
                &&& final(matches)@ == old(self)@.answer_written(
                    old(matches)@,
                    token@,
                    elapsed_ms,
                    verdict_at(old(self)@.fen, token@),
                )
                &&& outcome == Ok::<bool, UciError>(final(self)@.phase != Phase::Done)
            },
            reply matches Ok(token) ==> (verdict_at(old(self)@.fen, token@) matches VerdictView::Played {
                fen: next,
                ending: Some(e),
                ..
            } ==> mate_is_loss(next, e)),
            reply matches Ok(token) ==> (verdict_at(old(self)@.fen, token@) matches VerdictView::NoMove {
                ending: Some(e),
            } ==> mate_is_loss(old(self)@.fen, e)),
            reply matches Err(UciError::Timeout(_)) ==> {
                &&& final(self)@ == old(self)@.unanswered(elapsed_ms)
                &&& final(matches)@ == old(self)@.timeout_written(old(matches)@)
                &&& outcome == Ok::<bool, UciError>(false)
            },
            reply matches Err(e) ==> (!(e is Timeout) ==> {
                &&& final(self)@ == old(self)@.unanswered(elapsed_ms)
                &&& final(matches)@ == old(self)@.failure_written(old(matches)@)
                &&& outcome == Err::<bool, UciError>(e)
            }),
            old(self)@.wf() ==> final(self)@.wf(),
            all_consistent(old(matches)@) ==> all_consistent(final(matches)@),
    {
        match reply {
            Ok(token) => {
                let verdict = judge(self.fen.as_str(), token.as_str());
                Ok(self.record_verdict(matches, token, elapsed_ms, verdict))
            },
            Err(UciError::Timeout(_)) => {
                self.record_timeout(matches, elapsed_ms);
                Ok(false)
            },
            Err(e) => {
                self.record_failure(matches, elapsed_ms);
                Err(e)
            },
        }
    }

    /// Gives the match up after a failure outside the exchange of moves: the
    /// match has failed, unless a result was written before, which stands.
    pub fn abort(&mut self, matches: &mut MatchRegistry)
        ensures
            final(self)@ == (MatchRunnerView { phase: Phase::Done, ..old(self)@ }),
            final(matches)@ == ended(
                old(matches)@,
                old(self)@.match_id,
                MatchStatus::Error,
                failure(),
            ),
            old(self)@.wf() ==> final(self)@.wf(),
            all_consistent(old(matches)@) ==> all_consistent(final(matches)@),
    {
        fail_match(self.match_id.as_str(), matches);
        self.phase = Phase::Done;
    }
}

} // verus!
