//! What holds of every match, whatever the driver reports and in whatever
//! order: stated over the orchestrator's transitions and proved.

use crate::domain::MatchResultView;
use crate::domain::MatchStateView;
use crate::domain::MatchStatus;
use crate::domain::ResultReason;
use crate::domain::Side;
use crate::match_runner::ended;
use crate::match_runner::failure;
use crate::match_runner::MatchRunnerView;
use crate::match_runner::NO_MOVE;
use crate::match_runner::pgn_text;
use crate::match_runner::Phase;
use crate::match_runner::settled;
use crate::match_runner::verdict_at;
use crate::match_runner::VerdictView;
use crate::registry::all_consistent;
use crate::rules::Ending;
use crate::rules::fen_after;
use crate::rules::Outcome;
use crate::rules::san_at;
use vstd::prelude::*;

verus! {

/// What the driver can report to the orchestrator.
pub enum Event {
    /// It asks for the next request; `turn` is the side to move.
    Begin { turn: Option<Side> },
    /// The awaited engine answered `token` within `elapsed_ms`, and the rules
    /// judged the answer as `verdict`.
    Answer { token: Seq<char>, elapsed_ms: u64, verdict: VerdictView },
    /// The awaited engine did not answer in time.
    Timeout { elapsed_ms: u64 },
    /// The exchange with the awaited engine failed.
    Failure { elapsed_ms: u64 },
    /// The match is given up.
    Abort,
}

impl MatchRunnerView {
    /// The orchestrator after `event`.
    pub open spec fn after(self, event: Event) -> MatchRunnerView {
        match event {
            Event::Begin { turn } => self.requested(turn),
            Event::Answer { token, elapsed_ms, verdict } => self.answered(
                token,
                elapsed_ms,
                verdict,
            ),
            Event::Timeout { elapsed_ms } => self.unanswered(elapsed_ms),
            Event::Failure { elapsed_ms } => self.unanswered(elapsed_ms),
            Event::Abort => MatchRunnerView { phase: Phase::Done, ..self },
        }
    }

    /// The registry after `event`.
    pub open spec fn written_after(
        self,
        registry: Map<Seq<char>, MatchStateView>,
        event: Event,
    ) -> Map<Seq<char>, MatchStateView> {
        match event {
            Event::Begin { turn } => self.request_written(registry, turn),
            Event::Answer { token, elapsed_ms, verdict } => self.answer_written(
                registry,
                token,
                elapsed_ms,
                verdict,
            ),
            Event::Timeout { elapsed_ms } => self.timeout_written(registry),
            Event::Failure { elapsed_ms } => self.failure_written(registry),
            Event::Abort => ended(registry, self.match_id, MatchStatus::Error, failure()),
        }
    }

    /// Whether `event` applies a move.
    pub open spec fn applies(self, event: Event) -> bool {
        &&& self.phase is Waiting
        &&& self.ply < u32::MAX
        &&& event matches Event::Answer { verdict, .. }
        &&& verdict is Played
    }

    /// The orchestrator after all of `events`, in order.
    pub open spec fn after_all(self, events: Seq<Event>) -> MatchRunnerView
        decreases events.len(),
    {
        if events.len() == 0 {
            self
        } else {
            self.after_all(events.drop_last()).after(events.last())
        }
    }

    /// The registry after all of `events`, in order.
    pub open spec fn written_after_all(
        self,
        registry: Map<Seq<char>, MatchStateView>,
        events: Seq<Event>,
    ) -> Map<Seq<char>, MatchStateView>
        decreases events.len(),
    {
        if events.len() == 0 {
            registry
        } else {
            self.after_all(events.drop_last()).written_after(
                self.written_after_all(registry, events.drop_last()),
                events.last(),
            )
        }
    }

    /// How many of `events` apply a move.
    pub open spec fn applied_moves(self, events: Seq<Event>) -> nat
        decreases events.len(),
    {
        if events.len() == 0 {
            0
        } else {
            let earlier = self.applied_moves(events.drop_last());
            if self.after_all(events.drop_last()).applies(events.last()) {
                earlier + 1
            } else {
                earlier
            }
        }
    }
}

/// Whatever the driver reports, the history stays that of the game: an event
/// that applies a move appends one record, numbered one more than the last,
/// and any other event leaves history, ply and position as they were.
pub proof fn lemma_event_keeps_history(before: MatchRunnerView, event: Event)
    requires
        before.wf(),
    ensures
        before.after(event).wf(),
        before.after(event).match_id == before.match_id,
        before.applies(event) ==> {
            &&& before.after(event).ply == before.ply + 1
            &&& before.after(event).history.len() == before.history.len() + 1
            &&& before.after(event).history.last().ply == before.ply + 1
            &&& before.after(event).history.drop_last() == before.history
        },
        !before.applies(event) ==> {
            &&& before.after(event).ply == before.ply
            &&& before.after(event).history == before.history
            &&& before.after(event).moves == before.moves
            &&& before.after(event).fen == before.fen
        },
{
    let after = before.after(event);
    if before.applies(event) {
        assert(after.history.drop_last() =~= before.history);
        assert forall|i: int| 0 <= i < after.history.len() implies {
            &&& (#[trigger] after.history[i]).ply == i + 1
            &&& after.history[i].san == after.moves[i]
            &&& after.history[i].pgn == pgn_text(after.moves.take(i + 1))
        } by {
            if i < before.history.len() {
                assert(after.moves.take(i + 1) =~= before.moves.take(i + 1));
            } else {
                assert(after.moves.take(i + 1) =~= after.moves);
            }
        }
    }
}

/// In every match, whatever the driver reports and in whatever order, the
/// records of the history are numbered 1, 2, ..., N without gap or repeat,
/// and N is the number of moves that were applied.
pub proof fn lemma_history_is_numbered(match_id: Seq<char>, initial_ms: u64, events: Seq<Event>)
    ensures
        ({
            let start = MatchRunnerView::initial(match_id, initial_ms);
            let now = start.after_all(events);
            &&& now.wf()
            &&& now.history.len() == start.applied_moves(events)
            &&& now.ply == start.applied_moves(events)
            &&& forall|i: int| 0 <= i < now.history.len() ==> (#[trigger] now.history[i]).ply == i + 1
            &&& forall|i: int, j: int|
                0 <= i < j < now.history.len() ==> (#[trigger] now.history[i]).ply < (
                #[trigger] now.history[j]).ply
        }),
    decreases events.len(),
{
    let start = MatchRunnerView::initial(match_id, initial_ms);
    if events.len() > 0 {
        lemma_history_is_numbered(match_id, initial_ms, events.drop_last());
        lemma_event_keeps_history(start.after_all(events.drop_last()), events.last());
    }
}

/// Once the entry of a match holds a result, nothing that its orchestrator
/// does changes the registry: every later write is a no-op, so a match gets one
/// terminal result at most.
pub proof fn lemma_result_is_written_once(
    runner: MatchRunnerView,
    registry: Map<Seq<char>, MatchStateView>,
    event: Event,
)
    requires
        registry.contains_key(runner.match_id),
        registry[runner.match_id].is_terminal(),
    ensures
        runner.written_after(registry, event) == registry,
{
}

/// The orchestrator of a match stays with that match.
pub proof fn lemma_run_keeps_match(start: MatchRunnerView, events: Seq<Event>)
    ensures
        start.after_all(events).match_id == start.match_id,
    decreases events.len(),
{
    if events.len() > 0 {
        lemma_run_keeps_match(start, events.drop_last());
    }
}

/// In every match, a result that stands in the registry after some events
/// stands there unchanged after any further events: the first terminal result
/// is the only one.
pub proof fn lemma_first_result_stands(
    start: MatchRunnerView,
    registry: Map<Seq<char>, MatchStateView>,
    events: Seq<Event>,
    later: Seq<Event>,
)
    requires
        start.written_after_all(registry, events).contains_key(start.match_id),
        start.written_after_all(registry, events)[start.match_id].is_terminal(),
    ensures
        start.written_after_all(registry, events + later) == start.written_after_all(
            registry,
            events,
        ),
    decreases later.len(),
{
    let all = events + later;
    if later.len() == 0 {
        assert(all =~= events);
    } else {
        assert(all.drop_last() =~= events + later.drop_last());
        lemma_first_result_stands(start, registry, events, later.drop_last());
        lemma_run_keeps_match(start, all.drop_last());
        lemma_result_is_written_once(
            start.after_all(all.drop_last()),
            start.written_after_all(registry, events),
            all.last(),
        );
    }
}

/// An orchestrator that is done writes nothing, and stays done.
pub proof fn lemma_done_is_final(
    runner: MatchRunnerView,
    registry: Map<Seq<char>, MatchStateView>,
    event: Event,
)
    requires
        runner.phase == Phase::Done,
        !(event is Abort),
    ensures
        runner.after(event) == runner,
        runner.written_after(registry, event) == registry,
{
}

/// The time that `event` reports as elapsed, if it reports any.
pub open spec fn elapsed(event: Event) -> Option<u64> {
    match event {
        Event::Answer { elapsed_ms, .. } => Some(elapsed_ms),
        Event::Timeout { elapsed_ms } => Some(elapsed_ms),
        Event::Failure { elapsed_ms } => Some(elapsed_ms),
        _ => None,
    }
}

/// Whatever the driver reports, a clock never rises and never falls below
/// zero, the clock of a side that was not asked for a move stays as it is, and
/// the side that was asked pays what elapsed, down to zero at the least.
pub proof fn lemma_clock_is_charged_to_mover(before: MatchRunnerView, event: Event, side: Side)
    ensures
        0 <= before.after(event).clocks.of(side) <= before.clocks.of(side),
        before.phase != Phase::Waiting(side) ==> before.after(event).clocks.of(side)
            == before.clocks.of(side),
        before.phase == Phase::Waiting(side) && elapsed(event) is Some ==> before.after(
            event,
        ).clocks == before.clocks.charged(side, elapsed(event).unwrap()),
        before.phase == Phase::Waiting(side) && elapsed(event) is None ==> before.after(
            event,
        ).clocks == before.clocks,
{
}

/// A side whose clock stands at zero when its move is due forfeits on time:
/// nothing is asked of it, the match is finished and its opponent is credited
/// the win.
pub proof fn lemma_flag_fall_forfeits(
    runner: MatchRunnerView,
    registry: Map<Seq<char>, MatchStateView>,
    side: Side,
)
    requires
        runner.phase != Phase::Done,
        runner.clocks.of(side) == 0,
        registry.contains_key(runner.match_id),
        !registry[runner.match_id].is_terminal(),
    ensures
        runner.request(Some(side)) is None,
        runner.requested(Some(side)).phase == Phase::Done,
        ({
            let entry = runner.request_written(registry, Some(side))[runner.match_id];
            &&& entry.status == MatchStatus::Finished
            &&& entry.result == Some(
                MatchResultView { result: side.loss_token(), reason: ResultReason::Timeout },
            )
        }),
{
}

/// A request for a move that runs out of time ends the match for the reason
/// `Timeout`, the mover's opponent credited, and applies no move.
pub proof fn lemma_timeout_forfeits(
    runner: MatchRunnerView,
    registry: Map<Seq<char>, MatchStateView>,
    side: Side,
    elapsed_ms: u64,
)
    requires
        runner.phase == Phase::Waiting(side),
        registry.contains_key(runner.match_id),
        !registry[runner.match_id].is_terminal(),
    ensures
        runner.unanswered(elapsed_ms).phase == Phase::Done,
        runner.unanswered(elapsed_ms).ply == runner.ply,
        runner.unanswered(elapsed_ms).history == runner.history,
        runner.unanswered(elapsed_ms).fen == runner.fen,
        ({
            let before = registry[runner.match_id];
            let entry = runner.timeout_written(registry)[runner.match_id];
            &&& entry == before.with_result(
                MatchStatus::Finished,
                MatchResultView { result: side.loss_token(), reason: ResultReason::Timeout },
            )
            &&& entry.ply == before.ply
            &&& entry.last_move == before.last_move
        }),
{
}

/// An answer that is no legal move ends the match for the reason `Illegal`,
/// the mover's opponent credited, and applies no move. Every answer but the
/// no-move token that the rules do not resolve, or reject, is such an answer.
pub proof fn lemma_illegal_answer_forfeits(
    runner: MatchRunnerView,
    registry: Map<Seq<char>, MatchStateView>,
    side: Side,
    token: Seq<char>,
    elapsed_ms: u64,
)
    requires
        runner.phase == Phase::Waiting(side),
        registry.contains_key(runner.match_id),
        !registry[runner.match_id].is_terminal(),
        token != NO_MOVE@,
        san_at(runner.fen, token) is None || fen_after(runner.fen, token) is None,
    ensures
        verdict_at(runner.fen, token) == VerdictView::Illegal,
        ({
            let verdict = verdict_at(runner.fen, token);
            let after = runner.answered(token, elapsed_ms, verdict);
            let entry = runner.answer_written(registry, token, elapsed_ms, verdict)[runner.match_id];
            &&& after.phase == Phase::Done
            &&& after.ply == runner.ply
            &&& after.history == runner.history
            &&& entry == registry[runner.match_id].with_result(
                MatchStatus::Finished,
                MatchResultView { result: side.loss_token(), reason: ResultReason::Illegal },
            )
        }),
{
}

/// A game that the rules declare over by checkmate, the side `mated` losing,
/// gets the reason `Checkmate` and the score of a game that `mated` lost.
pub proof fn lemma_checkmate_result(ending: Ending, mated: Side)
    requires
        ending.checkmate,
        ending.outcome == (Outcome::Decisive { winner: mated.other() }),
    ensures
        settled(ending) == (MatchResultView {
            result: mated.loss_token(),
            reason: ResultReason::Checkmate,
        }),
{
}

/// A legal move after which the rules declare the game over is published, and
/// then the match is finished with the result that stands for the ending.
pub proof fn lemma_last_move_settles(
    runner: MatchRunnerView,
    registry: Map<Seq<char>, MatchStateView>,
    side: Side,
    token: Seq<char>,
    elapsed_ms: u64,
    san: Seq<char>,
    fen: Seq<char>,
    ending: Ending,
)
    requires
        runner.phase == Phase::Waiting(side),
        runner.ply < u32::MAX,
        registry.contains_key(runner.match_id),
        !registry[runner.match_id].is_terminal(),
    ensures
        ({
            let verdict = VerdictView::Played { san, fen, ending: Some(ending) };
            let record = runner.next_record(token, san, fen);
            let clocks = runner.clocks.charged(side, elapsed_ms);
            let entry = runner.answer_written(registry, token, elapsed_ms, verdict)[runner.match_id];
            &&& runner.answered(token, elapsed_ms, verdict).phase == Phase::Done
            &&& entry == registry[runner.match_id].with_move(record, clocks).with_result(
                MatchStatus::Finished,
                settled(ending),
            )
        }),
{
}

/// Whether the registry entry `entry` shows the game as the orchestrator
/// `runner` has it: the same ply, position and move text, the record of the
/// last move of the history, the same clocks while the match runs, and a
/// result exactly when the orchestrator is done.
pub open spec fn shows(entry: MatchStateView, runner: MatchRunnerView) -> bool {
    &&& entry.ply == runner.ply
    &&& entry.current_fen == runner.fen
    &&& entry.pgn == pgn_text(runner.moves)
    &&& entry.last_move == if runner.ply == 0 {
        None
    } else {
        Some(runner.history.last())
    }
    &&& entry.is_terminal() <==> runner.phase == Phase::Done
    &&& !entry.is_terminal() ==> entry.clocks == runner.clocks
}

/// A match starts with its entry showing the game of its orchestrator.
pub proof fn lemma_new_entry_shows_new_game(match_id: Seq<char>, initial_ms: u64)
    ensures
        shows(
            MatchStateView::initial(match_id, initial_ms),
            MatchRunnerView::initial(match_id, initial_ms),
        ),
{
}

/// Whatever the driver reports, the entry of a match goes on showing the game
/// of its orchestrator: a reader of the registry sees the ply count, the
/// position, the move text and the last move of one and the same moment, and
/// the ply count is the length of the history.
pub proof fn lemma_entry_follows_orchestrator(
    runner: MatchRunnerView,
    registry: Map<Seq<char>, MatchStateView>,
    event: Event,
)
    requires
        runner.wf(),
        registry.contains_key(runner.match_id),
        shows(registry[runner.match_id], runner),
    ensures
        runner.written_after(registry, event).contains_key(runner.match_id),
        shows(runner.written_after(registry, event)[runner.match_id], runner.after(event)),
        runner.written_after(registry, event)[runner.match_id].ply == runner.after(
            event,
        ).history.len(),
{
    lemma_event_keeps_history(runner, event);
}

/// Whatever the driver reports, the states in the registry stay consistent.
pub proof fn lemma_event_keeps_registry_consistent(
    runner: MatchRunnerView,
    registry: Map<Seq<char>, MatchStateView>,
    event: Event,
)
    requires
        all_consistent(registry),
    ensures
        all_consistent(runner.written_after(registry, event)),
{
}

} // verus!
