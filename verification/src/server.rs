//! What the server decides when clients ask: which engines there are, whether
//! a match can be created, what a match's state is, and what the feed of a
//! match reports at each tick.

use crate::api::ClockEvent;
use crate::api::EngineInfo;
use crate::api::EngineInfoView;
use crate::api::EnginesResponse;
use crate::api::info_views;
use crate::api::MatchCreateRequest;
use crate::api::MatchCreateResponse;
use crate::api::MatchStartedEvent;
use crate::api::MatchStatusResponse;
use crate::api::MoveEvent;
use crate::api::ResultEvent;
use crate::domain::Clock;
use crate::domain::MatchResultView;
use crate::domain::MatchState;
use crate::domain::MatchStateView;
use crate::domain::MatchStatus;
use crate::domain::MoveSnapshotView;
use crate::domain::START_FEN;
use crate::engine::engine_views;
use crate::engine::EngineSpec;
use crate::engine::EngineSpecView;
use crate::registry::all_consistent;
use crate::registry::MatchRegistry;
use vstd::hash_map::StringHashMap;
use vstd::prelude::*;
use vstd::string::StringExecFns;

verus! {

/// The engines by identifier; where two have the same identifier, the later
/// one stands.
pub open spec fn by_id(engines: Seq<EngineSpecView>) -> Map<Seq<char>, EngineSpecView>
    decreases engines.len(),
{
    if engines.len() == 0 {
        Map::empty()
    } else {
        by_id(engines.drop_last()).insert(engines.last().id, engines.last())
    }
}

/// The engines that the server knows, in the order of their discovery and by
/// identifier.
pub struct EngineRoster {
    infos: Vec<EngineInfo>,
    specs: StringHashMap<EngineSpec>,
}

impl EngineRoster {
    /// How the engines identify themselves, in the order of their discovery.
    pub closed spec fn infos(&self) -> Seq<EngineInfoView> {
        info_views(self.infos@)
    }

    /// The engines by identifier.
    pub closed spec fn specs(&self) -> Map<Seq<char>, EngineSpecView> {
        self.specs@.map_values(|engine: EngineSpec| engine@)
    }

    /// The roster of `engines`.
    pub fn new(engines: Vec<EngineSpec>) -> (roster: EngineRoster)
        ensures
            roster.infos() == engine_views(engines@).map_values(|e: EngineSpecView| e.info()),
            roster.specs() == by_id(engine_views(engines@)),
    {
        let mut infos: Vec<EngineInfo> = Vec::new();
        let mut specs: StringHashMap<EngineSpec> = StringHashMap::new();
        let ghost all = engine_views(engines@);
        let n: usize = engines.len();
        let mut i: usize = 0;
        while i < n
            invariant
                n == engines@.len(),
                i <= n,
                all == engine_views(engines@),
                info_views(infos@) == all.take(i as int).map_values(|e: EngineSpecView| e.info()),
                specs@.map_values(|engine: EngineSpec| engine@) == by_id(all.take(i as int)),
            decreases n - i,
        {
            let engine: &EngineSpec = &engines[i];
            let ghost infos_before = infos@;
            let ghost specs_before = specs@;
            let info = EngineInfo::of(engine);
            let copy = engine.clone();
            infos.push(info);
            specs.insert(engine.id.clone(), copy);
            proof {
                let upto = all.take(i + 1);
                assert(upto.drop_last() =~= all.take(i as int));
                assert(upto.last() == engine@);
                assert(info_views(infos@) =~= info_views(infos_before).push(info@));
                assert(info_views(infos@) =~= upto.map_values(|e: EngineSpecView| e.info()));
                assert(specs@.map_values(|engine: EngineSpec| engine@) =~= specs_before.map_values(
                    |engine: EngineSpec| engine@,
                ).insert(engine@.id, copy@));
            }
            i += 1;
        }
        proof {
            assert(all.take(n as int) =~= all);
        }
        EngineRoster { infos, specs }
    }

    /// The engines that matches can be played with.
    pub fn get_engines(&self) -> (response: EnginesResponse)
        ensures
            response@ == self.infos(),
    {
        let mut engines: Vec<EngineInfo> = Vec::new();
        let n: usize = self.infos.len();
        let mut i: usize = 0;
        while i < n
            invariant
                n == self.infos@.len(),
                i <= n,
                info_views(engines@) == info_views(self.infos@).take(i as int),
            decreases n - i,
        {
            let ghost before = engines@;
            let info = self.infos[i].clone();
            engines.push(info);
            proof {
                assert(info_views(engines@) =~= info_views(before).push(info@));
                assert(info_views(self.infos@).take(i + 1) =~= info_views(self.infos@).take(
                    i as int,
                ).push(self.infos@[i as int]@));
            }
            i += 1;
        }
        proof {
            assert(info_views(self.infos@).take(n as int) =~= info_views(self.infos@));
        }
        EnginesResponse { engines }
    }

    /// The engine with the identifier `id`, if the roster holds one.
    pub fn find(&self, id: &str) -> (found: Option<&EngineSpec>)
        ensures
            found is Some <==> self.specs().contains_key(id@),
            found is Some ==> found.unwrap()@ == self.specs()[id@],
    {
        self.specs.get(id)
    }
}

/// Why a request for a match is refused.
#[derive(Debug, Clone, Copy, PartialEq, Eq, Structural)]
pub enum CreateMatchError {
    /// The time budget is zero.
    ZeroInitialMs,
    /// An engine identifier names no engine.
    UnknownEngine,
    /// Both sides name the same engine.
    SameEngine,
}

impl CreateMatchError {
    /// A line of text that says why the request is refused.
    pub fn message(self) -> (text: &'static str)
        ensures
            text@ == (match self {
                CreateMatchError::ZeroInitialMs => "initial_ms must be greater than zero"@,
                CreateMatchError::UnknownEngine => "unknown engine id"@,
                CreateMatchError::SameEngine => "white and black engines must differ"@,
            }),
    {
        match self {
            CreateMatchError::ZeroInitialMs => "initial_ms must be greater than zero",
            CreateMatchError::UnknownEngine => "unknown engine id",
            CreateMatchError::SameEngine => "white and black engines must differ",
        }
    }
}

/// A match that was created: its identifier, the engine of each side and the
/// time budget, for the orchestrator to start from.
#[derive(Debug)]
pub struct MatchStart {
    pub response: MatchCreateResponse,
    pub white: EngineSpec,
    pub black: EngineSpec,
    pub initial_ms: u64,
}

/// Why a request with these engine identifiers and this budget is refused, if
/// it is: a zero budget first, then an identifier that names no engine, then
/// the same engine on both sides.
pub open spec fn refusal(
    specs: Map<Seq<char>, EngineSpecView>,
    white_id: Seq<char>,
    black_id: Seq<char>,
    initial_ms: u64,
) -> Option<CreateMatchError> {
    if initial_ms == 0 {
        Some(CreateMatchError::ZeroInitialMs)
    } else if !specs.contains_key(white_id) || !specs.contains_key(black_id) {
        Some(CreateMatchError::UnknownEngine)
    } else if white_id == black_id {
        Some(CreateMatchError::SameEngine)
    } else {
        None
    }
}

/// Creates the match `match_id` as `payload` asks, unless the request is to
/// be refused. A created match is entered into the registry as running, at the
/// start position, with both clocks at the requested budget; a refused request
/// leaves the registry as it is.
pub fn create_match(
    roster: &EngineRoster,
    matches: &mut MatchRegistry,
    payload: &MatchCreateRequest,
    match_id: String,
) -> (created: Result<MatchStart, CreateMatchError>)
    ensures
        match refusal(
            roster.specs(),
            payload.white_engine_id@,
            payload.black_engine_id@,
            payload.time_control.initial_ms,
        ) {
            Some(e) => created == Err::<MatchStart, CreateMatchError>(e) && final(matches)@ == old(
                matches,
            )@,
            None => {
                &&& created matches Ok(start)
                &&& start.response.match_id@ == match_id@
                &&& start.white@ == roster.specs()[payload.white_engine_id@]
                &&& start.black@ == roster.specs()[payload.black_engine_id@]
                &&& start.initial_ms == payload.time_control.initial_ms
                &&& final(matches)@ == old(matches)@.insert(
                    match_id@,
                    MatchStateView::initial(match_id@, payload.time_control.initial_ms),
                )
            },
        },
        all_consistent(old(matches)@) ==> all_consistent(final(matches)@),
{
    let initial_ms = payload.time_control.initial_ms;
    if initial_ms == 0 {
        return Err(CreateMatchError::ZeroInitialMs);
    }
    let white = match roster.find(payload.white_engine_id.as_str()) {
        Some(engine) => engine.clone(),
        None => {
            return Err(CreateMatchError::UnknownEngine);
        },
    };
    let black = match roster.find(payload.black_engine_id.as_str()) {
        Some(engine) => engine.clone(),
        None => {
            return Err(CreateMatchError::UnknownEngine);
        },
    };
    if payload.white_engine_id == payload.black_engine_id {
        return Err(CreateMatchError::SameEngine);
    }
    let state = MatchState::new(match_id.clone(), initial_ms);
    matches.insert(match_id.clone(), state);
    Ok(MatchStart { response: MatchCreateResponse { match_id }, white, black, initial_ms })
}

/// The state of the match `match_id` as clients get it, if there is such a
/// match.
pub fn get_match(matches: &MatchRegistry, match_id: &str) -> (response: Option<
    MatchStatusResponse,
>)
    ensures
        response is Some <==> matches@.contains_key(match_id@),
        response is Some ==> response.unwrap()@ == matches@[match_id@].status_response(),
{
    match matches.get(match_id) {
        Some(state) => Some(MatchStatusResponse::of(state)),
        None => None,
    }
}

/// A notice in the feed of a match.
#[derive(Debug)]
pub enum StreamEvent {
    MatchStarted(MatchStartedEvent),
    Clock(ClockEvent),
    Move(MoveEvent),
    Result(ResultEvent),
}

/// A `StreamEvent` as plain values.
pub enum StreamEventView {
    MatchStarted { match_id: Seq<char>, start_fen: Seq<char> },
    Clock(Clock),
    Move(MoveSnapshotView),
    Result(MatchResultView),
}

impl View for StreamEvent {
    type V = StreamEventView;

    open spec fn view(&self) -> StreamEventView {
        match self {
            StreamEvent::MatchStarted(e) => StreamEventView::MatchStarted {
                match_id: e.match_id@,
                start_fen: e.start_fen@,
            },
            StreamEvent::Clock(e) => StreamEventView::Clock(
                Clock { white_ms: e.white_ms, black_ms: e.black_ms },
            ),
            StreamEvent::Move(e) => StreamEventView::Move(e@),
            StreamEvent::Result(e) => StreamEventView::Result(e@),
        }
    }
}

impl StreamEvent {
    /// The name under which the feed carries this notice.
    pub fn name(&self) -> (name: &'static str)
        ensures
            name@ == (match self@ {
                StreamEventView::MatchStarted { .. } => "match_started"@,
                StreamEventView::Clock(_) => "clock"@,
                StreamEventView::Move(_) => "move"@,
                StreamEventView::Result(_) => "result"@,
            }),
    {
        match self {
            StreamEvent::MatchStarted(_) => "match_started",
            StreamEvent::Clock(_) => "clock",
            StreamEvent::Move(_) => "move",
            StreamEvent::Result(_) => "result",
        }
    }
}

/// The views of a sequence of notices.
pub open spec fn event_views(events: Seq<StreamEvent>) -> Seq<StreamEventView> {
    events.map_values(|e: StreamEvent| e@)
}

/// What one tick of a feed brings: the notices to emit, in order; the ply of
/// the last move that the feed has reported; and whether the feed ends.
#[derive(Debug)]
pub struct StreamStep {
    pub events: Vec<StreamEvent>,
    pub last_emitted_ply: u32,
    pub done: bool,
}

/// Whether a tick reports the last move of `state`: it does where the move is
/// later than the last one reported.
pub open spec fn reports_move(state: MatchStateView, last_emitted_ply: u32) -> bool {
    state.last_move is Some && state.last_move.unwrap().ply > last_emitted_ply
}

/// The notices of a tick on `state`: the clocks; the last move, if it was not
/// reported yet; and the result, if the match has ended and has one.
pub open spec fn tick_events(state: MatchStateView, last_emitted_ply: u32) -> Seq<StreamEventView> {
    let clock = seq![StreamEventView::Clock(state.clocks)];
    let moves = if reports_move(state, last_emitted_ply) {
        seq![StreamEventView::Move(state.last_move.unwrap())]
    } else {
        Seq::empty()
    };
    let result = if state.status != MatchStatus::Running && state.result is Some {
        seq![StreamEventView::Result(state.result.unwrap())]
    } else {
        Seq::empty()
    };
    clock + moves + result
}

/// The notice that opens the feed of the match `match_id`, if there is such a
/// match.
pub fn stream_match(matches: &MatchRegistry, match_id: &str) -> (opening: Option<StreamEvent>)
    ensures
        opening is Some <==> matches@.contains_key(match_id@),
        opening is Some ==> opening.unwrap()@ == (StreamEventView::MatchStarted {
            match_id: match_id@,
            start_fen: START_FEN@,
        }),
{
    if !matches.contains(match_id) {
        return None;
    }
    Some(
        StreamEvent::MatchStarted(
            MatchStartedEvent {
                match_id: String::from_str(match_id),
                start_fen: String::from_str(START_FEN),
            },
        ),
    )
}

/// One tick of the feed of the match `match_id`, the feed having reported the
/// moves up to `last_emitted_ply`. A match that is gone ends the feed without
/// a notice. Otherwise the tick reports the clocks, then the last move unless
/// an earlier tick reported it, then the result if the match has ended, and
/// the feed ends when the match has.
pub fn stream_tick(matches: &MatchRegistry, match_id: &str, last_emitted_ply: u32) -> (step:
    StreamStep)
    ensures
        !matches@.contains_key(match_id@) ==> {
            &&& step.events@.len() == 0
            &&& step.done
            &&& step.last_emitted_ply == last_emitted_ply
        },
        matches@.contains_key(match_id@) ==> {
            let state = matches@[match_id@];
            &&& event_views(step.events@) == tick_events(state, last_emitted_ply)
            &&& step.done == (state.status != MatchStatus::Running)
            &&& step.last_emitted_ply == if reports_move(state, last_emitted_ply) {
                state.last_move.unwrap().ply
            } else {
                last_emitted_ply
            }
        },
        step.last_emitted_ply >= last_emitted_ply,
{
    let mut events: Vec<StreamEvent> = Vec::new();
    let snapshot = match matches.snapshot(match_id) {
        Some(snapshot) => snapshot,
        None => {
            return StreamStep { events, last_emitted_ply, done: true };
        },
    };
    let mut last: u32 = last_emitted_ply;
    events.push(StreamEvent::Clock(ClockEvent::of(&snapshot.clocks)));
    match &snapshot.last_move {
        Some(record) => {
            if record.ply > last {
                last = record.ply;
                events.push(StreamEvent::Move(MoveEvent::of(record)));
            }
        },
        None => {},
    }
    let done = snapshot.is_terminal();
    if done {
        match &snapshot.result {
            Some(result) => {
                events.push(StreamEvent::Result(ResultEvent::of(result)));
            },
            None => {},
        }
    }
    proof {
        assert(event_views(events@) =~= tick_events(matches@[match_id@], last_emitted_ply));
    }
    StreamStep { events, last_emitted_ply: last, done }
}

} // verus!
