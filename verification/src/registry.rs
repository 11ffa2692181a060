//! The match registry: one `MatchState` per match identifier. The
//! orchestrator of a match is the only writer of its entry; observers read
//! whole states only.

use crate::domain::MatchState;
use crate::domain::MatchStateView;
use vstd::hash_map::StringHashMap;
use vstd::prelude::*;
use vstd::string::StringExecFns;

verus! {

/// The states of all matches, by match identifier.
pub struct MatchRegistry {
    matches: StringHashMap<MatchState>,
}

impl View for MatchRegistry {
    type V = Map<Seq<char>, MatchStateView>;

    closed spec fn view(&self) -> Map<Seq<char>, MatchStateView> {
        self.matches@.map_values(|state: MatchState| state@)
    }
}

/// What a write to the entry `id` leaves of the registry `before`: the entry
/// becomes `state` if it exists and its match is still running, and nothing
/// changes otherwise.
pub open spec fn written(
    before: Map<Seq<char>, MatchStateView>,
    id: Seq<char>,
    state: MatchStateView,
) -> Map<Seq<char>, MatchStateView> {
    if before.contains_key(id) && !before[id].is_terminal() {
        before.insert(id, state)
    } else {
        before
    }
}

/// Whether every state in `registry` is consistent.
pub open spec fn all_consistent(registry: Map<Seq<char>, MatchStateView>) -> bool {
    forall|id: Seq<char>| #[trigger] registry.contains_key(id) ==> registry[id].consistent()
}

impl MatchRegistry {
    /// A registry without matches.
    pub fn new() -> (registry: MatchRegistry)
        ensures
            registry@ == Map::<Seq<char>, MatchStateView>::empty(),
    {
        let registry = MatchRegistry { matches: StringHashMap::new() };
        proof {
            assert(registry@ =~= Map::<Seq<char>, MatchStateView>::empty());
        }
        registry
    }

    /// Whether the registry holds a match `id`.
    pub fn contains(&self, id: &str) -> (found: bool)
        ensures
            found == self@.contains_key(id@),
    {
        self.matches.contains_key(id)
    }

    /// Enters `state` as the state of the match `id`, in place of any state
    /// that stood there.
    pub fn insert(&mut self, id: String, state: MatchState)
        ensures
            final(self)@ == old(self)@.insert(id@, state@),
            all_consistent(old(self)@) && state@.consistent() ==> all_consistent(final(self)@),
    {
        self.matches.insert(id, state);
        proof {
            assert(final(self)@ =~= old(self)@.insert(id@, state@));
        }
    }

    /// The state of the match `id`, if the registry holds one.
    pub fn get(&self, id: &str) -> (found: Option<&MatchState>)
        ensures
            found is Some <==> self@.contains_key(id@),
            found is Some ==> found.unwrap()@ == self@[id@],
    {
        self.matches.get(id)
    }

    /// A copy of the state of the match `id`, if the registry holds one. The
    /// copy is the whole state as the last write left it.
    pub fn snapshot(&self, id: &str) -> (copy: Option<MatchState>)
        ensures
            copy is Some <==> self@.contains_key(id@),
            copy is Some ==> copy.unwrap()@ == self@[id@],
            all_consistent(self@) && copy is Some ==> copy.unwrap()@.consistent(),
    {
        match self.matches.get(id) {
            Some(state) => Some(state.clone()),
            None => None,
        }
    }

    /// Replaces the state of the match `id` by `state`, if the registry holds
    /// the match and it is still running. A write to a match that is missing
    /// or has ended changes nothing. Returns whether the state was replaced.
    pub fn update(&mut self, id: &str, state: MatchState) -> (applied: bool)
        ensures
            final(self)@ == written(old(self)@, id@, state@),
            applied == (old(self)@.contains_key(id@) && !old(self)@[id@].is_terminal()),
            all_consistent(old(self)@) && state@.consistent() ==> all_consistent(final(self)@),
    {
        let open = match self.matches.get(id) {
            Some(entry) => !entry.is_terminal(),
            None => false,
        };
        if open {
            self.matches.insert(String::from_str(id), state);
            proof {
                assert(final(self)@ =~= old(self)@.insert(id@, state@));
            }
        }
        open
    }
}

/// Once a match has ended, no write changes its entry.
pub proof fn lemma_terminal_entry_is_final(
    before: Map<Seq<char>, MatchStateView>,
    id: Seq<char>,
    state: MatchStateView,
)
    requires
        before.contains_key(id),
        before[id].is_terminal(),
    ensures
        written(before, id, state) == before,
{
}

/// A write touches no entry but its own.
pub proof fn lemma_write_leaves_others(
    before: Map<Seq<char>, MatchStateView>,
    id: Seq<char>,
    state: MatchStateView,
    other: Seq<char>,
)
    requires
        other != id,
    ensures
        written(before, id, state).contains_key(other) == before.contains_key(other),
        before.contains_key(other) ==> written(before, id, state)[other] == before[other],
{
}

} // verus!
