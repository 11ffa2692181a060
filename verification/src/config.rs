//! The engine list that the server is configured with, and what makes such
//! a list valid.

use crate::text::text_of;
use crate::text::texts;
use crate::text::trim;
use crate::text::trimmed;
use vstd::hash_set::StringHashSet;
use vstd::prelude::*;
use vstd::string::StringExecFns;

verus! {

/// The configured engines, in the order of the file.
#[derive(Debug)]
pub struct EngineConfigFile {
    pub engine: Vec<EngineConfig>,
}

/// One configured engine: its identifier, the path of its executable, the
/// arguments to start it with, and the directory to start it in.
#[derive(Debug)]
pub struct EngineConfig {
    pub id: String,
    pub path: String,
    pub args: Vec<String>,
    pub working_dir: Option<String>,
}

/// An `EngineConfig` as plain values.
pub struct EngineConfigView {
    pub id: Seq<char>,
    pub path: Seq<char>,
    pub args: Seq<Seq<char>>,
    pub working_dir: Option<Seq<char>>,
}

impl View for EngineConfig {
    type V = EngineConfigView;

    open spec fn view(&self) -> EngineConfigView {
        EngineConfigView {
            id: self.id@,
            path: self.path@,
            args: texts(self.args@),
            working_dir: text_of(self.working_dir),
        }
    }
}

impl View for EngineConfigFile {
    type V = Seq<EngineConfigView>;

    open spec fn view(&self) -> Seq<EngineConfigView> {
        self.engine@.map_values(|entry: EngineConfig| entry@)
    }
}

/// What makes an engine list invalid.
#[derive(Debug)]
pub enum ConfigError {
    EmptyEngineList,
    EmptyId,
    EmptyPath,
    DuplicateId(String),
}

/// A `ConfigError` as plain values.
pub enum ConfigErrorView {
    EmptyEngineList,
    EmptyId,
    EmptyPath,
    DuplicateId(Seq<char>),
}

impl View for ConfigError {
    type V = ConfigErrorView;

    open spec fn view(&self) -> ConfigErrorView {
        match self {
            ConfigError::EmptyEngineList => ConfigErrorView::EmptyEngineList,
            ConfigError::EmptyId => ConfigErrorView::EmptyId,
            ConfigError::EmptyPath => ConfigErrorView::EmptyPath,
            ConfigError::DuplicateId(id) => ConfigErrorView::DuplicateId(id@),
        }
    }
}

impl ConfigError {
    /// A line of text that says what is wrong.
    pub fn message(&self) -> (text: String)
        ensures
            text@ == (match self@ {
                ConfigErrorView::EmptyEngineList => "engine list is empty"@,
                ConfigErrorView::EmptyId => "engine id is empty"@,
                ConfigErrorView::EmptyPath => "engine path is empty"@,
                ConfigErrorView::DuplicateId(id) => "duplicate engine id: "@ + id,
            }),
    {
        match self {
            ConfigError::EmptyEngineList => String::from_str("engine list is empty"),
            ConfigError::EmptyId => String::from_str("engine id is empty"),
            ConfigError::EmptyPath => String::from_str("engine path is empty"),
            ConfigError::DuplicateId(id) => String::from_str("duplicate engine id: ").concat(
                id.as_str(),
            ),
        }
    }
}

/// Whether an entry before the one at `i` has the same identifier.
pub open spec fn repeats_earlier_id(entries: Seq<EngineConfigView>, i: int) -> bool {
    exists|j: int| 0 <= j < i && (#[trigger] entries[j]).id == entries[i].id
}

/// What is wrong with the entry at `i`, if anything: an identifier that is
/// empty or blank, else an empty path, else an identifier that an earlier
/// entry has.
pub open spec fn entry_fault(entries: Seq<EngineConfigView>, i: int) -> Option<ConfigErrorView> {
    if trimmed(entries[i].id).len() == 0 {
        Some(ConfigErrorView::EmptyId)
    } else if entries[i].path.len() == 0 {
        Some(ConfigErrorView::EmptyPath)
    } else if repeats_earlier_id(entries, i) {
        Some(ConfigErrorView::DuplicateId(entries[i].id))
    } else {
        None
    }
}

/// Whether none of the first `n` entries has a fault.
pub open spec fn faultless(entries: Seq<EngineConfigView>, n: int) -> bool {
    forall|i: int| 0 <= i < n ==> (#[trigger] entry_fault(entries, i)) is None
}

/// What `validate` finds in an engine list: an empty list is a fault, and
/// otherwise the fault of the first faulty entry is; `None` stands for a list
/// without fault.
pub open spec fn validated(entries: Seq<EngineConfigView>, fault: Option<ConfigErrorView>) -> bool {
    match fault {
        None => entries.len() > 0 && faultless(entries, entries.len() as int),
        Some(e) => if entries.len() == 0 {
            e == ConfigErrorView::EmptyEngineList
        } else {
            exists|i: int|
                0 <= i < entries.len() && faultless(entries, i) && #[trigger] entry_fault(
                    entries,
                    i,
                ) == Some(e)
        },
    }
}

/// The fault that a verdict of `validate` reports.
pub open spec fn fault_of(verdict: Result<(), ConfigError>) -> Option<ConfigErrorView> {
    match verdict {
        Ok(_) => None,
        Err(e) => Some(e@),
    }
}

impl EngineConfigFile {
    /// Checks the engine list: it must name at least one engine, and every
    /// engine needs an identifier that is not blank, a path that is not empty,
    /// and an identifier that no earlier engine has. The first entry that fails
    /// decides the error.
    pub fn validate(&self) -> (verdict: Result<(), ConfigError>)
        ensures
            validated(self@, fault_of(verdict)),
    {
        if self.engine.len() == 0 {
            return Err(ConfigError::EmptyEngineList);
        }
        let mut seen = StringHashSet::new();
        let n: usize = self.engine.len();
        let mut i: usize = 0;
        while i < n
            invariant
                n == self.engine@.len(),
                n > 0,
                i <= n,
                faultless(self@, i as int),
                forall|id: Seq<char>|
                    seen@.contains(id) <==> exists|j: int|
                        0 <= j < i && (#[trigger] self@[j]).id == id,
            decreases n - i,
        {
            let entry: &EngineConfig = &self.engine[i];
            assert(self@[i as int] == entry@);
            if trim(entry.id.as_str()).is_empty() {
                return Err(ConfigError::EmptyId);
            }
            if entry.path.as_str().is_empty() {
                return Err(ConfigError::EmptyPath);
            }
            if !seen.insert(entry.id.clone()) {
                assert(repeats_earlier_id(self@, i as int));
                return Err(ConfigError::DuplicateId(entry.id.clone()));
            }
            proof {
                assert(!repeats_earlier_id(self@, i as int));
                assert(entry_fault(self@, i as int) is None);
                assert forall|id: Seq<char>| seen@.contains(id) <==> exists|j: int|
                    0 <= j < i + 1 && (#[trigger] self@[j]).id == id by {
                    if seen@.contains(id) {
                        if id == entry@.id {
                            assert(self@[i as int].id == id);
                        } else {
                            let j = choose|j: int| 0 <= j < i && (#[trigger] self@[j]).id == id;
                            assert(0 <= j < i + 1 && self@[j].id == id);
                        }
                    }
                }
            }
            i += 1;
        }
        Ok(())
    }
}

/// The index of the first faulty entry is unique.
proof fn lemma_first_fault_is_unique(entries: Seq<EngineConfigView>, i: int, j: int)
    requires
        0 <= i < entries.len(),
        0 <= j < entries.len(),
        faultless(entries, i),
        faultless(entries, j),
        entry_fault(entries, i) is Some,
        entry_fault(entries, j) is Some,
    ensures
        i == j,
{
    if i < j {
        assert(entry_fault(entries, i) is None);
    } else if j < i {
        assert(entry_fault(entries, j) is None);
    }
}

/// The verdict on an engine list is unique: two findings that it admits are
/// the same.
pub proof fn lemma_verdict_is_unique(
    entries: Seq<EngineConfigView>,
    first: Option<ConfigErrorView>,
    second: Option<ConfigErrorView>,
)
    requires
        validated(entries, first),
        validated(entries, second),
    ensures
        first == second,
{
    match (first, second) {
        (None, None) => {},
        (Some(a), Some(b)) => {
            if entries.len() > 0 {
                let i = choose|i: int|
                    0 <= i < entries.len() && faultless(entries, i) && #[trigger] entry_fault(
                        entries,
                        i,
                    ) == Some(a);
                let j = choose|j: int|
                    0 <= j < entries.len() && faultless(entries, j) && #[trigger] entry_fault(
                        entries,
                        j,
                    ) == Some(b);
                lemma_first_fault_is_unique(entries, i, j);
            }
        },
        (None, Some(b)) => {
            let j = choose|j: int|
                0 <= j < entries.len() && faultless(entries, j) && #[trigger] entry_fault(
                    entries,
                    j,
                ) == Some(b);
            assert(entry_fault(entries, j) is None);
        },
        (Some(a), None) => {
            let i = choose|i: int|
                0 <= i < entries.len() && faultless(entries, i) && #[trigger] entry_fault(
                    entries,
                    i,
                ) == Some(a);
            assert(entry_fault(entries, i) is None);
        },
    }
}

} // verus!
