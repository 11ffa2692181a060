//! An engine that matches can be played with.

use crate::text::clone_strings;
use crate::text::text_of;
use crate::text::texts;
use vstd::prelude::*;

verus! {

/// An engine as resolved at startup: how it identifies itself and how its
/// process is started.
#[derive(Debug)]
pub struct EngineSpec {
    pub id: String,
    pub name: String,
    pub author: String,
    pub path: String,
    pub args: Vec<String>,
    pub working_dir: Option<String>,
}

/// An `EngineSpec` as plain values.
pub struct EngineSpecView {
    pub id: Seq<char>,
    pub name: Seq<char>,
    pub author: Seq<char>,
    pub path: Seq<char>,
    pub args: Seq<Seq<char>>,
    pub working_dir: Option<Seq<char>>,
}

impl View for EngineSpec {
    type V = EngineSpecView;

    open spec fn view(&self) -> EngineSpecView {
        EngineSpecView {
            id: self.id@,
            name: self.name@,
            author: self.author@,
            path: self.path@,
            args: texts(self.args@),
            working_dir: text_of(self.working_dir),
        }
    }
}

impl Clone for EngineSpec {
    fn clone(&self) -> (copy: EngineSpec)
        ensures
            copy@ == self@,
    {
        let working_dir = match &self.working_dir {
            Some(dir) => Some(dir.clone()),
            None => None,
        };
        EngineSpec {
            id: self.id.clone(),
            name: self.name.clone(),
            author: self.author.clone(),
            path: self.path.clone(),
            args: clone_strings(&self.args),
            working_dir,
        }
    }
}

/// The views of a sequence of engines.
pub open spec fn engine_views(engines: Seq<EngineSpec>) -> Seq<EngineSpecView> {
    engines.map_values(|engine: EngineSpec| engine@)
}

} // verus!
