//! The stages of a build.

use vstd::prelude::*;

verus! {

/// One engine run of the build, in the order in which they run.
#[derive(Clone, Copy, Debug, PartialEq, Eq, Structural)]
pub enum Stage {
    /// Builds the compacted graph from the references.
    Graph,
    /// Builds the index over the graph.
    Index,
    /// Builds the poison table from the decoys.
    Poison,
}

impl Stage {
    /// The name under which the stage's engine is called: the first token
    /// of its command line.
    pub open spec fn program(self) -> Seq<char> {
        match self {
            Stage::Graph => "cdbg_builder"@,
            Stage::Index => "ref_index_builder"@,
            Stage::Poison => "poison_table_builder"@,
        }
    }

    /// The name under which the stage's engine is called.
    pub fn program_name(self) -> (name: &'static str)
        ensures
            name@ == self.program(),
    {
        match self {
            Stage::Graph => "cdbg_builder",
            Stage::Index => "ref_index_builder",
            Stage::Poison => "poison_table_builder",
        }
    }
}

} // verus!
