use vstd::prelude::*;

verus! {

/// The version that the running software expects every document to have.
pub const CURRENT_VERSION: u32 = 5;

/// What the step that upgrades a document to a given version does.
#[derive(Clone, Copy, Debug, PartialEq, Eq, Structural)]
pub enum StepKind {
    /// Nothing to transform: the version exists to keep the sequence dense.
    Noop,
    /// Give the built-in indexer rules fixed public ids.
    RenameRules,
    /// Add a freshly generated peer identity to the document.
    AddIdentity,
    /// Check that the store holds exactly one node, then stamp it and record
    /// its id in the document.
    AdoptNode,
    /// Rewrite every file path's textual size as eight big-endian bytes.
    BackfillSizes,
}

/// The step table: `Some` for every version from 0 to `CURRENT_VERSION`, and
/// `None` beyond it.
pub open spec fn step_kind_of(version: int) -> Option<StepKind> {
    if version == 0 || version == 4 {
        Some(StepKind::Noop)
    } else if version == 1 {
        Some(StepKind::RenameRules)
    } else if version == 2 {
        Some(StepKind::AddIdentity)
    } else if version == 3 {
        Some(StepKind::AdoptNode)
    } else if version == 5 {
        Some(StepKind::BackfillSizes)
    } else {
        None
    }
}

/// Looks up the step that upgrades a document to `version`.
pub fn step_for(version: u32) -> (r: Option<StepKind>)
    ensures
        r == step_kind_of(version as int),
{
    match version {
        0 | 4 => Some(StepKind::Noop),
        1 => Some(StepKind::RenameRules),
        2 => Some(StepKind::AddIdentity),
        3 => Some(StepKind::AdoptNode),
        5 => Some(StepKind::BackfillSizes),
        _ => None,
    }
}

/// The step table is dense: every version from 0 to `CURRENT_VERSION` has a
/// step, and no version past it has one.
pub proof fn lemma_step_table_dense(version: int)
    ensures
        (0 <= version <= CURRENT_VERSION) <==> step_kind_of(version) is Some,
{
}

} // verus!
