use vstd::prelude::*;

use crate::backfill::{is_size_batch, size_updates, LegacySizeRow, SizeUpdate, SIZE_PAGE_LIMIT};
use crate::document::{
    bytes_value, doc_fields, insert_field, json_bytes, json_text, text_value, Document,
};
use crate::encoding::{be_bytes, uuid_bytes, uuid_text, uuid_text_of};
use crate::steps::{step_for, step_kind_of, StepKind, CURRENT_VERSION};

verus! {

/// What every step may use: the current node's id and the current peer's id.
/// The handle to the store stays with the caller, who performs the actions.
#[derive(Clone, Debug)]
pub struct MigrationContext {
    pub node_id: u128,
    pub peer_id: String,
}

/// Why a migration stopped.
#[derive(Clone, Debug, PartialEq, Eq)]
pub enum MigrationError {
    /// A document was expected to exist at this path and does not.
    ConfigFileMissing(String),
    /// A store operation failed; holds the store's message.
    StoreOperationFailed(String),
    /// The store does not hold exactly one node record; holds the count found.
    InvariantViolated(i64),
    /// No step exists for this version.
    UnreachableVersion(u32),
}

/// Sets the public id of every indexer rule with this name.
#[derive(Clone, Debug)]
pub struct RuleUpdate {
    pub name: String,
    pub pub_id: Vec<u8>,
}

/// Sets the public id and the peer id of every node record.
#[derive(Clone, Debug)]
pub struct NodeUpdate {
    pub pub_id: Vec<u8>,
    pub peer_id: String,
}

/// Where a running step stands.
#[derive(Clone, Copy, Debug, PartialEq, Eq, Structural)]
pub enum Phase {
    AwaitRules,
    AwaitIdentity,
    AwaitNodeCount,
    AwaitNodeUpdate,
    AwaitSizePage,
    AwaitSizeBatch,
    Complete,
    Failed,
}

/// What the caller reports after performing an action.
#[derive(Clone, Debug)]
pub enum Event {
    /// The requested update or batch was applied.
    StoreDone,
    /// The requested store operation failed with this message.
    StoreFailed(String),
    /// A freshly generated identity, as bytes.
    Identity(Vec<u8>),
    /// The number of node records in the store.
    NodeCount(i64),
    /// The next page of file paths whose textual size is still set.
    SizePage(Vec<LegacySizeRow>),
}

/// What a step asks the caller to do next.
#[derive(Clone, Debug)]
pub enum Action {
    /// Apply these rule updates as one batch.
    UpdateRules(Vec<RuleUpdate>),
    /// Generate a new peer identity and report its bytes.
    GenerateIdentity,
    /// Count the node records.
    CountNodes,
    /// Apply this update to every node record.
    UpdateNodes(NodeUpdate),
    /// Fetch up to this many file paths whose textual size is still set.
    FetchSizePage(u64),
    /// Apply these file path updates as one batch.
    ApplySizeBatch(Vec<SizeUpdate>),
    /// The step has finished successfully.
    Done,
    /// The step has failed; later steps must not run.
    Fail(MigrationError),
}

/// The names of the built-in indexer rules, in the order of their new ids.
pub open spec fn rule_name(i: int) -> Seq<char> {
    if i == 0 {
        "No OS protected"@
    } else if i == 1 {
        "No Hidden"@
    } else if i == 2 {
        "No Git"@
    } else {
        "Only Images"@
    }
}

/// The rule batch: rule `i` gets the 128-bit id `i`.
pub open spec fn is_rule_batch(a: Action) -> bool {
    a matches Action::UpdateRules(updates) && updates.len() == 4 && forall|i: int|
        0 <= i < 4 ==> {
            &&& #[trigger] updates@[i].name@ == rule_name(i)
            &&& updates@[i].pub_id@ == be_bytes(i as nat, 16)
        }
}

/// The node update: the node's id as bytes and the peer id.
pub open spec fn is_node_update(a: Action, ctx: MigrationContext) -> bool {
    a matches Action::UpdateNodes(u) && u.pub_id@ == be_bytes(ctx.node_id as nat, 16)
        && u.peer_id@ == ctx.peer_id@
}

/// The events a phase takes.
pub open spec fn accepts(phase: Phase, event: Event) -> bool {
    match phase {
        Phase::AwaitRules => event is StoreDone || event is StoreFailed,
        Phase::AwaitIdentity => event is Identity,
        Phase::AwaitNodeCount => event is NodeCount || event is StoreFailed,
        Phase::AwaitNodeUpdate => event is StoreDone || event is StoreFailed,
        Phase::AwaitSizePage => event is SizePage || event is StoreFailed,
        Phase::AwaitSizeBatch => event is StoreDone || event is StoreFailed,
        Phase::Complete | Phase::Failed => false,
    }
}

/// Whether `phase` takes `event`.
pub fn accepts_event(phase: Phase, event: &Event) -> (r: bool)
    ensures
        r == accepts(phase, *event),
{
    match phase {
        Phase::AwaitRules => matches!(event, Event::StoreDone | Event::StoreFailed(_)),
        Phase::AwaitIdentity => matches!(event, Event::Identity(_)),
        Phase::AwaitNodeCount => matches!(event, Event::NodeCount(_) | Event::StoreFailed(_)),
        Phase::AwaitNodeUpdate => matches!(event, Event::StoreDone | Event::StoreFailed(_)),
        Phase::AwaitSizePage => matches!(event, Event::SizePage(_) | Event::StoreFailed(_)),
        Phase::AwaitSizeBatch => matches!(event, Event::StoreDone | Event::StoreFailed(_)),
        Phase::Complete | Phase::Failed => false,
    }
}

/// The four rule updates of the rule step.
pub fn rule_updates() -> (r: Vec<RuleUpdate>)
    ensures
        is_rule_batch(Action::UpdateRules(r)),
{
    let mut r: Vec<RuleUpdate> = Vec::new();
    r.push(RuleUpdate { name: "No OS protected".to_owned(), pub_id: uuid_bytes(0) });
    r.push(RuleUpdate { name: "No Hidden".to_owned(), pub_id: uuid_bytes(1) });
    r.push(RuleUpdate { name: "No Git".to_owned(), pub_id: uuid_bytes(2) });
    r.push(RuleUpdate { name: "Only Images".to_owned(), pub_id: uuid_bytes(3) });
    r
}

/// Begins the step that upgrades a document to `to_version`.
pub fn start_step(to_version: u32, ctx: &MigrationContext) -> (r: (Phase, Action))
    requires
        to_version <= CURRENT_VERSION,
    ensures
        step_kind_of(to_version as int) == Some(StepKind::Noop) ==> r.0 == Phase::Complete
            && r.1 is Done,
        step_kind_of(to_version as int) == Some(StepKind::RenameRules) ==> r.0
            == Phase::AwaitRules && is_rule_batch(r.1),
        step_kind_of(to_version as int) == Some(StepKind::AddIdentity) ==> r.0
            == Phase::AwaitIdentity && r.1 is GenerateIdentity,
        step_kind_of(to_version as int) == Some(StepKind::AdoptNode) ==> r.0
            == Phase::AwaitNodeCount && r.1 is CountNodes,
        step_kind_of(to_version as int) == Some(StepKind::BackfillSizes) ==> r.0
            == Phase::AwaitSizePage && r.1 == Action::FetchSizePage(SIZE_PAGE_LIMIT),
{
    match step_for(to_version) {
        Some(StepKind::Noop) => (Phase::Complete, Action::Done),
        Some(StepKind::RenameRules) => (Phase::AwaitRules, Action::UpdateRules(rule_updates())),
        Some(StepKind::AddIdentity) => (Phase::AwaitIdentity, Action::GenerateIdentity),
        Some(StepKind::AdoptNode) => (Phase::AwaitNodeCount, Action::CountNodes),
        Some(StepKind::BackfillSizes) => (
            Phase::AwaitSizePage,
            Action::FetchSizePage(SIZE_PAGE_LIMIT),
        ),
        None => (Phase::Failed, Action::Fail(MigrationError::UnreachableVersion(to_version))),
    }
}

/// Takes the caller's report on the last action of a running step, and says
/// where the step stands and what the caller must do next. The document
/// changes only when the step that writes a field completes.
pub fn advance(phase: Phase, event: Event, doc: &mut Document, ctx: &MigrationContext) -> (r: (
    Phase,
    Action,
))
    requires
        accepts(phase, event),
    ensures
        event matches Event::StoreFailed(msg) ==> r.0 == Phase::Failed && r.1 == Action::Fail(
            MigrationError::StoreOperationFailed(msg),
        ) && doc_fields(*final(doc)) == doc_fields(*old(doc)),
        phase == Phase::AwaitRules && event is StoreDone ==> r.0 == Phase::Complete && r.1 is Done
            && doc_fields(*final(doc)) == doc_fields(*old(doc)),
        event matches Event::Identity(bytes) ==> r.0 == Phase::Complete && r.1 is Done
            && doc_fields(*final(doc)) == doc_fields(*old(doc)).insert(
            "identity"@,
            json_bytes(bytes@),
        ),
        event matches Event::NodeCount(n) ==> doc_fields(*final(doc)) == doc_fields(*old(doc))
            && if n == 1 {
            r.0 == Phase::AwaitNodeUpdate && is_node_update(r.1, *ctx)
        } else {
            r.0 == Phase::Failed && r.1 == Action::Fail(MigrationError::InvariantViolated(n))
        },
        phase == Phase::AwaitNodeUpdate && event is StoreDone ==> r.0 == Phase::Complete
            && r.1 is Done
            && doc_fields(*final(doc)) == doc_fields(*old(doc)).insert(
            "node_id"@,
            json_text(uuid_text_of(ctx.node_id)),
        ),
        event matches Event::SizePage(rows) ==> doc_fields(*final(doc)) == doc_fields(*old(doc))
            && if rows.len() == 0 {
            r.0 == Phase::Complete && r.1 is Done
        } else {
            r.0 == Phase::AwaitSizeBatch && (r.1 matches Action::ApplySizeBatch(updates)
                && is_size_batch(updates@, rows@))
        },
        phase == Phase::AwaitSizeBatch && event is StoreDone ==> r.0 == Phase::AwaitSizePage && r.1
            == Action::FetchSizePage(SIZE_PAGE_LIMIT) && doc_fields(*final(doc)) == doc_fields(
            *old(doc),
        ),
{
    match event {
        Event::StoreFailed(msg) => (
            Phase::Failed,
            Action::Fail(MigrationError::StoreOperationFailed(msg)),
        ),
        Event::Identity(bytes) => {
            let value = bytes_value(&bytes);
            insert_field(doc, "identity".to_owned(), value);
            (Phase::Complete, Action::Done)
        },
        Event::NodeCount(n) => {
            if n == 1 {
                let update = NodeUpdate {
                    pub_id: uuid_bytes(ctx.node_id),
                    peer_id: ctx.peer_id.clone(),
                };
                (Phase::AwaitNodeUpdate, Action::UpdateNodes(update))
            } else {
                (Phase::Failed, Action::Fail(MigrationError::InvariantViolated(n)))
            }
        },
        Event::SizePage(rows) => {
            if rows.len() == 0 {
                (Phase::Complete, Action::Done)
            } else {
                (Phase::AwaitSizeBatch, Action::ApplySizeBatch(size_updates(&rows)))
            }
        },
        Event::StoreDone => {
            match phase {
                Phase::AwaitNodeUpdate => {
                    let value = text_value(uuid_text(ctx.node_id));
                    insert_field(doc, "node_id".to_owned(), value);
                    (Phase::Complete, Action::Done)
                },
                Phase::AwaitSizeBatch => (
                    Phase::AwaitSizePage,
                    Action::FetchSizePage(SIZE_PAGE_LIMIT),
                ),
                _ => (Phase::Complete, Action::Done),
            }
        },
    }
}

} // verus!
