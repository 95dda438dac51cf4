use vstd::prelude::*;

use crate::document::{
    doc_fields, insert_field, json_bytes, json_text, json_u32, u32_value, Document,
};
use crate::encoding::uuid_text_of;
use crate::migration::MigrationContext;
use crate::steps::CURRENT_VERSION;

verus! {

/// The versions whose steps bring a document stored at `stored` up to
/// `CURRENT_VERSION`, in the order they must run.
pub open spec fn pending_of(stored: u32) -> Seq<u32> {
    Seq::new((CURRENT_VERSION - stored) as nat, |i: int| (stored + 1 + i) as u32)
}

/// Lists the versions to run for a document stored at `stored`: every version
/// above it up to `CURRENT_VERSION`, in increasing order.
pub fn pending_versions(stored: u32) -> (r: Vec<u32>)
    requires
        stored <= CURRENT_VERSION,
    ensures
        r@ == pending_of(stored),
{
    let mut r: Vec<u32> = Vec::new();
    let mut v: u32 = stored;
    while v < CURRENT_VERSION
        invariant
            stored <= v <= CURRENT_VERSION,
            r@ == pending_of(stored).subrange(0, (v - stored) as int),
        decreases CURRENT_VERSION - v,
    {
        v = v + 1;
        r.push(v);
        assert(r@ =~= pending_of(stored).subrange(0, (v - stored) as int));
    }
    assert(r@ =~= pending_of(stored));
    r
}

/// Records in the document that every step up to `CURRENT_VERSION` has run.
pub fn finish_run(doc: &mut Document)
    ensures
        doc_fields(*final(doc)) == doc_fields(*old(doc)).insert(
            "version"@,
            json_u32(CURRENT_VERSION),
        ),
{
    let value = u32_value(CURRENT_VERSION);
    insert_field(doc, "version".to_owned(), value);
}

/// What the step to `version` does to the document's fields when it
/// completes, given the identity generated for it.
pub open spec fn step_effect(
    version: int,
    fields: Map<Seq<char>, serde_json::Value>,
    ctx: MigrationContext,
    identity: Seq<u8>,
) -> Map<Seq<char>, serde_json::Value> {
    if version == 2 {
        fields.insert("identity"@, json_bytes(identity))
    } else if version == 3 {
        fields.insert("node_id"@, json_text(uuid_text_of(ctx.node_id)))
    } else {
        fields
    }
}

/// The fields after the steps to `from + 1` through `to` have completed.
pub open spec fn run_effect(
    from: int,
    to: int,
    fields: Map<Seq<char>, serde_json::Value>,
    ctx: MigrationContext,
    identity: Seq<u8>,
) -> Map<Seq<char>, serde_json::Value>
    decreases to - from,
{
    if to <= from {
        fields
    } else {
        step_effect(to, run_effect(from, to - 1, fields, ctx, identity), ctx, identity)
    }
}

/// The fields of a document that a full run from `stored` has brought to
/// `CURRENT_VERSION`.
pub open spec fn migrated_fields(
    stored: u32,
    fields: Map<Seq<char>, serde_json::Value>,
    ctx: MigrationContext,
    identity: Seq<u8>,
) -> Map<Seq<char>, serde_json::Value> {
    run_effect(stored as int, CURRENT_VERSION as int, fields, ctx, identity).insert(
        "version"@,
        json_u32(CURRENT_VERSION),
    )
}

/// The fields that the run writes have distinct names.
proof fn lemma_field_names_distinct()
    ensures
        "version"@ != "identity"@,
        "version"@ != "node_id"@,
        "identity"@ != "node_id"@,
{
    reveal_strlit("version");
    reveal_strlit("identity");
    reveal_strlit("node_id");
    assert("version"@.len() != "identity"@.len());
    assert("version"@[0] != "node_id"@[0]);
    assert("identity"@.len() != "node_id"@.len());
}

/// Running every pending step in order and then finishing the run leaves the
/// document at exactly `CURRENT_VERSION`, carrying the field of each step
/// that was run.
pub proof fn lemma_run_reaches_current(
    stored: u32,
    fields: Map<Seq<char>, serde_json::Value>,
    ctx: MigrationContext,
    identity: Seq<u8>,
)
    requires
        stored <= CURRENT_VERSION,
    ensures
        migrated_fields(stored, fields, ctx, identity)["version"@] == json_u32(CURRENT_VERSION),
        stored < 2 ==> migrated_fields(stored, fields, ctx, identity)["identity"@] == json_bytes(
            identity,
        ),
        stored < 3 ==> migrated_fields(stored, fields, ctx, identity)["node_id"@] == json_text(
            uuid_text_of(ctx.node_id),
        ),
{
    reveal_with_fuel(run_effect, 6);
    lemma_field_names_distinct();
}

/// A run interrupted after the step to `k` and resumed from `k` ends with the
/// same fields as an uninterrupted run, and steps that have already been
/// applied may run again without changing the outcome.
pub proof fn lemma_resumed_run_matches_clean_run(
    stored: u32,
    k: u32,
    fields: Map<Seq<char>, serde_json::Value>,
    ctx: MigrationContext,
    identity: Seq<u8>,
)
    requires
        stored <= k <= CURRENT_VERSION,
    ensures
        migrated_fields(
            k,
            run_effect(stored as int, k as int, fields, ctx, identity),
            ctx,
            identity,
        ) == migrated_fields(stored, fields, ctx, identity),
        migrated_fields(stored, migrated_fields(stored, fields, ctx, identity), ctx, identity)
            == migrated_fields(stored, fields, ctx, identity),
{
    reveal_with_fuel(run_effect, 6);
    lemma_field_names_distinct();
    let once = migrated_fields(stored, fields, ctx, identity);
    assert(migrated_fields(stored, once, ctx, identity) =~= once);
    let resumed = run_effect(stored as int, k as int, fields, ctx, identity);
    assert(migrated_fields(k, resumed, ctx, identity) =~= once);
}

} // verus!
