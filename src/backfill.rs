use vstd::prelude::*;

use crate::encoding::{be_bytes, parse_u64, parse_u64_of, u64_be_bytes};

verus! {

/// How many file path rows one page of the size backfill fetches.
pub const SIZE_PAGE_LIMIT: u64 = 500;

/// A file path row that still holds its size as text.
#[derive(Clone, Debug)]
pub struct LegacySizeRow {
    pub id: i32,
    pub size_in_bytes: Option<String>,
}

/// The update of one file path row: its binary size becomes `size_bytes` and
/// its textual size is cleared, so the row no longer needs the backfill.
#[derive(Clone, Debug)]
pub struct SizeUpdate {
    pub id: i32,
    pub size_bytes: Option<Vec<u8>>,
}

pub open spec fn opt_bytes_view(o: Option<Vec<u8>>) -> Option<Seq<u8>> {
    match o {
        Some(v) => Some(v@),
        None => None,
    }
}

/// The binary size for a textual one: eight big-endian bytes where the text
/// is a valid `u64`, nothing otherwise.
pub open spec fn converted_size(size: Option<String>) -> Option<Seq<u8>> {
    match size {
        Some(text) => match parse_u64_of(text@) {
            Some(v) => Some(be_bytes(v as nat, 8)),
            None => None,
        },
        None => None,
    }
}

/// Whether `updates` is the batch for `rows`: one update per row, in order,
/// each converting that row's size and clearing the text.
pub open spec fn is_size_batch(updates: Seq<SizeUpdate>, rows: Seq<LegacySizeRow>) -> bool {
    &&& updates.len() == rows.len()
    &&& forall|i: int|
        0 <= i < rows.len() ==> {
            &&& #[trigger] updates[i].id == rows[i].id
            &&& opt_bytes_view(updates[i].size_bytes) == converted_size(rows[i].size_in_bytes)
        }
}

/// Converts one row's textual size.
pub fn convert_size(size: &Option<String>) -> (r: Option<Vec<u8>>)
    ensures
        opt_bytes_view(r) == converted_size(*size),
{
    match size {
        Some(text) => match parse_u64(text) {
            Some(v) => Some(u64_be_bytes(v)),
            None => None,
        },
        None => None,
    }
}

/// The batch of updates for one fetched page. Rows whose text is not a valid
/// size are cleared without a binary size, so no row is fetched twice.
pub fn size_updates(rows: &Vec<LegacySizeRow>) -> (r: Vec<SizeUpdate>)
    ensures
        is_size_batch(r@, rows@),
{
    let mut out: Vec<SizeUpdate> = Vec::new();
    let mut i: usize = 0;
    while i < rows.len()
        invariant
            i <= rows.len(),
            out@.len() == i,
            forall|j: int|
                0 <= j < i ==> {
                    &&& #[trigger] out@[j].id == rows@[j].id
                    &&& opt_bytes_view(out@[j].size_bytes) == converted_size(
                        rows@[j].size_in_bytes,
                    )
                },
        decreases rows.len() - i,
    {
        let size_bytes = convert_size(&rows[i].size_in_bytes);
        out.push(SizeUpdate { id: rows[i].id, size_bytes });
        i = i + 1;
    }
    out
}

/// The number of non-empty pages a backfill over `remaining` matching rows
/// fetches when each page takes at most `page` rows and clears all of them.
pub open spec fn pages_needed(remaining: nat, page: nat) -> nat
    decreases remaining,
{
    if remaining == 0 || page == 0 {
        0
    } else if remaining <= page {
        1
    } else {
        1 + pages_needed((remaining - page) as nat, page)
    }
}

/// A backfill in which every fetched page clears each of its rows from the
/// fetch predicate ends after ceil(R / P) non-empty pages, with no matching
/// row left.
pub proof fn lemma_backfill_terminates(remaining: nat, page: nat)
    requires
        page > 0,
    ensures
        pages_needed(remaining, page) == (remaining + page - 1) / page as int,
    decreases remaining,
{
    if remaining == 0 {
        assert((page - 1) / page as int == 0) by (nonlinear_arith)
            requires page > 0;
    } else if remaining <= page {
        assert((remaining + page - 1) / page as int == 1) by (nonlinear_arith)
            requires page > 0, 0 < remaining <= page;
    } else {
        lemma_backfill_terminates((remaining - page) as nat, page);
        assert((remaining + page - 1) / page as int == 1 + (remaining - page + page - 1)
            / page as int)
            by (nonlinear_arith)
            requires page > 0, remaining > page;
    }
}

/// Whether a row still needs the backfill: its textual size is set.
pub open spec fn needs_backfill(row: LegacySizeRow) -> bool {
    row.size_in_bytes is Some
}

/// Whether some update in the batch is for the row with this id.
pub open spec fn batch_covers(updates: Seq<SizeUpdate>, id: i32) -> bool {
    exists|j: int| 0 <= j < updates.len() && #[trigger] updates[j].id == id
}

/// The table after the store has applied a batch: each row that an update
/// names has its textual size cleared; every other row is as it was.
pub open spec fn apply_size_batch(table: Seq<LegacySizeRow>, updates: Seq<SizeUpdate>) -> Seq<
    LegacySizeRow,
> {
    table.map_values(
        |row: LegacySizeRow|
            if batch_covers(updates, row.id) {
                LegacySizeRow { id: row.id, size_in_bytes: None }
            } else {
                row
            },
    )
}

/// Once the batch for a page is applied, no row of that page needs the
/// backfill any more, whether its size converted or not, and rows outside the
/// page are untouched.
pub proof fn lemma_batch_clears_page(
    table: Seq<LegacySizeRow>,
    page: Seq<LegacySizeRow>,
    updates: Seq<SizeUpdate>,
)
    requires
        is_size_batch(updates, page),
    ensures
        apply_size_batch(table, updates).len() == table.len(),
        forall|i: int|
            0 <= i < table.len() ==> {
                let after = #[trigger] apply_size_batch(table, updates)[i];
                &&& after.id == table[i].id
                &&& (exists|k: int| 0 <= k < page.len() && page[k].id == table[i].id)
                    ==> !needs_backfill(after)
                &&& !(exists|k: int| 0 <= k < page.len() && page[k].id == table[i].id) ==> after
                    == table[i]
            },
{
    assert forall|i: int| 0 <= i < table.len() implies {
        let after = #[trigger] apply_size_batch(table, updates)[i];
        &&& after.id == table[i].id
        &&& (exists|k: int| 0 <= k < page.len() && page[k].id == table[i].id) ==> !needs_backfill(
            after,
        )
        &&& !(exists|k: int| 0 <= k < page.len() && page[k].id == table[i].id) ==> after
            == table[i]
    } by {
        if exists|k: int| 0 <= k < page.len() && page[k].id == table[i].id {
            let k = choose|k: int| 0 <= k < page.len() && page[k].id == table[i].id;
            assert(updates[k].id == table[i].id);
            assert(batch_covers(updates, table[i].id));
        } else {
            if batch_covers(updates, table[i].id) {
                let j = choose|j: int|
                    0 <= j < updates.len() && #[trigger] updates[j].id == table[i].id;
                assert(page[j].id == table[i].id);
            }
        }
    }
}

/// The number of rows that still need the backfill.
pub open spec fn pending_count(table: Seq<LegacySizeRow>) -> nat
    decreases table.len(),
{
    if table.len() == 0 {
        0
    } else {
        pending_count(table.drop_last()) + if needs_backfill(table.last()) {
            1nat
        } else {
            0nat
        }
    }
}

/// Clearing rows never adds a pending one, and clearing one that was pending
/// lowers the count.
proof fn lemma_pending_count_shrinks(before: Seq<LegacySizeRow>, after: Seq<LegacySizeRow>)
    requires
        before.len() == after.len(),
        forall|i: int|
            0 <= i < after.len() && needs_backfill(#[trigger] after[i]) ==> needs_backfill(
                before[i],
            ),
    ensures
        pending_count(after) <= pending_count(before),
        (exists|i: int|
            0 <= i < after.len() && needs_backfill(before[i]) && !needs_backfill(
                #[trigger] after[i],
            )) ==> pending_count(after) < pending_count(before),
    decreases before.len(),
{
    if before.len() > 0 {
        let (b, a) = (before.drop_last(), after.drop_last());
        assert forall|i: int| 0 <= i < a.len() && needs_backfill(#[trigger] a[i]) implies
            needs_backfill(b[i]) by {
            assert(after[i] == a[i]);
        }
        lemma_pending_count_shrinks(b, a);
        if exists|i: int|
            0 <= i < after.len() && needs_backfill(before[i]) && !needs_backfill(
                #[trigger] after[i],
            ) {
            let i = choose|i: int|
                0 <= i < after.len() && needs_backfill(before[i]) && !needs_backfill(
                    #[trigger] after[i],
                );
            if i < a.len() {
                assert(a[i] == after[i]);
                assert(needs_backfill(b[i]) && !needs_backfill(a[i]));
            }
        }
    }
}

/// Applying the batch for a non-empty page of rows that all still need the
/// backfill strictly lowers the number of rows that need it: the loop that
/// fetches pages until one comes back empty ends.
pub proof fn lemma_batch_shrinks_pending(
    table: Seq<LegacySizeRow>,
    page: Seq<LegacySizeRow>,
    updates: Seq<SizeUpdate>,
)
    requires
        is_size_batch(updates, page),
        page.len() > 0,
        forall|k: int|
            0 <= k < page.len() ==> exists|i: int|
                0 <= i < table.len() && table[i].id == #[trigger] page[k].id && needs_backfill(
                    table[i],
                ),
    ensures
        pending_count(apply_size_batch(table, updates)) < pending_count(table),
{
    lemma_batch_clears_page(table, page, updates);
    let after = apply_size_batch(table, updates);
    assert forall|i: int| 0 <= i < after.len() && needs_backfill(#[trigger] after[i]) implies
        needs_backfill(table[i]) by {
        if batch_covers(updates, table[i].id) {
        }
    }
    let i = choose|i: int|
        0 <= i < table.len() && table[i].id == #[trigger] page[0].id && needs_backfill(table[i]);
    assert(exists|k: int| 0 <= k < page.len() && page[k].id == table[i].id);
    assert(needs_backfill(table[i]) && !needs_backfill(after[i]));
    lemma_pending_count_shrinks(table, after);
}

} // verus!
