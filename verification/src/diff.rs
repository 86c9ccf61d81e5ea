//! Storage writes of a block's transactions, replayed into an overlay.

use vstd::prelude::*;
use crate::felt::Felt;
use crate::table::{CellKey, StorageTable};

verus! {

/// One written storage slot of a contract.
#[derive(Clone, Copy, Debug, PartialEq, Eq, Structural)]
pub struct StorageEntry {
    pub key: Felt,
    pub value: Felt,
}

/// The storage writes that a transaction made to one contract.
#[derive(Clone, Debug, PartialEq, Eq)]
pub struct ContractStorageDiffItem {
    pub address: Felt,
    pub storage_entries: Vec<StorageEntry>,
}

/// The kind of a traced transaction.
#[derive(Clone, Copy, Debug, PartialEq, Eq, Structural)]
pub enum TraceKind {
    Invoke,
    Declare,
    DeployAccount,
    L1Handler,
}

/// The trace of one transaction: its kind and, where the trace has a state
/// diff, the storage writes of that diff.
#[derive(Clone, Debug, PartialEq, Eq)]
pub struct TransactionTrace {
    pub kind: TraceKind,
    pub storage_diffs: Option<Vec<ContractStorageDiffItem>>,
}

/// `overlay` after the writes `entries` to the contract at `address`, in order.
pub open spec fn apply_entries(
    overlay: Map<CellKey, Felt>,
    address: Felt,
    entries: Seq<StorageEntry>,
) -> Map<CellKey, Felt>
    decreases entries.len(),
{
    if entries.len() == 0 {
        overlay
    } else {
        apply_entries(overlay, address, entries.drop_last()).insert(
            CellKey { address, key: entries.last().key },
            entries.last().value,
        )
    }
}

/// `overlay` after the writes of `items`, in order.
pub open spec fn apply_items(overlay: Map<CellKey, Felt>, items: Seq<ContractStorageDiffItem>) -> Map<
    CellKey,
    Felt,
>
    decreases items.len(),
{
    if items.len() == 0 {
        overlay
    } else {
        apply_entries(
            apply_items(overlay, items.drop_last()),
            items.last().address,
            items.last().storage_entries@,
        )
    }
}

/// `overlay` after the writes of one transaction.
pub open spec fn apply_trace(overlay: Map<CellKey, Felt>, trace: TransactionTrace) -> Map<
    CellKey,
    Felt,
> {
    match trace.storage_diffs {
        Some(items) => apply_items(overlay, items@),
        None => overlay,
    }
}

/// `overlay` after the writes of `traces`, in order: the last write to a
/// cell is the one that stays.
pub open spec fn apply_traces(overlay: Map<CellKey, Felt>, traces: Seq<TransactionTrace>) -> Map<
    CellKey,
    Felt,
>
    decreases traces.len(),
{
    if traces.len() == 0 {
        overlay
    } else {
        apply_trace(apply_traces(overlay, traces.drop_last()), traces.last())
    }
}

/// The transactions that come before `offset` in a block.
pub open spec fn scanned_prefix(traces: Seq<TransactionTrace>, offset: usize) -> Seq<
    TransactionTrace,
> {
    if offset <= traces.len() {
        traces.take(offset as int)
    } else {
        traces
    }
}

/// `cell` is written by one of `entries` at `address`.
pub open spec fn entries_write(address: Felt, entries: Seq<StorageEntry>, cell: CellKey) -> bool {
    exists|i: int| 0 <= i < entries.len() && cell == (CellKey { address, key: #[trigger] entries[i].key })
}

/// `cell` is written by one of `items`.
pub open spec fn items_write(items: Seq<ContractStorageDiffItem>, cell: CellKey) -> bool {
    exists|i: int|
        0 <= i < items.len() && entries_write(
            (#[trigger] items[i]).address,
            items[i].storage_entries@,
            cell,
        )
}

/// `cell` is written by the transaction.
pub open spec fn trace_writes(trace: TransactionTrace, cell: CellKey) -> bool {
    match trace.storage_diffs {
        Some(items) => items_write(items@, cell),
        None => false,
    }
}

/// Writes to other cells leave a cell as it was.
pub proof fn lemma_entries_keep(
    overlay: Map<CellKey, Felt>,
    address: Felt,
    entries: Seq<StorageEntry>,
    cell: CellKey,
)
    requires
        !entries_write(address, entries, cell),
    ensures
        apply_entries(overlay, address, entries).contains_key(cell) == overlay.contains_key(cell),
        overlay.contains_key(cell) ==> apply_entries(overlay, address, entries)[cell]
            == overlay[cell],
    decreases entries.len(),
{
    if entries.len() > 0 {
        let front = entries.drop_last();
        assert forall|i: int| 0 <= i < front.len() implies cell != (CellKey {
            address,
            key: #[trigger] front[i].key,
        }) by {
            assert(front[i] == entries[i]);
        }
        lemma_entries_keep(overlay, address, front, cell);
        assert(entries.last() == entries[entries.len() - 1]);
    }
}

/// Items that do not write a cell leave it as it was.
pub proof fn lemma_items_keep(
    overlay: Map<CellKey, Felt>,
    items: Seq<ContractStorageDiffItem>,
    cell: CellKey,
)
    requires
        !items_write(items, cell),
    ensures
        apply_items(overlay, items).contains_key(cell) == overlay.contains_key(cell),
        overlay.contains_key(cell) ==> apply_items(overlay, items)[cell] == overlay[cell],
    decreases items.len(),
{
    if items.len() > 0 {
        let front = items.drop_last();
        assert forall|i: int| 0 <= i < front.len() implies !entries_write(
            (#[trigger] front[i]).address,
            front[i].storage_entries@,
            cell,
        ) by {
            assert(front[i] == items[i]);
        }
        lemma_items_keep(overlay, front, cell);
        assert(items.last() == items[items.len() - 1]);
        lemma_entries_keep(
            apply_items(overlay, front),
            items.last().address,
            items.last().storage_entries@,
            cell,
        );
    }
}

/// A cell that none of the scanned transactions writes is in the overlay
/// after the scan exactly if it was there before, with the same value;
/// whatever the transactions at `offset` and behind it write.
pub proof fn lemma_unwritten_cell_unchanged(
    overlay: Map<CellKey, Felt>,
    traces: Seq<TransactionTrace>,
    offset: usize,
    cell: CellKey,
)
    requires
        forall|i: int| 0 <= i < traces.len() && i < offset ==> !trace_writes(#[trigger] traces[i], cell),
    ensures
        apply_traces(overlay, scanned_prefix(traces, offset)).contains_key(cell)
            == overlay.contains_key(cell),
        overlay.contains_key(cell) ==> apply_traces(overlay, scanned_prefix(traces, offset))[cell]
            == overlay[cell],
{
    lemma_traces_keep(overlay, scanned_prefix(traces, offset), cell);
}

/// Transactions that do not write a cell leave it as it was.
pub proof fn lemma_traces_keep(
    overlay: Map<CellKey, Felt>,
    traces: Seq<TransactionTrace>,
    cell: CellKey,
)
    requires
        forall|i: int| 0 <= i < traces.len() ==> !trace_writes(#[trigger] traces[i], cell),
    ensures
        apply_traces(overlay, traces).contains_key(cell) == overlay.contains_key(cell),
        overlay.contains_key(cell) ==> apply_traces(overlay, traces)[cell] == overlay[cell],
    decreases traces.len(),
{
    if traces.len() > 0 {
        let front = traces.drop_last();
        assert forall|i: int| 0 <= i < front.len() implies !trace_writes(#[trigger] front[i], cell) by {
            assert(front[i] == traces[i]);
        }
        lemma_traces_keep(overlay, front, cell);
        assert(traces.last() == traces[traces.len() - 1]);
        match traces.last().storage_diffs {
            Some(items) => {
                lemma_items_keep(apply_traces(overlay, front), items@, cell);
            },
            None => {},
        }
    }
}

/// Two blocks that agree on the transactions before `offset` give the same
/// overlay: what stands at `offset` or behind it adds nothing.
pub proof fn lemma_overlay_boundary(
    overlay: Map<CellKey, Felt>,
    a: Seq<TransactionTrace>,
    b: Seq<TransactionTrace>,
    offset: usize,
)
    requires
        offset <= a.len(),
        offset <= b.len(),
        forall|i: int| 0 <= i < offset ==> a[i] == b[i],
    ensures
        apply_traces(overlay, scanned_prefix(a, offset)) == apply_traces(
            overlay,
            scanned_prefix(b, offset),
        ),
{
    assert(a.take(offset as int) =~= b.take(offset as int));
}

/// Writes the entries of one contract into the overlay.
pub fn collect_entries(overlay: &mut StorageTable, address: Felt, entries: &Vec<StorageEntry>)
    ensures
        final(overlay)@ == apply_entries(old(overlay)@, address, entries@),
{
    let mut i: usize = 0;
    while i < entries.len()
        invariant
            i <= entries.len(),
            overlay@ == apply_entries(old(overlay)@, address, entries@.take(i as int)),
        decreases entries.len() - i,
    {
        let entry = entries[i];
        overlay.set(address, entry.key, entry.value);
        proof {
            assert(entries@.take(i + 1).drop_last() =~= entries@.take(i as int));
        }
        i = i + 1;
    }
    proof {
        assert(entries@.take(entries.len() as int) =~= entries@);
    }
}

} // verus!
