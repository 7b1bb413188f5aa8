use crate::error::Error;
use crate::history::Call;
use crate::model::successor;
use crate::model::Record;
use crate::model::RecordStore;
use crate::model::FIRST_ID;
use crate::model::ID_CEILING;
use vstd::prelude::*;

verus! {

/// The value the counter holds after `count` creations that began at `start`:
/// `start + count`, but never beyond the ceiling.
pub open spec fn counter_after(start: u32, count: nat) -> u32 {
    if start + count < ID_CEILING {
        (start + count) as u32
    } else {
        ID_CEILING
    }
}

/// A new store is well formed.
pub proof fn lemma_empty_wf()
    ensures
        RecordStore::empty().wf(),
{
}

/// No call breaks well-formedness: after it every record still carries the
/// identifier it is kept under, and every such identifier still lies below
/// the counter or the counter has stopped at the ceiling.
pub proof fn lemma_step_keeps_wf(store: RecordStore, call: Call)
    requires
        store.wf(),
    ensures
        store.step(call).wf(),
{
}

/// No history of calls breaks well-formedness.
pub proof fn lemma_run_keeps_wf(store: RecordStore, calls: Seq<Call>)
    requires
        store.wf(),
    ensures
        store.run(calls).wf(),
    decreases calls.len(),
{
    if calls.len() > 0 {
        lemma_step_keeps_wf(store, calls[0]);
        lemma_run_keeps_wf(store.step(calls[0]), calls.drop_first());
    }
}

/// Only a creation moves the counter, and it moves it to its successor.
pub proof fn lemma_step_counter(store: RecordStore, call: Call)
    ensures
        store.step(call).next_id == if call is Create {
            successor(store.next_id)
        } else {
            store.next_id
        },
        store.step(call).next_id >= store.next_id,
{
}

/// The counter never decreases, whatever calls are made.
pub proof fn lemma_counter_never_decreases(store: RecordStore, calls: Seq<Call>)
    ensures
        store.run(calls).next_id >= store.next_id,
    decreases calls.len(),
{
    if calls.len() > 0 {
        lemma_counter_never_decreases(store.step(calls[0]), calls.drop_first());
    }
}

/// The creations of a history return the values of the counter one after the
/// other: the `k`-th of them returns what the counter holds after `k`
/// creations, whatever other calls stand between them.
pub proof fn lemma_issued_counts_up(store: RecordStore, calls: Seq<Call>, k: int)
    requires
        0 <= k < store.issued(calls).len(),
    ensures
        store.issued(calls)[k] == counter_after(store.next_id, k as nat),
    decreases calls.len(),
{
    let next = store.step(calls[0]);
    let rest = calls.drop_first();
    if calls[0] is Create {
        if k > 0 {
            lemma_issued_counts_up(next, rest, k - 1);
        }
    } else {
        lemma_issued_counts_up(next, rest, k);
    }
}

/// Identifiers are issued in strictly increasing order and none is issued
/// twice, whatever deletions and other calls stand between the creations.
///
/// This holds of two creations of a history as long as the earlier one finds
/// the counter below its ceiling. A creation that finds the counter at the
/// ceiling returns the ceiling, and so does every creation after it.
pub proof fn lemma_issued_strictly_increasing(
    store: RecordStore,
    calls: Seq<Call>,
    i: int,
    j: int,
)
    requires
        0 <= i < j < store.issued(calls).len(),
        store.next_id + i < ID_CEILING,
    ensures
        store.issued(calls)[i] < store.issued(calls)[j],
        store.issued(calls)[i] != store.issued(calls)[j],
{
    lemma_issued_counts_up(store, calls, i);
    lemma_issued_counts_up(store, calls, j);
}

/// A creation followed by a lookup of the identifier it returned finds the
/// record that was asked for: that identifier, the given title, not done.
pub proof fn lemma_create_then_read(store: RecordStore, title: Seq<char>)
    ensures
        store.create(title).read(store.next_id) == Ok::<Record, Error>(
            Record { id: store.next_id, title, status: false },
        ),
{
}

/// An update that gives only a title changes the title of that record and
/// nothing else: not its identifier, not its status, no other record, not
/// the counter.
pub proof fn lemma_update_title_only(store: RecordStore, id: u32, title: Seq<char>)
    requires
        store.contains(id),
    ensures
        store.update(id, Some(title), None).records == store.records.insert(
            id,
            Record { id: store.records[id].id, title, status: store.records[id].status },
        ),
        store.update(id, Some(title), None).next_id == store.next_id,
{
}

/// An update that gives only a status changes the status of that record and
/// nothing else: not its identifier, not its title, no other record, not the
/// counter.
pub proof fn lemma_update_status_only(store: RecordStore, id: u32, status: bool)
    requires
        store.contains(id),
    ensures
        store.update(id, None, Some(status)).records == store.records.insert(
            id,
            Record { id: store.records[id].id, title: store.records[id].title, status },
        ),
        store.update(id, None, Some(status)).next_id == store.next_id,
{
}

/// An update that gives neither field changes nothing, whether a record is
/// kept under the identifier or not.
pub proof fn lemma_update_nothing(store: RecordStore, id: u32)
    ensures
        store.update(id, None, None) == store,
{
}

/// An update never makes a record: where none is kept under the identifier
/// the store stays as it is, whatever fields are given.
pub proof fn lemma_update_never_inserts(
    store: RecordStore,
    id: u32,
    title: Option<Seq<char>>,
    status: Option<bool>,
)
    requires
        !store.contains(id),
    ensures
        store.update(id, title, status) == store,
        store.require(id) == Err::<(), Error>(Error::TodoNotFound),
{
}

/// After a deletion that was carried out, a lookup of the identifier finds
/// nothing and a second deletion is refused.
pub proof fn lemma_delete_is_final(store: RecordStore, id: u32)
    requires
        store.contains(id),
    ensures
        store.require(id) == Ok::<(), Error>(()),
        store.delete(id).read(id) == Err::<Record, Error>(Error::TodoNotFound),
        store.delete(id).require(id) == Err::<(), Error>(Error::TodoNotFound),
{
}

/// A deletion that is refused leaves the store as it is.
pub proof fn lemma_delete_absent(store: RecordStore, id: u32)
    requires
        !store.contains(id),
    ensures
        store.delete(id) == store,
{
}

/// An identifier whose record was deleted is never issued again, whatever
/// calls follow.
///
/// The ceiling is the one identifier left out: once the counter has stopped
/// there, every creation returns it.
pub proof fn lemma_deleted_never_reissued(store: RecordStore, id: u32, calls: Seq<Call>, k: int)
    requires
        store.wf(),
        store.contains(id),
        id < ID_CEILING,
        0 <= k < store.delete(id).issued(calls).len(),
    ensures
        store.delete(id).issued(calls)[k] != id,
{
    lemma_issued_counts_up(store.delete(id), calls, k);
}

/// A store that keeps a record under an identifier never issues that
/// identifier, unless it is the ceiling.
pub proof fn lemma_kept_never_issued(store: RecordStore, id: u32, calls: Seq<Call>, k: int)
    requires
        store.wf(),
        store.contains(id),
        id < ID_CEILING,
        0 <= k < store.issued(calls).len(),
    ensures
        store.issued(calls)[k] != id,
{
    lemma_issued_counts_up(store, calls, k);
}

/// A new store finds no record under any identifier: every lookup, update
/// and deletion is refused.
pub proof fn lemma_empty_finds_nothing(id: u32)
    ensures
        RecordStore::empty().read(id) == Err::<Record, Error>(Error::TodoNotFound),
        RecordStore::empty().require(id) == Err::<(), Error>(Error::TodoNotFound),
        RecordStore::empty().next_id == FIRST_ID,
{
}

} // verus!
