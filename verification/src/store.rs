//! A model of the persisted store, and what a registration does to it.
//!
//! The store maps an entry, that is a key and a value's name, to the value
//! held there. Nothing here runs: these are the definitions that the
//! registrar's contracts speak of, and the laws that follow from them.

use vstd::prelude::*;
use crate::registry::{Policy, RecordModel, ValueModel};

verus! {

/// An entry of the store: a key and the name of a value under it.
pub type Entry = (Seq<char>, Seq<char>);

/// The store: the value of every entry that is present.
pub type Store = Map<Entry, ValueModel>;

/// The value at `entry`, if the entry is present.
pub open spec fn lookup(store: Store, entry: Entry) -> Option<ValueModel> {
    if store.contains_key(entry) {
        Some(store[entry])
    } else {
        None
    }
}

/// The store after one record has been carried out: the value is written,
/// unless the record keeps what exists and the entry is present.
pub open spec fn written(store: Store, record: RecordModel) -> Store {
    if record.policy == Policy::KeepExisting && store.contains_key(record.entry()) {
        store
    } else {
        store.insert(record.entry(), record.value)
    }
}

/// The store after all of `records` have been carried out, first to last.
pub open spec fn registered(store: Store, records: Seq<RecordModel>) -> Store
    decreases records.len(),
{
    if records.len() == 0 {
        store
    } else {
        registered(written(store, records[0]), records.drop_first())
    }
}

/// What one record does to one entry, seen from that entry alone.
pub open spec fn entry_written(before: Option<ValueModel>, record: RecordModel, entry: Entry) -> Option<ValueModel> {
    if record.entry() != entry {
        before
    } else if record.policy == Policy::KeepExisting && before is Some {
        before
    } else {
        Some(record.value)
    }
}

/// What a list of records does to one entry, seen from that entry alone.
pub open spec fn entry_registered(before: Option<ValueModel>, records: Seq<RecordModel>, entry: Entry) -> Option<ValueModel>
    decreases records.len(),
{
    if records.len() == 0 {
        before
    } else {
        entry_registered(entry_written(before, records[0], entry), records.drop_first(), entry)
    }
}

/// No record of the list writes to `entry`.
pub open spec fn untouched(records: Seq<RecordModel>, entry: Entry) -> bool {
    forall|i: int| 0 <= i < records.len() ==> (#[trigger] records[i]).entry() != entry
}

/// Every record of the list that writes to `entry` keeps what exists.
pub open spec fn only_kept(records: Seq<RecordModel>, entry: Entry) -> bool {
    forall|i: int| 0 <= i < records.len() && (#[trigger] records[i]).entry() == entry
        ==> records[i].policy == Policy::KeepExisting
}

/// No two records of the list write to the same entry.
pub open spec fn entries_distinct(records: Seq<RecordModel>) -> bool {
    forall|i: int, j: int| 0 <= i < j < records.len()
        ==> (#[trigger] records[i]).entry() != (#[trigger] records[j]).entry()
}

/// Entries do not interfere: the store after a list of records holds at each
/// entry what the records do to that entry alone.
pub proof fn law_entries_are_independent(store: Store, records: Seq<RecordModel>, entry: Entry)
    ensures
        lookup(registered(store, records), entry) == entry_registered(lookup(store, entry), records, entry),
    decreases records.len(),
{
    if records.len() > 0 {
        law_entries_are_independent(written(store, records[0]), records.drop_first(), entry);
    }
}

/// An entry that is present stays present.
pub proof fn law_present_stays_present(before: Option<ValueModel>, records: Seq<RecordModel>, entry: Entry)
    requires
        before is Some,
    ensures
        entry_registered(before, records, entry) is Some,
    decreases records.len(),
{
    if records.len() > 0 {
        law_present_stays_present(entry_written(before, records[0], entry), records.drop_first(), entry);
    }
}

/// An entry that no record writes to is left as it was.
pub proof fn law_untouched_entry_unchanged(before: Option<ValueModel>, records: Seq<RecordModel>, entry: Entry)
    requires
        untouched(records, entry),
    ensures
        entry_registered(before, records, entry) == before,
    decreases records.len(),
{
    if records.len() > 0 {
        let rest = records.drop_first();
        assert(records[0].entry() != entry);
        assert forall|i: int| 0 <= i < rest.len() implies (#[trigger] rest[i]).entry() != entry by {
            assert(rest[i] == records[i + 1]);
        }
        law_untouched_entry_unchanged(before, rest, entry);
    }
}

/// A value that exists survives every list of records that only keep: the
/// default that such a record carries is never written over it.
pub proof fn law_existing_value_is_kept(value: ValueModel, records: Seq<RecordModel>, entry: Entry)
    requires
        only_kept(records, entry),
    ensures
        entry_registered(Some(value), records, entry) == Some(value),
    decreases records.len(),
{
    if records.len() > 0 {
        let rest = records.drop_first();
        assert(records[0].entry() == entry ==> records[0].policy == Policy::KeepExisting);
        assert forall|i: int| 0 <= i < rest.len() && (#[trigger] rest[i]).entry() == entry implies rest[i].policy
            == Policy::KeepExisting by {
            assert(rest[i] == records[i + 1]);
        }
        law_existing_value_is_kept(value, rest, entry);
    }
}

/// Doing the same records a second time changes nothing at any entry.
pub proof fn law_entry_idempotent(before: Option<ValueModel>, records: Seq<RecordModel>, entry: Entry)
    ensures
        entry_registered(entry_registered(before, records, entry), records, entry) == entry_registered(
            before,
            records,
            entry,
        ),
    decreases records.len(),
{
    if records.len() > 0 {
        let first = records[0];
        let rest = records.drop_first();
        let started = entry_written(before, first, entry);
        let ended = entry_registered(started, rest, entry);
        law_entry_idempotent(started, rest, entry);
        if first.entry() == entry {
            law_present_stays_present(started, rest, entry);
            if first.policy == Policy::Overwrite {
                assert(entry_written(ended, first, entry) == started);
            } else {
                assert(entry_written(ended, first, entry) == ended);
            }
        }
    }
}

/// Registration is idempotent: carrying out the same records twice in a row
/// leaves the store as carrying them out once does.
pub proof fn law_registration_is_idempotent(store: Store, records: Seq<RecordModel>)
    ensures
        registered(registered(store, records), records) == registered(store, records),
{
    let once = registered(store, records);
    let twice = registered(once, records);
    assert forall|entry: Entry| lookup(twice, entry) == lookup(once, entry) by {
        law_entries_are_independent(store, records, entry);
        law_entries_are_independent(once, records, entry);
        law_entry_idempotent(lookup(store, entry), records, entry);
    }
    assert forall|entry: Entry| twice.contains_key(entry) == once.contains_key(entry) by {
        assert(lookup(twice, entry) == lookup(once, entry));
    }
    assert forall|entry: Entry| twice.contains_key(entry) implies twice[entry] == once[entry] by {
        assert(lookup(twice, entry) == lookup(once, entry));
    }
    assert(twice =~= once);
}

/// Where no two records write to the same entry, each record decides its own
/// entry: the value is the record's, unless the record keeps what exists and
/// the entry was present before, in which case the value is the earlier one.
pub proof fn law_record_decides_its_entry(store: Store, records: Seq<RecordModel>, index: int)
    requires
        entries_distinct(records),
        0 <= index < records.len(),
    ensures
        lookup(registered(store, records), records[index].entry()) == entry_written(
            lookup(store, records[index].entry()),
            records[index],
            records[index].entry(),
        ),
    decreases records.len(),
{
    let entry = records[index].entry();
    let first = records[0];
    let rest = records.drop_first();
    let next = written(store, first);
    assert forall|i: int, j: int| 0 <= i < j < rest.len() implies (#[trigger] rest[i]).entry() != (
    #[trigger] rest[j]).entry() by {
        assert(rest[i] == records[i + 1]);
        assert(rest[j] == records[j + 1]);
    }
    if index == 0 {
        assert forall|i: int| 0 <= i < rest.len() implies (#[trigger] rest[i]).entry() != entry by {
            assert(rest[i] == records[i + 1]);
        }
        law_entries_are_independent(next, rest, entry);
        law_untouched_entry_unchanged(lookup(next, entry), rest, entry);
    } else {
        assert(rest[index - 1] == records[index]);
        assert(first.entry() != entry);
        law_record_decides_its_entry(next, rest, index - 1);
    }
}

/// After a registration every record's entry is present.
pub proof fn law_every_entry_is_present(store: Store, records: Seq<RecordModel>, index: int)
    requires
        0 <= index < records.len(),
    ensures
        registered(store, records).contains_key(records[index].entry()),
    decreases records.len(),
{
    let entry = records[index].entry();
    let rest = records.drop_first();
    let next = written(store, records[0]);
    if index == 0 {
        law_entries_are_independent(next, rest, entry);
        law_present_stays_present(lookup(next, entry), rest, entry);
    } else {
        assert(rest[index - 1] == records[index]);
        law_every_entry_is_present(next, rest, index - 1);
    }
}

/// Carrying out two lists one after the other is carrying out their concatenation.
pub proof fn law_registration_composes(store: Store, front: Seq<RecordModel>, back: Seq<RecordModel>)
    ensures
        registered(store, front + back) == registered(registered(store, front), back),
    decreases front.len(),
{
    if front.len() == 0 {
        assert(front + back =~= back);
    } else {
        assert((front + back)[0] == front[0]);
        assert((front + back).drop_first() =~= front.drop_first() + back);
        law_registration_composes(written(store, front[0]), front.drop_first(), back);
    }
}

} // verus!
