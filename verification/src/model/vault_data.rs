//! The vault's plaintext document: a schema version and the list of entries,
//! with the lookups and edits that the entry commands make on it.

use vstd::prelude::*;
use vstd::string::*;

use super::entry::{
    entry_from_input, summary_of, Entry, EntryInputModel, EntryModel, EntrySummary,
    EntrySummaryModel, UpdateEntryInput,
};

verus! {

/// The document schema this code writes.
pub const CURRENT_SCHEMA_VERSION: u32 = 1;

/// The decrypted contents of a vault.
#[derive(Debug, Clone)]
pub struct VaultData {
    pub schema_version: u32,
    pub entries: Vec<Entry>,
}

/// A [`VaultData`] with its entries as models.
pub struct VaultDataModel {
    pub schema_version: u32,
    pub entries: Seq<EntryModel>,
}

/// The models of a list of entries.
pub open spec fn entry_models(v: Seq<Entry>) -> Seq<EntryModel> {
    v.map_values(|e: Entry| e@)
}

/// The models of a list of summaries.
pub open spec fn summary_models(v: Seq<EntrySummary>) -> Seq<EntrySummaryModel> {
    v.map_values(|s: EntrySummary| s@)
}

impl View for VaultData {
    type V = VaultDataModel;

    open spec fn view(&self) -> VaultDataModel {
        VaultDataModel { schema_version: self.schema_version, entries: entry_models(self.entries@) }
    }
}

/// `i` is the position of the first entry with identifier `id`.
pub open spec fn is_first_with_id(entries: Seq<EntryModel>, id: Seq<char>, i: int) -> bool {
    &&& 0 <= i < entries.len()
    &&& entries[i].id == id
    &&& forall|j: int| 0 <= j < i ==> entries[j].id != id
}

/// Whether some entry has identifier `id`.
pub open spec fn has_id(entries: Seq<EntryModel>, id: Seq<char>) -> bool {
    exists|i: int| 0 <= i < entries.len() && entries[i].id == id
}

/// The position of the first entry with identifier `id`, if any.
pub open spec fn position_of(entries: Seq<EntryModel>, id: Seq<char>) -> Option<int> {
    if exists|i: int| is_first_with_id(entries, id, i) {
        Some(choose|i: int| is_first_with_id(entries, id, i))
    } else {
        None
    }
}

/// The entries without those whose identifier is `id`, in their order.
pub open spec fn without_id(entries: Seq<EntryModel>, id: Seq<char>) -> Seq<EntryModel>
    decreases entries.len(),
{
    if entries.len() == 0 {
        entries
    } else {
        let rest = without_id(entries.drop_last(), id);
        if entries.last().id == id {
            rest
        } else {
            rest.push(entries.last())
        }
    }
}

/// `e` with the user's new fields and modification time; its identifier and
/// creation time stay.
pub open spec fn edited(e: EntryModel, input: EntryInputModel, now: i64) -> EntryModel {
    entry_from_input(e.id, input, e.created_at, now)
}

/// There is at most one first entry with a given identifier.
pub proof fn lemma_first_unique(entries: Seq<EntryModel>, id: Seq<char>, i: int, k: int)
    requires
        is_first_with_id(entries, id, i),
        is_first_with_id(entries, id, k),
    ensures
        i == k,
{
}

/// When some entry has identifier `id`, a first one does.
pub proof fn lemma_first_exists(entries: Seq<EntryModel>, id: Seq<char>, k: int)
    requires
        0 <= k < entries.len(),
        entries[k].id == id,
    ensures
        exists|i: int| is_first_with_id(entries, id, i),
    decreases k,
{
    if exists|j: int| 0 <= j < k && entries[j].id == id {
        let j = choose|j: int| 0 <= j < k && entries[j].id == id;
        lemma_first_exists(entries, id, j);
    } else {
        assert(is_first_with_id(entries, id, k));
    }
}

/// The first entry with `id` is found exactly when some entry has it.
pub proof fn lemma_position_found(entries: Seq<EntryModel>, id: Seq<char>)
    ensures
        position_of(entries, id) is Some <==> has_id(entries, id),
        position_of(entries, id) matches Some(i) ==> is_first_with_id(entries, id, i),
{
    if has_id(entries, id) {
        let k = choose|k: int| 0 <= k < entries.len() && entries[k].id == id;
        lemma_first_exists(entries, id, k);
    }
}

/// Removing the entries with `id` keeps the others, in order, and shortens
/// the list exactly when some entry had `id`.
pub proof fn lemma_without_id(entries: Seq<EntryModel>, id: Seq<char>)
    ensures
        without_id(entries, id).len() <= entries.len(),
        without_id(entries, id).len() == entries.len() <==> !has_id(entries, id),
        !has_id(entries, id) ==> without_id(entries, id) == entries,
        !has_id(without_id(entries, id), id),
    decreases entries.len(),
{
    if entries.len() > 0 {
        let init = entries.drop_last();
        lemma_without_id(init, id);
        if has_id(init, id) {
            let k = choose|k: int| 0 <= k < init.len() && init[k].id == id;
            assert(entries[k].id == id);
        }
        if entries.last().id == id {
            assert(entries[entries.len() - 1].id == id);
        } else if !has_id(init, id) {
            assert forall|k: int| 0 <= k < entries.len() implies entries[k].id != id by {
                if k < init.len() {
                    assert(init[k] == entries[k]);
                }
            }
            assert(entries =~= init.push(entries.last()));
        }
        let r = without_id(entries, id);
        let ri = without_id(init, id);
        assert forall|k: int| 0 <= k < r.len() implies r[k].id != id by {
            if k < ri.len() {
                assert(r[k] == ri[k]);
            }
        }
    }
}

/// Removing the entries with `id` keeps exactly the other identifiers.
pub proof fn lemma_without_id_members(entries: Seq<EntryModel>, id: Seq<char>, other: Seq<char>)
    ensures
        has_id(without_id(entries, id), other) <==> has_id(entries, other) && other != id,
    decreases entries.len(),
{
    if entries.len() > 0 {
        let init = entries.drop_last();
        lemma_without_id_members(init, id, other);
        lemma_without_id(entries, id);
        let r = without_id(entries, id);
        let ri = without_id(init, id);
        if has_id(r, other) {
            let k = choose|k: int| 0 <= k < r.len() && r[k].id == other;
            if k < ri.len() {
                assert(ri[k] == r[k]);
            } else {
                assert(entries[entries.len() - 1].id == other);
            }
        }
        if has_id(entries, other) && other != id {
            let k = choose|k: int| 0 <= k < entries.len() && entries[k].id == other;
            if k < init.len() {
                assert(init[k] == entries[k]);
                let m = choose|m: int| 0 <= m < ri.len() && ri[m].id == other;
                assert(r[m] == ri[m]);
            } else {
                assert(r[r.len() - 1].id == other);
            }
        }
    }
}

impl Default for VaultData {
    /// An empty document in the current schema.
    fn default() -> (r: Self)
        ensures
            r@.schema_version == CURRENT_SCHEMA_VERSION,
            r@.entries.len() == 0,
    {
        VaultData { schema_version: CURRENT_SCHEMA_VERSION, entries: Vec::new() }
    }
}

impl VaultData {
    /// The summaries of the entries, in order.
    pub fn summaries(&self) -> (r: Vec<EntrySummary>)
        ensures
            summary_models(r@) == self@.entries.map_values(|e: EntryModel| summary_of(e)),
    {
        let mut r: Vec<EntrySummary> = Vec::new();
        let n = self.entries.len();
        for i in 0..n
            invariant
                n == self.entries@.len(),
                r@.len() == i,
                forall|j: int| 0 <= j < i ==> #[trigger] r@[j]@ == summary_of(self.entries@[j]@),
        {
            r.push(EntrySummary::from_entry(&self.entries[i]));
        }
        proof {
            assert(summary_models(r@) =~= self@.entries.map_values(|e: EntryModel| summary_of(e)));
        }
        r
    }

    /// The position of the first entry with identifier `id`.
    pub fn position(&self, id: &str) -> (r: Option<usize>)
        ensures
            match r {
                Some(i) => position_of(self@.entries, id@) == Some(i as int),
                None => position_of(self@.entries, id@) is None,
            },
    {
        let wanted = String::from_str(id);
        let n = self.entries.len();
        for i in 0..n
            invariant
                n == self.entries@.len(),
                wanted@ == id@,
                forall|j: int| 0 <= j < i ==> #[trigger] self@.entries[j].id != id@,
        {
            if self.entries[i].id == wanted {
                proof {
                    assert(is_first_with_id(self@.entries, id@, i as int));
                    lemma_position_found(self@.entries, id@);
                    let k = position_of(self@.entries, id@)->Some_0;
                    lemma_first_unique(self@.entries, id@, i as int, k);
                }
                return Some(i);
            }
        }
        proof {
            lemma_position_found(self@.entries, id@);
        }
        None
    }

    /// Removes every entry with identifier `id`; tells whether any was.
    pub fn remove_with_id(&mut self, id: &str) -> (r: bool)
        ensures
            r == has_id(old(self)@.entries, id@),
            final(self)@.schema_version == old(self)@.schema_version,
            final(self)@.entries == without_id(old(self)@.entries, id@),
    {
        let wanted = String::from_str(id);
        let mut kept: Vec<Entry> = Vec::new();
        let n = self.entries.len();
        for i in 0..n
            invariant
                n == self.entries@.len(),
                wanted@ == id@,
                entry_models(kept@) == without_id(self@.entries.take(i as int), id@),
        {
            proof {
                assert(self@.entries.take(i + 1).drop_last() =~= self@.entries.take(i as int));
                assert(self@.entries.take(i + 1).last() == self.entries@[i as int]@);
            }
            if !(self.entries[i].id == wanted) {
                let e = self.entries[i].duplicate();
                kept.push(e);
                proof {
                    assert(entry_models(kept@) =~= without_id(self@.entries.take(i as int), id@).push(
                        e@,
                    ));
                }
            }
        }
        proof {
            assert(self@.entries.take(n as int) =~= self@.entries);
            lemma_without_id(self@.entries, id@);
        }
        let removed = kept.len() != n;
        self.entries = kept;
        removed
    }

    /// Replaces the user's fields of the entry at `index` and stamps its
    /// modification time; returns the new summary.
    pub fn edit_at(&mut self, index: usize, input: UpdateEntryInput, now: i64) -> (r: EntrySummary)
        requires
            index < old(self)@.entries.len(),
        ensures
            final(self)@.schema_version == old(self)@.schema_version,
            final(self)@.entries == old(self)@.entries.update(
                index as int,
                edited(old(self)@.entries[index as int], input@, now),
            ),
            r@ == summary_of(final(self)@.entries[index as int]),
    {
        let ghost input_view = input@;
        let id = self.entries[index].id.clone();
        let created_at = self.entries[index].created_at;
        let entry = Entry {
            id,
            title: input.title,
            username: input.username,
            password: input.password,
            url: input.url,
            notes: input.notes,
            tags: input.tags,
            created_at,
            updated_at: now,
        };
        let summary = EntrySummary::from_entry(&entry);
        let ghost new_view = entry@;
        self.entries[index] = entry;
        proof {
            assert(new_view == edited(old(self)@.entries[index as int], input_view, now));
            assert(entry_models(self.entries@) =~= old(self)@.entries.update(index as int, new_view));
        }
        summary
    }
}

} // verus!
