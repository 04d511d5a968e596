//! The vault session: locked, or unlocked with the derived key, the vault
//! file and its decrypted document. Every entry command works on an unlocked
//! session and reports [`AppError::Locked`] otherwise; the caller stores the
//! document and the vault file that these operations produce.

use vstd::prelude::*;

use crate::clipboard::hex_text;
use crate::clock::now_unix;
use crate::crypto::cipher::aes_gcm_accepts;
use crate::crypto::kdf::{KEY_LEN, MAX_CHECKED_PARALLELISM};
use crate::crypto::random::os_random_bytes;
use crate::crypto::secret::{bytes_held, key_held, reveal_key, SecretBytes, SecretKey};
use crate::crypto::vault_file::{
    create_refusal, created, derivation_checkable, header_aad, law_reencrypt_then_unlock,
    reaches_key_derivation, same_but_seal, seal_fits, sealed, unlocked, VaultFile, VaultFileModel,
};
use crate::error::{
    reported, reports_environment, AppError, AppErrorModel, CryptoError, CryptoErrorModel,
};
use crate::model::entry::{
    entry_from_input, summary_of, ClipboardField, Entry, EntryInputModel, EntryModel, EntrySummary,
    NewEntryInput, UpdateEntryInput,
};
use crate::model::vault_data::{
    edited, has_id, is_first_with_id, lemma_first_unique, lemma_position_found, lemma_without_id,
    lemma_without_id_members, position_of, summary_models, without_id, VaultData, VaultDataModel,
};

verus! {

/// The bytes of the version-4 UUID made from sixteen random bytes: the high
/// half of byte 6 holds the version, 4, and the top two bits of byte 8 the
/// variant, binary 10.
pub open spec fn uuid_v4_bytes(random: Seq<u8>) -> Seq<u8> {
    random.update(6, (random[6] & 0x0f) | 0x40).update(8, (random[8] & 0x3f) | 0x80)
}

/// The hyphenated form of a UUID's sixteen bytes: lower-case hexadecimal in
/// groups of four, two, two, two and six bytes, joined by hyphens.
pub open spec fn uuid_hyphenated(b: Seq<u8>) -> Seq<char> {
    hex_text(b.subrange(0, 4)) + seq!['-'] + hex_text(b.subrange(4, 6)) + seq!['-'] + hex_text(
        b.subrange(6, 8),
    ) + seq!['-'] + hex_text(b.subrange(8, 10)) + seq!['-'] + hex_text(b.subrange(10, 16))
}

/// Whether `id` is the hyphenated form of some version-4 UUID.
pub open spec fn is_uuid_v4_text(id: Seq<char>) -> bool {
    exists|random: Seq<u8>|
        random.len() == 16 && id == #[trigger] uuid_hyphenated(uuid_v4_bytes(random))
}

/// The hexadecimal text of `bytes` has two digits per byte.
proof fn lemma_hex_text_len(bytes: Seq<u8>)
    ensures
        hex_text(bytes).len() == 2 * bytes.len(),
    decreases bytes.len(),
{
    if bytes.len() > 0 {
        lemma_hex_text_len(bytes.drop_last());
    }
}

/// `Builder::from_random_bytes(..).into_uuid().to_string()` of the `uuid`
/// crate. Claimed of the crate: it sets the version and variant bits of the
/// random bytes (see [`uuid_v4_bytes`]) and writes the result in hyphenated
/// lower-case form (see [`uuid_hyphenated`]).
#[verifier::external_body]
fn uuid_v4_text(random: [u8; 16]) -> (r: String)
    ensures
        r@ == uuid_hyphenated(uuid_v4_bytes(random@)),
{
    uuid::Builder::from_random_bytes(random).into_uuid().to_string()
}

/// A fresh entry identifier: a random version-4 UUID in hyphenated form,
/// 36 characters long. A failure of the random number generator is reported
/// as [`CryptoError::Random`].
pub fn new_entry_id() -> (r: Result<String, CryptoError>)
    ensures
        r is Ok ==> is_uuid_v4_text(r->Ok_0@) && r->Ok_0@.len() == 36,
        r is Err ==> r->Err_0@ is Random,
{
    match os_random_bytes::<16>() {
        Ok(random) => {
            let id = uuid_v4_text(random);
            proof {
                let b = uuid_v4_bytes(random@);
                lemma_hex_text_len(b.subrange(0, 4));
                lemma_hex_text_len(b.subrange(4, 6));
                lemma_hex_text_len(b.subrange(6, 8));
                lemma_hex_text_len(b.subrange(8, 10));
                lemma_hex_text_len(b.subrange(10, 16));
            }
            Ok(id)
        },
        Err(m) => Err(CryptoError::Random(m)),
    }
}

/// The state of the vault in memory.
pub enum VaultSession {
    Locked,
    Unlocked { key: SecretKey, vault_file: VaultFile, data: VaultData },
}

/// The entry that a lookup by identifier finds: the first one with it.
pub open spec fn entry_lookup(entries: Seq<EntryModel>, id: Seq<char>) -> Option<EntryModel> {
    match position_of(entries, id) {
        Some(i) => Some(entries[i]),
        None => None,
    }
}

/// A new entry is found by its identifier: after an entry is appended whose
/// identifier no earlier entry has, looking that identifier up gives the new
/// entry.
pub proof fn law_add_then_get(entries: Seq<EntryModel>, e: EntryModel)
    requires
        !has_id(entries, e.id),
    ensures
        entry_lookup(entries.push(e), e.id) == Some(e),
{
    let after = entries.push(e);
    assert(is_first_with_id(after, e.id, entries.len() as int));
    lemma_position_found(after, e.id);
    lemma_first_unique(after, e.id, entries.len() as int, position_of(after, e.id)->Some_0);
}

/// Appending an entry leaves what earlier identifiers find unchanged.
pub proof fn law_add_keeps_lookups(entries: Seq<EntryModel>, e: EntryModel, id: Seq<char>)
    requires
        has_id(entries, id),
    ensures
        entry_lookup(entries.push(e), id) == entry_lookup(entries, id),
{
    let after = entries.push(e);
    lemma_position_found(entries, id);
    let i = position_of(entries, id)->Some_0;
    assert(is_first_with_id(after, id, i));
    lemma_position_found(after, id);
    lemma_first_unique(after, id, i, position_of(after, id)->Some_0);
}

/// Listing after an append gives the earlier list followed by the new
/// entry's summary.
pub proof fn law_add_then_list(entries: Seq<EntryModel>, e: EntryModel)
    ensures
        entries.push(e).map_values(|x: EntryModel| summary_of(x)) == entries.map_values(
            |x: EntryModel| summary_of(x),
        ).push(summary_of(e)),
{
    assert(entries.push(e).map_values(|x: EntryModel| summary_of(x)) =~= entries.map_values(
        |x: EntryModel| summary_of(x),
    ).push(summary_of(e)));
}

/// An edit is what a later lookup finds: after the first entry with `id` is
/// edited, looking `id` up gives the edited entry, which keeps its
/// identifier and creation time and carries the user's fields.
pub proof fn law_update_then_get(
    entries: Seq<EntryModel>,
    id: Seq<char>,
    input: EntryInputModel,
    now: i64,
)
    requires
        position_of(entries, id) is Some,
    ensures
        ({
            let i = position_of(entries, id)->Some_0;
            let after = entries.update(i, edited(entries[i], input, now));
            &&& entry_lookup(after, id) == Some(edited(entries[i], input, now))
            &&& edited(entries[i], input, now) == entry_from_input(
                id,
                input,
                entries[i].created_at,
                now,
            )
        }),
{
    lemma_position_found(entries, id);
    let i = position_of(entries, id)->Some_0;
    let after = entries.update(i, edited(entries[i], input, now));
    assert(is_first_with_id(after, id, i));
    lemma_position_found(after, id);
    lemma_first_unique(after, id, i, position_of(after, id)->Some_0);
}

/// A deleted identifier is gone: after the entries with `id` are removed,
/// looking `id` up finds nothing and no summary in the list carries it.
pub proof fn law_delete_then_get(entries: Seq<EntryModel>, id: Seq<char>)
    ensures
        entry_lookup(without_id(entries, id), id) is None,
        forall|k: int|
            0 <= k < without_id(entries, id).len() ==> #[trigger] without_id(entries, id)[k].id
                != id,
{
    lemma_without_id(entries, id);
    lemma_position_found(without_id(entries, id), id);
}

/// Deleting one identifier leaves every other lookup as it was.
pub proof fn law_delete_keeps_others(entries: Seq<EntryModel>, id: Seq<char>, other: Seq<char>)
    requires
        other != id,
    ensures
        entry_lookup(without_id(entries, id), other) == entry_lookup(entries, other),
    decreases entries.len(),
{
    if entries.len() > 0 {
        let init = entries.drop_last();
        let last = entries.last();
        assert(entries =~= init.push(last));
        law_delete_keeps_others(init, id, other);
        lemma_without_id_members(init, id, other);
        let ri = without_id(init, id);
        if has_id(init, other) {
            law_add_keeps_lookups(init, last, other);
            if last.id != id {
                law_add_keeps_lookups(ri, last, other);
            }
        } else if last.id == other {
            law_add_then_get(init, last);
            law_add_then_get(ri, last);
        } else {
            lemma_position_found(entries, other);
            lemma_position_found(init, other);
            lemma_position_found(ri, other);
            if has_id(entries, other) {
                let k = choose|k: int| 0 <= k < entries.len() && entries[k].id == other;
                assert(init[k] == entries[k]);
            }
            lemma_without_id_members(entries, id, other);
            lemma_position_found(without_id(entries, id), other);
        }
    } else {
        lemma_position_found(entries, other);
        lemma_position_found(without_id(entries, id), other);
    }
}

impl VaultSession {
    /// An unlocked session's vault file can be unlocked again (see
    /// [`derivation_checkable`]).
    pub open spec fn well_formed(&self) -> bool {
        match self {
            VaultSession::Locked => true,
            VaultSession::Unlocked { vault_file, .. } => derivation_checkable(vault_file@),
        }
    }

    /// The session is unlocked with the key that `password` derives for its
    /// vault file, which `password` unlocks.
    pub open spec fn unlocks_with(&self, password: Seq<char>) -> bool {
        &&& *self is Unlocked
        &&& unlocked(self.file_view(), password) is Ok
        &&& unlocked(self.file_view(), password)->Ok_0.0 == self.key_view()
    }

    /// The key of an unlocked session.
    pub open spec fn key_view(&self) -> Seq<u8> {
        match self {
            VaultSession::Unlocked { key, .. } => key_held(*key),
            VaultSession::Locked => Seq::empty(),
        }
    }

    /// The vault file of an unlocked session.
    pub open spec fn file_view(&self) -> VaultFileModel
        recommends
            self is Unlocked,
    {
        match self {
            VaultSession::Unlocked { vault_file, .. } => vault_file@,
            VaultSession::Locked => arbitrary(),
        }
    }

    /// The document of an unlocked session.
    pub open spec fn data_view(&self) -> VaultDataModel
        recommends
            self is Unlocked,
    {
        match self {
            VaultSession::Unlocked { data, .. } => data@,
            VaultSession::Locked => arbitrary(),
        }
    }

    /// `new` is `old` with only its document's entries replaced by `entries`.
    pub open spec fn entries_replaced(old: VaultSession, new: VaultSession, entries: Seq<
        EntryModel,
    >) -> bool {
        &&& new is Unlocked
        &&& new.key_view() == old.key_view()
        &&& new.file_view() == old.file_view()
        &&& new.data_view().schema_version == old.data_view().schema_version
        &&& new.data_view().entries == entries
    }

    /// Whether the vault is unlocked.
    pub fn is_unlocked(&self) -> (r: bool)
        ensures
            r == self is Unlocked,
    {
        match self {
            VaultSession::Locked => false,
            VaultSession::Unlocked { .. } => true,
        }
    }

    /// Forgets the key and the document.
    pub fn lock(&mut self)
        ensures
            *final(self) is Locked,
    {
        *self = VaultSession::Locked;
    }

    /// The summaries of all entries, in order.
    pub fn list_entries(&self) -> (r: Result<Vec<EntrySummary>, AppError>)
        ensures
            self is Locked ==> r is Err && r->Err_0@ == AppErrorModel::Locked,
            self is Unlocked ==> r is Ok && summary_models(r->Ok_0@) == self.data_view().entries.map_values(
                |e: EntryModel| summary_of(e),
            ),
            self is Unlocked ==> r is Ok && r->Ok_0@.len() == self.data_view().entries.len(),
            self is Unlocked ==> forall|i: int|
                0 <= i < self.data_view().entries.len() ==> {
                    let s = #[trigger] r->Ok_0@[i]@;
                    let e = self.data_view().entries[i];
                    &&& s.id == e.id
                    &&& s.title == e.title
                    &&& s.username == e.username
                    &&& s.url == e.url
                    &&& s.tags == e.tags
                },
    {
        match self {
            VaultSession::Locked => Err(AppError::Locked),
            VaultSession::Unlocked { data, .. } => {
                let list = data.summaries();
                proof {
                    let entries = data@.entries;
                    let shown = entries.map_values(|e: EntryModel| summary_of(e));
                    assert(summary_models(list@).len() == list@.len());
                    assert(shown.len() == entries.len());
                    assert forall|i: int| 0 <= i < entries.len() implies #[trigger] list@[i]@
                        == summary_of(entries[i]) by {
                        assert(summary_models(list@)[i] == list@[i]@);
                        assert(shown[i] == summary_of(entries[i]));
                    }
                }
                Ok(list)
            },
        }
    }

    /// A copy of the first entry with identifier `id`.
    pub fn get_entry(&self, id: &str) -> (r: Result<Entry, AppError>)
        ensures
            self is Locked ==> r is Err && r->Err_0@ == AppErrorModel::Locked,
            self is Unlocked ==> match entry_lookup(self.data_view().entries, id@) {
                Some(e) => r is Ok && r->Ok_0@ == e,
                None => r is Err && r->Err_0@ == AppErrorModel::NotFound,
            },
    {
        match self {
            VaultSession::Locked => Err(AppError::Locked),
            VaultSession::Unlocked { data, .. } => match data.position(id) {
                Some(i) => Ok(data.entries[i].duplicate()),
                None => Err(AppError::NotFound),
            },
        }
    }

    /// The value of an entry's username or password, for the clipboard.
    pub fn clipboard_value(&self, id: &str, field: ClipboardField) -> (r: Result<String, AppError>)
        ensures
            self is Locked ==> r is Err && r->Err_0@ == AppErrorModel::Locked,
            self is Unlocked ==> match entry_lookup(self.data_view().entries, id@) {
                Some(e) => r is Ok && r->Ok_0@ == (match field {
                    ClipboardField::Username => e.username,
                    ClipboardField::Password => e.password,
                }),
                None => r is Err && r->Err_0@ == AppErrorModel::NotFound,
            },
    {
        let entry = self.get_entry(id)?;
        Ok(entry.field_value(field))
    }

    /// Appends a new entry made from `input`, with a fresh random identifier
    /// and the current time as both its creation and modification time;
    /// returns its summary. When the clock or the random number generator
    /// cannot be read, that failure is reported and nothing changes.
    pub fn add_entry(&mut self, input: NewEntryInput) -> (r: Result<EntrySummary, AppError>)
        ensures
            *old(self) is Locked ==> r is Err && r->Err_0@ == AppErrorModel::Locked && *final(self)
                == *old(self),
            *old(self) is Unlocked ==> r is Ok || (reports_environment(r->Err_0@) && *final(self)
                == *old(self)),
            r is Ok ==> {
                let entries = final(self).data_view().entries;
                let e = entries.last();
                &&& VaultSession::entries_replaced(*old(self), *final(self), entries)
                &&& entries.drop_last() == old(self).data_view().entries
                &&& entries.len() == old(self).data_view().entries.len() + 1
                &&& e == entry_from_input(e.id, input@, e.created_at, e.created_at)
                &&& is_uuid_v4_text(e.id)
                &&& e.id.len() == 36
                &&& !has_id(old(self).data_view().entries, e.id)
                &&& entry_lookup(entries, r->Ok_0@.id) == Some(e)
                &&& r->Ok_0@ == summary_of(e)
            },
            final(self).well_formed() == old(self).well_formed(),
    {
        if !self.is_unlocked() {
            return Err(AppError::Locked);
        }
        let now = match now_unix() {
            Some(t) => t,
            None => {
                return Err(VaultSession::environment_error(CryptoError::Clock));
            },
        };
        let id = match new_entry_id() {
            Ok(id) => id,
            Err(e) => {
                return Err(VaultSession::environment_error(e));
            },
        };
        let in_use = match self.data() {
            Some(data) => data.position(id.as_str()).is_some(),
            None => false,
        };
        if in_use {
            return Err(
                VaultSession::environment_error(
                    CryptoError::Random(String::from_str("entry identifier drawn twice")),
                ),
            );
        }
        let ghost new_id = id@;
        let r = self.add_entry_at(input, id, now);
        proof {
            let before = old(self).data_view().entries;
            let entries = self.data_view().entries;
            assert(entries.drop_last() =~= before);
            lemma_position_found(before, new_id);
            law_add_then_get(before, entries.last());
        }
        r
    }

    /// Appends the entry made from `input` with identifier `id` and `now` as
    /// both its creation and modification time; returns its summary.
    pub fn add_entry_at(&mut self, input: NewEntryInput, id: String, now: i64) -> (r: Result<
        EntrySummary,
        AppError,
    >)
        ensures
            *old(self) is Locked ==> r is Err && r->Err_0@ == AppErrorModel::Locked && *final(self)
                == *old(self),
            *old(self) is Unlocked ==> {
                let e = entry_from_input(id@, input@, now, now);
                &&& r is Ok
                &&& VaultSession::entries_replaced(
                    *old(self),
                    *final(self),
                    old(self).data_view().entries.push(e),
                )
                &&& r->Ok_0@ == summary_of(e)
            },
            final(self).well_formed() == old(self).well_formed(),
    {
        match self {
            VaultSession::Locked => Err(AppError::Locked),
            VaultSession::Unlocked { data, .. } => {
                let entry = Entry {
                    id,
                    title: input.title,
                    username: input.username,
                    password: input.password,
                    url: input.url,
                    notes: input.notes,
                    tags: input.tags,
                    created_at: now,
                    updated_at: now,
                };
                let summary = EntrySummary::from_entry(&entry);
                let ghost before = data@.entries;
                let ghost e = entry@;
                data.entries.push(entry);
                proof {
                    assert(data@.entries =~= before.push(e));
                }
                Ok(summary)
            },
        }
    }

    /// Reports a failure of the clock or of the random number generator.
    fn environment_error(e: CryptoError) -> (r: AppError)
        requires
            e@.is_environment(),
        ensures
            reports_environment(r@),
    {
        let r = AppError::from_crypto(e);
        proof {
            assert(e@.is_environment() && reported(e@) == r@);
        }
        r
    }

    /// Replaces the user's fields of the first entry with identifier `id` and
    /// stamps its modification time with the current time; returns its new
    /// summary. When the clock cannot be read, that failure is reported and
    /// nothing changes.
    pub fn update_entry(&mut self, id: &str, input: UpdateEntryInput) -> (r: Result<
        EntrySummary,
        AppError,
    >)
        ensures
            *old(self) is Locked ==> r is Err && r->Err_0@ == AppErrorModel::Locked && *final(self)
                == *old(self),
            *old(self) is Unlocked ==> match position_of(old(self).data_view().entries, id@) {
                None => r is Err && r->Err_0@ == AppErrorModel::NotFound && *final(self)
                    == *old(self),
                Some(i) => r is Ok || (reports_environment(r->Err_0@) && *final(self)
                    == *old(self)),
            },
            r is Ok ==> {
                let i = position_of(old(self).data_view().entries, id@)->Some_0;
                let entries = final(self).data_view().entries;
                let old_entries = old(self).data_view().entries;
                &&& position_of(old_entries, id@) is Some
                &&& VaultSession::entries_replaced(
                    *old(self),
                    *final(self),
                    old_entries.update(i, edited(old_entries[i], input@, entries[i].updated_at)),
                )
                &&& r->Ok_0@ == summary_of(entries[i])
            },
            final(self).well_formed() == old(self).well_formed(),
    {
        match self {
            VaultSession::Locked => Err(AppError::Locked),
            VaultSession::Unlocked { data, .. } => match data.position(id) {
                None => Err(AppError::NotFound),
                Some(i) => {
                    let now = match now_unix() {
                        Some(t) => t,
                        None => {
                            return Err(VaultSession::environment_error(CryptoError::Clock));
                        },
                    };
                    Ok(data.edit_at(i, input, now))
                },
            },
        }
    }

    /// Re-seals the session's vault file with `plaintext`, the stored form of
    /// its document, under the session's key. When the clock or the random
    /// number generator cannot be read, that failure is reported and the
    /// vault file stays as it was.
    pub fn persist(&mut self, plaintext: &[u8]) -> (r: Result<(), AppError>)
        requires
            seal_fits(plaintext@.len()),
        ensures
            *old(self) is Locked ==> r is Err && r->Err_0@ == AppErrorModel::Locked && *final(self)
                == *old(self),
            *old(self) is Unlocked ==> {
                &&& *final(self) is Unlocked
                &&& final(self).key_view() == old(self).key_view()
                &&& final(self).data_view() == old(self).data_view()
                &&& r is Ok ==> {
                    &&& same_but_seal(old(self).file_view(), final(self).file_view())
                    &&& aes_gcm_accepts(plaintext@.len(), header_aad(final(self).file_view()).len())
                    &&& sealed(final(self).file_view(), old(self).key_view(), plaintext@)
                }
                &&& r is Err ==> {
                    ||| reports_environment(r->Err_0@) && final(self).file_view() == old(
                        self,
                    ).file_view()
                    ||| {
                        &&& r->Err_0@ == reported(CryptoErrorModel::Encrypt)
                        &&& same_but_seal(old(self).file_view(), final(self).file_view())
                        &&& !aes_gcm_accepts(
                            plaintext@.len(),
                            header_aad(final(self).file_view()).len(),
                        )
                    }
                }
            },
            r is Ok ==> forall|password: Seq<char>|
                #[trigger] old(self).unlocks_with(password) ==> unlocked(
                    final(self).file_view(),
                    password,
                ) == Ok::<(Seq<u8>, Seq<u8>), CryptoErrorModel>(
                    (old(self).key_view(), plaintext@),
                ),
            final(self).well_formed() == old(self).well_formed(),
    {
        let ghost before = *self;
        let r = match self {
            VaultSession::Locked => Err(AppError::Locked),
            VaultSession::Unlocked { key, vault_file, .. } => match vault_file.reencrypt(
                reveal_key(key),
                plaintext,
            ) {
                Ok(()) => Ok(()),
                Err(e) => {
                    let ghost c = e@;
                    let err = AppError::from_crypto(e);
                    proof {
                        if c.is_environment() {
                            assert(c.is_environment() && reported(c) == err@);
                        }
                    }
                    Err(err)
                },
            },
        };
        proof {
            if r is Ok {
                assert forall|password: Seq<char>| #[trigger]
                    before.unlocks_with(password) implies unlocked(self.file_view(), password)
                    == Ok::<(Seq<u8>, Seq<u8>), CryptoErrorModel>(
                    (before.key_view(), plaintext@),
                ) by {
                    law_reencrypt_then_unlock(
                        before.file_view(),
                        self.file_view(),
                        password,
                        before.key_view(),
                        plaintext@,
                    );
                }
            }
        }
        r
    }

    /// The vault file of an unlocked session, to be stored.
    pub fn vault_file(&self) -> (r: Option<&VaultFile>)
        ensures
            *self is Locked ==> r is None,
            *self is Unlocked ==> r is Some && r->Some_0@ == self.file_view(),
    {
        match self {
            VaultSession::Locked => None,
            VaultSession::Unlocked { vault_file, .. } => Some(vault_file),
        }
    }

    /// The document of an unlocked session, to be stored.
    pub fn data(&self) -> (r: Option<&VaultData>)
        ensures
            *self is Locked ==> r is None,
            *self is Unlocked ==> r is Some && r->Some_0@ == self.data_view(),
    {
        match self {
            VaultSession::Locked => None,
            VaultSession::Unlocked { data, .. } => Some(data),
        }
    }

    /// Refuses to create a vault where one already exists.
    pub fn check_vault_absent(vault_exists: bool) -> (r: Result<(), AppError>)
        ensures
            r is Ok <==> !vault_exists,
            r is Err ==> r->Err_0@ == AppErrorModel::AlreadyExists,
    {
        if vault_exists {
            Err(AppError::AlreadyExists)
        } else {
            Ok(())
        }
    }

    /// Refuses to unlock a vault that does not exist yet.
    pub fn check_vault_present(vault_exists: bool) -> (r: Result<(), AppError>)
        ensures
            r is Ok <==> vault_exists,
            r is Err ==> r->Err_0@ == AppErrorModel::NotFound,
    {
        if vault_exists {
            Ok(())
        } else {
            Err(AppError::NotFound)
        }
    }

    /// Creates a new vault for `master_password` holding `plaintext`, the
    /// stored form of an empty document (see [`VaultFile::create`]): it is
    /// refused as [`create_refusal`] says, or for a failure of the clock or
    /// the random number generator.
    pub fn create_vault(master_password: &str, plaintext: &[u8]) -> (r: Result<
        (VaultFile, SecretKey),
        AppError,
    >)
        requires
            seal_fits(plaintext@.len()),
        ensures
            r is Ok ==> create_refusal(master_password@, plaintext@) is None,
            r is Ok ==> created(r->Ok_0.0@, key_held(r->Ok_0.1), master_password@, plaintext@),
            r is Err ==> reports_environment(r->Err_0@) || (create_refusal(
                master_password@,
                plaintext@,
            ) is Some && r->Err_0@ == reported(
                create_refusal(master_password@, plaintext@)->Some_0,
            )),
            create_refusal(master_password@, plaintext@) is Some ==> r is Err,
    {
        match VaultFile::create(master_password, plaintext) {
            Ok(created) => Ok(created),
            Err(e) => {
                let ghost c = e@;
                let err = AppError::from_crypto(e);
                proof {
                    if c.is_environment() {
                        assert(c.is_environment() && reported(c) == err@);
                    }
                }
                Err(err)
            },
        }
    }

    /// Unlocks a stored vault file with `master_password`: the derived key
    /// and the stored form of the document.
    pub fn open_vault(vault_file: &VaultFile, master_password: &str) -> (r: Result<
        (SecretKey, SecretBytes),
        AppError,
    >)
        requires
            derivation_checkable(vault_file@),
        ensures
            match unlocked(vault_file@, master_password@) {
                Ok((k, p)) => r is Ok && key_held(r->Ok_0.0) == k && bytes_held(r->Ok_0.1) == p,
                Err(e) => r is Err && r->Err_0@ == reported(e),
            },
            r is Ok ==> vault_file.kdf.parallelism <= MAX_CHECKED_PARALLELISM,
    {
        match vault_file.unlock(master_password) {
            Ok(opened) => Ok(opened),
            Err(e) => Err(AppError::from_crypto(e)),
        }
    }

    /// After checking that `current_password` unlocks the session's vault
    /// file, creates a new vault for `new_password` holding `plaintext`, the
    /// stored form of the session's document. The caller stores it and then
    /// installs it with [`VaultSession::replace_vault_file`].
    pub fn change_master_password(
        &self,
        current_password: &str,
        new_password: &str,
        plaintext: &[u8],
    ) -> (r: Result<(VaultFile, SecretKey), AppError>)
        requires
            self.well_formed(),
            seal_fits(plaintext@.len()),
        ensures
            *self is Locked ==> r is Err && r->Err_0@ == AppErrorModel::Locked,
            *self is Unlocked ==> match unlocked(self.file_view(), current_password@) {
                Err(e) => r is Err && r->Err_0@ == reported(e),
                Ok(_) => {
                    &&& r is Ok ==> create_refusal(new_password@, plaintext@) is None
                    &&& r is Ok ==> created(
                        r->Ok_0.0@,
                        key_held(r->Ok_0.1),
                        new_password@,
                        plaintext@,
                    )
                    &&& r is Err ==> reports_environment(r->Err_0@) || (create_refusal(
                        new_password@,
                        plaintext@,
                    ) is Some && r->Err_0@ == reported(
                        create_refusal(new_password@, plaintext@)->Some_0,
                    ))
                    &&& create_refusal(new_password@, plaintext@) is Some ==> r is Err
                },
            },
    {
        match self {
            VaultSession::Locked => Err(AppError::Locked),
            VaultSession::Unlocked { vault_file, .. } => {
                match vault_file.unlock(current_password) {
                    Ok(_) => {},
                    Err(e) => {
                        return Err(AppError::from_crypto(e));
                    },
                }
                VaultSession::create_vault(new_password, plaintext)
            },
        }
    }

    /// Installs a newly stored vault file and its key in an unlocked
    /// session; the document stays. A locked session stays locked.
    pub fn replace_vault_file(&mut self, new_file: VaultFile, new_key: SecretKey)
        requires
            derivation_checkable(new_file@),
        ensures
            *old(self) is Locked ==> *final(self) is Locked,
            *old(self) is Unlocked ==> {
                &&& *final(self) is Unlocked
                &&& final(self).file_view() == new_file@
                &&& final(self).key_view() == key_held(new_key)
                &&& final(self).data_view() == old(self).data_view()
            },
            old(self).well_formed() ==> final(self).well_formed(),
    {
        match self {
            VaultSession::Locked => {},
            VaultSession::Unlocked { key, vault_file, .. } => {
                *key = new_key;
                *vault_file = new_file;
            },
        }
    }

    /// Removes every entry with identifier `id`; reports
    /// [`AppError::NotFound`] when there is none.
    pub fn delete_entry(&mut self, id: &str) -> (r: Result<(), AppError>)
        ensures
            *old(self) is Locked ==> r is Err && r->Err_0@ == AppErrorModel::Locked && *final(self)
                == *old(self),
            *old(self) is Unlocked && !has_id(old(self).data_view().entries, id@) ==> {
                &&& r is Err
                &&& r->Err_0@ == AppErrorModel::NotFound
                &&& VaultSession::entries_replaced(
                    *old(self),
                    *final(self),
                    old(self).data_view().entries,
                )
            },
            *old(self) is Unlocked && has_id(old(self).data_view().entries, id@) ==> r is Ok
                && VaultSession::entries_replaced(
                *old(self),
                *final(self),
                without_id(old(self).data_view().entries, id@),
            ),
            final(self).well_formed() == old(self).well_formed(),
    {
        match self {
            VaultSession::Locked => Err(AppError::Locked),
            VaultSession::Unlocked { data, .. } => {
                proof {
                    crate::model::vault_data::lemma_without_id(data@.entries, id@);
                }
                if data.remove_with_id(id) {
                    Ok(())
                } else {
                    Err(AppError::NotFound)
                }
            },
        }
    }
}

} // verus!
