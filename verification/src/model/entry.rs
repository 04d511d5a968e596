//! Vault entries, their password-free summaries and the inputs that create
//! or change them.

use vstd::prelude::*;

verus! {

/// The text views of a list of strings.
pub open spec fn texts(v: Seq<String>) -> Seq<Seq<char>> {
    v.map_values(|s: String| s@)
}

/// A stored credential.
#[derive(Debug, Clone)]
pub struct Entry {
    pub id: String,
    pub title: String,
    pub username: String,
    pub password: String,
    pub url: String,
    pub notes: String,
    pub tags: Vec<String>,
    pub created_at: i64,
    pub updated_at: i64,
}

/// An [`Entry`] with its texts as character sequences.
pub struct EntryModel {
    pub id: Seq<char>,
    pub title: Seq<char>,
    pub username: Seq<char>,
    pub password: Seq<char>,
    pub url: Seq<char>,
    pub notes: Seq<char>,
    pub tags: Seq<Seq<char>>,
    pub created_at: i64,
    pub updated_at: i64,
}

impl View for Entry {
    type V = EntryModel;

    open spec fn view(&self) -> EntryModel {
        EntryModel {
            id: self.id@,
            title: self.title@,
            username: self.username@,
            password: self.password@,
            url: self.url@,
            notes: self.notes@,
            tags: texts(self.tags@),
            created_at: self.created_at,
            updated_at: self.updated_at,
        }
    }
}

/// Password-free projection of an [`Entry`] used for list views: the secret
/// never needs to leave the vault just to render a row.
#[derive(Debug, Clone)]
pub struct EntrySummary {
    pub id: String,
    pub title: String,
    pub username: String,
    pub url: String,
    pub tags: Vec<String>,
}

/// An [`EntrySummary`] with its texts as character sequences.
pub struct EntrySummaryModel {
    pub id: Seq<char>,
    pub title: Seq<char>,
    pub username: Seq<char>,
    pub url: Seq<char>,
    pub tags: Seq<Seq<char>>,
}

impl View for EntrySummary {
    type V = EntrySummaryModel;

    open spec fn view(&self) -> EntrySummaryModel {
        EntrySummaryModel {
            id: self.id@,
            title: self.title@,
            username: self.username@,
            url: self.url@,
            tags: texts(self.tags@),
        }
    }
}

/// The summary of an entry: everything but the password, the notes and the
/// timestamps.
pub open spec fn summary_of(e: EntryModel) -> EntrySummaryModel {
    EntrySummaryModel { id: e.id, title: e.title, username: e.username, url: e.url, tags: e.tags }
}

/// A summary shows an entry's identifier, title, username, address and
/// every one of its tags, in order, exactly as the entry holds them.
pub proof fn law_summary_shows_entry_fields(e: EntryModel)
    ensures
        summary_of(e).id == e.id,
        summary_of(e).title == e.title,
        summary_of(e).username == e.username,
        summary_of(e).url == e.url,
        summary_of(e).tags == e.tags,
{
}

/// What the user fills in for a new entry.
#[derive(Debug, Clone)]
pub struct NewEntryInput {
    pub title: String,
    pub username: String,
    pub password: String,
    pub url: String,
    pub notes: String,
    pub tags: Vec<String>,
}

/// What the user fills in to change an entry.
#[derive(Debug, Clone)]
pub struct UpdateEntryInput {
    pub title: String,
    pub username: String,
    pub password: String,
    pub url: String,
    pub notes: String,
    pub tags: Vec<String>,
}

/// The editable fields of an entry, as the user supplies them.
pub struct EntryInputModel {
    pub title: Seq<char>,
    pub username: Seq<char>,
    pub password: Seq<char>,
    pub url: Seq<char>,
    pub notes: Seq<char>,
    pub tags: Seq<Seq<char>>,
}

impl View for NewEntryInput {
    type V = EntryInputModel;

    open spec fn view(&self) -> EntryInputModel {
        EntryInputModel {
            title: self.title@,
            username: self.username@,
            password: self.password@,
            url: self.url@,
            notes: self.notes@,
            tags: texts(self.tags@),
        }
    }
}

impl View for UpdateEntryInput {
    type V = EntryInputModel;

    open spec fn view(&self) -> EntryInputModel {
        EntryInputModel {
            title: self.title@,
            username: self.username@,
            password: self.password@,
            url: self.url@,
            notes: self.notes@,
            tags: texts(self.tags@),
        }
    }
}

/// An entry with the given identity and times and the user's fields.
pub open spec fn entry_from_input(
    id: Seq<char>,
    input: EntryInputModel,
    created_at: i64,
    updated_at: i64,
) -> EntryModel {
    EntryModel {
        id,
        title: input.title,
        username: input.username,
        password: input.password,
        url: input.url,
        notes: input.notes,
        tags: input.tags,
        created_at,
        updated_at,
    }
}

/// Which secret field of an entry is copied to the clipboard.
#[derive(Debug, Clone, Copy, PartialEq, Eq, Structural)]
pub enum ClipboardField {
    Username,
    Password,
}

/// A copy of a list of strings.
pub fn clone_strings(v: &Vec<String>) -> (r: Vec<String>)
    ensures
        texts(r@) == texts(v@),
{
    let mut r: Vec<String> = Vec::new();
    let n = v.len();
    for i in 0..n
        invariant
            n == v@.len(),
            r@.len() == i,
            forall|j: int| 0 <= j < i ==> #[trigger] r@[j]@ == v@[j]@,
    {
        r.push(v[i].clone());
    }
    proof {
        assert(texts(r@) =~= texts(v@));
    }
    r
}

impl Entry {
    /// A copy of the entry.
    pub fn duplicate(&self) -> (r: Entry)
        ensures
            r@ == self@,
    {
        Entry {
            id: self.id.clone(),
            title: self.title.clone(),
            username: self.username.clone(),
            password: self.password.clone(),
            url: self.url.clone(),
            notes: self.notes.clone(),
            tags: clone_strings(&self.tags),
            created_at: self.created_at,
            updated_at: self.updated_at,
        }
    }

    /// The value of the field to copy to the clipboard.
    pub fn field_value(&self, field: ClipboardField) -> (r: String)
        ensures
            r@ == (match field {
                ClipboardField::Username => self.username@,
                ClipboardField::Password => self.password@,
            }),
    {
        match field {
            ClipboardField::Username => self.username.clone(),
            ClipboardField::Password => self.password.clone(),
        }
    }
}

impl EntrySummary {
    /// The summary of `entry`.
    pub fn from_entry(entry: &Entry) -> (r: EntrySummary)
        ensures
            r@ == summary_of(entry@),
            r@.id == entry@.id,
            r@.title == entry@.title,
            r@.username == entry@.username,
            r@.url == entry@.url,
            r@.tags == entry@.tags,
    {
        EntrySummary {
            id: entry.id.clone(),
            title: entry.title.clone(),
            username: entry.username.clone(),
            url: entry.url.clone(),
            tags: clone_strings(&entry.tags),
        }
    }
}

} // verus!
