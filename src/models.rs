//! The entry store: saved commands and the allocator of their ids.

use vstd::prelude::*;
use vstd::string::*;
use crate::text::{contains, is_infix, join, join_with, lower_of, lowercase};

verus! {

/// A point in time, as seconds and nanoseconds since the Unix epoch (UTC).
#[derive(Clone, Copy, Debug, PartialEq, Eq, Structural)]
pub struct Timestamp {
    pub secs: i64,
    pub nanos: u32,
}

/// Relies on chrono's `From<SystemTime>` for `DateTime<Utc>`, applied to
/// `SystemTime::now()`: the current time, split into whole seconds and the
/// nanoseconds within the second (also for a clock set before 1970).
#[verifier::external_body]
pub(crate) fn now() -> (r: Timestamp)
    ensures
        r.nanos < 1_000_000_000,
{
    let t = chrono::DateTime::<chrono::Utc>::from(std::time::SystemTime::now());
    Timestamp { secs: t.timestamp(), nanos: t.timestamp_subsec_nanos() }
}

/// One saved command.
#[derive(Clone, Debug)]
pub struct CommandEntry {
    /// Unique identifier, assigned by the store.
    pub id: u64,
    /// The command line itself.
    pub command: String,
    /// What the command does.
    pub description: String,
    /// Tags, in the order given; they may repeat.
    pub tags: Vec<String>,
    /// When the entry was created.
    pub created_at: Timestamp,
}

/// The text shown for a list of tags: `-` when there are none, else the tags
/// separated by `, `.
pub open spec fn tags_text(tags: Seq<Seq<char>>) -> Seq<char> {
    if tags.len() == 0 {
        seq!['-']
    } else {
        join_with(tags, seq![',', ' '])
    }
}

/// Whether an entry matches an already lowercased keyword: the keyword occurs
/// in the lowercased command, description or one of the tags.
pub open spec fn entry_matches(key: Seq<char>, e: CommandEntry) -> bool {
    is_infix(key, lower_of(e.command@)) || is_infix(key, lower_of(e.description@)) || exists|
        t: int,
    |
        0 <= t < e.tags@.len() && is_infix(key, lower_of(#[trigger] e.tags@[t]@))
}

/// The position of the first entry with the given id, or -1 when there is none.
pub open spec fn index_of(entries: Seq<CommandEntry>, id: u64) -> int
    decreases entries.len(),
{
    if entries.len() == 0 {
        -1
    } else if entries[0].id == id {
        0
    } else {
        let k = index_of(entries.drop_first(), id);
        if k < 0 {
            -1
        } else {
            k + 1
        }
    }
}

/// The entry with the fields that were given replaced.
pub open spec fn edited(
    e: CommandEntry,
    command: Option<String>,
    description: Option<String>,
    tags: Option<Vec<String>>,
) -> CommandEntry {
    CommandEntry {
        id: e.id,
        command: match command {
            Some(c) => c,
            None => e.command,
        },
        description: match description {
            Some(d) => d,
            None => e.description,
        },
        tags: match tags {
            Some(t) => t,
            None => e.tags,
        },
        created_at: e.created_at,
    }
}

/// The entries without those that have the id.
pub open spec fn without_id(entries: Seq<CommandEntry>, id: u64) -> Seq<CommandEntry> {
    entries.filter(|e: CommandEntry| e.id != id)
}

/// What `index_of` finds: the first entry with the id, or none at all.
pub proof fn lemma_index_of(entries: Seq<CommandEntry>, id: u64)
    ensures
        -1 <= index_of(entries, id) < entries.len(),
        index_of(entries, id) == -1 ==> forall|j: int|
            0 <= j < entries.len() ==> #[trigger] entries[j].id != id,
        index_of(entries, id) >= 0 ==> entries[index_of(entries, id)].id == id,
        index_of(entries, id) >= 0 ==> forall|j: int|
            0 <= j < index_of(entries, id) ==> #[trigger] entries[j].id != id,
    decreases entries.len(),
{
    if entries.len() > 0 && entries[0].id != id {
        let rest = entries.drop_first();
        lemma_index_of(rest, id);
        assert forall|j: int| 1 <= j < entries.len() implies entries[j].id == rest[j - 1].id by {}
    }
}

/// An entry with the id that no earlier entry has is the one `index_of` finds.
pub proof fn lemma_index_of_first(entries: Seq<CommandEntry>, id: u64, i: int)
    requires
        0 <= i < entries.len(),
        entries[i].id == id,
        forall|j: int| 0 <= j < i ==> #[trigger] entries[j].id != id,
    ensures
        index_of(entries, id) == i,
{
    lemma_index_of(entries, id);
    let k = index_of(entries, id);
    if k == -1 {
        assert(entries[i].id != id);
    } else if k < i {
        assert(entries[k].id != id);
    } else if k > i {
        assert(entries[i].id != id);
    }
}

impl CommandEntry {
    /// A new entry created now.
    pub fn new(id: u64, command: String, description: String, tags: Vec<String>) -> (r: Self)
        ensures
            r.id == id,
            r.command == command,
            r.description == description,
            r.tags == tags,
            r.created_at.nanos < 1_000_000_000,
    {
        CommandEntry { id, command, description, tags, created_at: now() }
    }

    /// The tags as one line: `-` when there are none, else separated by `, `.
    pub fn tags_display(&self) -> (r: String)
        ensures
            r@ == tags_text(self.tags.deep_view()),
    {
        proof {
            reveal_strlit("-");
            reveal_strlit(", ");
            assert("-"@ =~= seq!['-']);
            assert(", "@ =~= seq![',', ' ']);
        }
        if self.tags.len() == 0 {
            String::from_str("-")
        } else {
            join(&self.tags, ", ")
        }
    }
}

/// Whether a keyword occurs in a command, a description or one of the tags.
pub open spec fn texts_match(
    key: Seq<char>,
    command: Seq<char>,
    description: Seq<char>,
    tags: Seq<Seq<char>>,
) -> bool {
    is_infix(key, command) || is_infix(key, description) || exists|t: int|
        0 <= t < tags.len() && is_infix(key, #[trigger] tags[t])
}

/// Whether `key` occurs in the command, the description or one of the tags,
/// all of them already lowercased.
pub fn matches_lowered_texts(
    command: &str,
    description: &str,
    tags: &Vec<String>,
    key: &str,
) -> (r: bool)
    ensures
        r == texts_match(key@, command@, description@, tags.deep_view()),
{
    if contains(command, key) {
        return true;
    }
    if contains(description, key) {
        return true;
    }
    let mut i: usize = 0;
    while i < tags.len()
        invariant
            i <= tags@.len(),
            !is_infix(key@, command@),
            !is_infix(key@, description@),
            forall|t: int| 0 <= t < i ==> !is_infix(key@, #[trigger] tags.deep_view()[t]),
        decreases tags.len() - i,
    {
        if contains(tags[i].as_str(), key) {
            proof {
                assert(tags.deep_view()[i as int] == tags@[i as int]@);
            }
            return true;
        }
        proof {
            assert(tags.deep_view()[i as int] == tags@[i as int]@);
        }
        i = i + 1;
    }
    false
}

/// Whether the entry matches a keyword that is already lowercase: case-folded
/// substring search over the command, the description and each tag.
pub fn matches_lowered(e: &CommandEntry, key: &str) -> (r: bool)
    ensures
        r == entry_matches(key@, *e),
{
    let c = lowercase(e.command.as_str());
    let d = lowercase(e.description.as_str());
    let mut tags: Vec<String> = Vec::new();
    let mut i: usize = 0;
    while i < e.tags.len()
        invariant
            i <= e.tags@.len(),
            tags@.len() == i,
            forall|t: int| 0 <= t < i ==> #[trigger] tags@[t]@ == lower_of(e.tags@[t]@),
        decreases e.tags.len() - i,
    {
        tags.push(lowercase(e.tags[i].as_str()));
        i = i + 1;
    }
    let r = matches_lowered_texts(c.as_str(), d.as_str(), &tags, key);
    proof {
        assert forall|t: int| 0 <= t < tags@.len() implies #[trigger] tags.deep_view()[t] == lower_of(
            e.tags@[t]@,
        ) by {
            assert(tags@[t]@ == lower_of(e.tags@[t]@));
        }
        if exists|t: int| 0 <= t < tags@.len() && is_infix(key@, #[trigger] tags.deep_view()[t]) {
            let t = choose|t: int| 0 <= t < tags@.len() && is_infix(key@, #[trigger] tags.deep_view()[t]);
            assert(is_infix(key@, lower_of(e.tags@[t]@)));
        }
        if exists|t: int| 0 <= t < e.tags@.len() && is_infix(key@, lower_of(#[trigger] e.tags@[t]@)) {
            let t = choose|t: int| 0 <= t < e.tags@.len() && is_infix(key@, lower_of(#[trigger] e.tags@[t]@));
            assert(is_infix(key@, tags.deep_view()[t]));
        }
    }
    r
}

/// The whole store: the entries in insertion order and the next id to hand out.
#[derive(Clone, Debug)]
pub struct CommandDatabase {
    /// The id the next `add` hands out.
    pub next_id: u64,
    /// The entries, oldest first.
    pub entries: Vec<CommandEntry>,
}

impl CommandDatabase {
    /// The store's invariant: every id in it is below the next id to hand
    /// out, so that id is fresh.
    pub open spec fn wf(&self) -> bool {
        &&& self.next_id >= 1
        &&& forall|i: int| 0 <= i < self.entries@.len() ==> #[trigger] self.entries@[i].id < self.next_id
    }

    /// An empty store whose first id is 1.
    pub fn new() -> (r: Self)
        ensures
            r.next_id == 1,
            r.entries@.len() == 0,
            r.wf(),
    {
        CommandDatabase { next_id: 1, entries: Vec::new() }
    }

    /// A store from its parts, provided every id in `entries` is below
    /// `next_id` and `next_id` is at least 1; `None` otherwise.
    pub fn from_parts(next_id: u64, entries: Vec<CommandEntry>) -> (r: Option<Self>)
        ensures
            r is Some <==> (next_id >= 1 && forall|i: int| 0 <= i < entries@.len() ==> #[trigger] entries@[i].id < next_id),
            r matches Some(db) ==> db.wf() && db.next_id == next_id && db.entries == entries,
    {
        if next_id == 0 {
            return None;
        }
        let mut i: usize = 0;
        while i < entries.len()
            invariant
                i <= entries@.len(),
                forall|j: int| 0 <= j < i ==> #[trigger] entries@[j].id < next_id,
            decreases entries.len() - i,
        {
            if entries[i].id >= next_id {
                return None;
            }
            i = i + 1;
        }
        Some(CommandDatabase { next_id, entries })
    }

    /// Whether another id can be handed out.
    pub fn can_add(&self) -> (r: bool)
        ensures
            r == (self.next_id < u64::MAX),
    {
        self.next_id < u64::MAX
    }

    /// Appends a new entry under the next id and returns that id.
    pub fn add(&mut self, command: String, description: String, tags: Vec<String>) -> (id: u64)
        requires
            old(self).wf(),
            old(self).next_id < u64::MAX,
        ensures
            id == old(self).next_id,
            final(self).next_id == id + 1,
            final(self).wf(),
            final(self).entries@.len() == old(self).entries@.len() + 1,
            final(self).entries@.drop_last() == old(self).entries@,
            final(self).entries@.last().id == id,
            final(self).entries@.last().command == command,
            final(self).entries@.last().description == description,
            final(self).entries@.last().tags == tags,
            forall|i: int|
                0 <= i < old(self).entries@.len() ==> #[trigger] old(self).entries@[i].id < id,
            forall|i: int|
                0 <= i < final(self).entries@.len() - 1 ==> #[trigger] final(self).entries@[i].id != id,
            step_between(*old(self), *final(self), StoreStep::Add(id)),
    {
        let id = self.next_id;
        self.next_id = self.next_id + 1;
        let entry = CommandEntry::new(id, command, description, tags);
        self.entries.push(entry);
        proof {
            assert(self.entries@.drop_last() =~= old(self).entries@);
            assert forall|i: int| 0 <= i < self.entries@.len() implies #[trigger] self.entries@[i].id
                < self.next_id by {
                if i < old(self).entries@.len() {
                    assert(self.entries@[i] == old(self).entries@[i]);
                }
            }
        }
        id
    }

    /// The first entry with the given id, if any.
    pub fn find_by_id(&self, id: u64) -> (r: Option<&CommandEntry>)
        ensures
            r is None <==> index_of(self.entries@, id) == -1,
            r matches Some(e) ==> *e == self.entries@[index_of(self.entries@, id)],
            r matches Some(e) ==> e.id == id,
    {
        proof {
            lemma_index_of(self.entries@, id);
        }
        let mut i: usize = 0;
        while i < self.entries.len()
            invariant
                i <= self.entries@.len(),
                forall|j: int| 0 <= j < i ==> #[trigger] self.entries@[j].id != id,
                -1 <= index_of(self.entries@, id) < self.entries@.len(),
                index_of(self.entries@, id) >= 0 ==> self.entries@[index_of(self.entries@, id)].id == id,
                index_of(self.entries@, id) >= 0 ==> forall|j: int|
                    0 <= j < index_of(self.entries@, id) ==> #[trigger] self.entries@[j].id != id,
            decreases self.entries.len() - i,
        {
            if self.entries[i].id == id {
                proof {
                    lemma_index_of_first(self.entries@, id, i as int);
                }
                return Some(&self.entries[i]);
            }
            i = i + 1;
        }
        None
    }

    /// Removes every entry with the given id; true when one was removed.
    pub fn remove_by_id(&mut self, id: u64) -> (r: bool)
        ensures
            final(self).entries@ == without_id(old(self).entries@, id),
            final(self).next_id == old(self).next_id,
            r == exists|i: int| 0 <= i < old(self).entries@.len() && #[trigger] old(self).entries@[i].id == id,
            !r ==> final(self).entries@ == old(self).entries@,
            old(self).wf() ==> final(self).wf(),
            step_between(*old(self), *final(self), StoreStep::Remove(id)),
    {
        let ghost pred = |e: CommandEntry| e.id != id;
        let ghost orig = self.entries@;
        let ghost n: int = orig.len() as int;
        let mut i: usize = 0;
        let ghost mut j: int = 0;
        let mut removed = false;
        proof {
            assert(orig.subrange(0, 0).filter(pred) =~= Seq::<CommandEntry>::empty()) by {
                reveal(Seq::filter);
            }
            assert(self.entries@ =~= orig.subrange(0, 0).filter(pred) + orig.subrange(0, n));
        }
        while i < self.entries.len()
            invariant
                0 <= j <= n,
                n == orig.len(),
                pred == (|e: CommandEntry| e.id != id),
                orig == old(self).entries@,
                self.next_id == old(self).next_id,
                i == orig.subrange(0, j).filter(pred).len(),
                self.entries@ == orig.subrange(0, j).filter(pred) + orig.subrange(j, n),
                removed == exists|k: int| 0 <= k < j && #[trigger] orig[k].id == id,
            decreases self.entries.len() - i,
        {
            let ghost prefix = orig.subrange(0, j);
            proof {
                assert(orig.subrange(0, j + 1) =~= prefix.push(orig[j]));
                prefix.lemma_filter_push(orig[j], pred);
                assert(self.entries@[i as int] == orig[j]);
            }
            if self.entries[i].id == id {
                let ghost before = self.entries@;
                self.entries.remove(i);
                removed = true;
                proof {
                    let f = prefix.filter(pred);
                    assert(!pred(orig[j]));
                    assert(orig.subrange(0, j + 1).filter(pred) == f);
                    assert(before == f + orig.subrange(j, n));
                    assert forall|k: int| 0 <= k < self.entries@.len() implies self.entries@[k] == (f + orig.subrange(j + 1, n))[k] by {
                        if k < i {
                            assert(self.entries@[k] == before[k]);
                        } else {
                            assert(self.entries@[k] == before[k + 1]);
                        }
                    }
                    assert(self.entries@ =~= orig.subrange(0, j + 1).filter(pred) + orig.subrange(j + 1, n));
                }
            } else {
                proof {
                    let f = prefix.filter(pred);
                    assert(pred(orig[j]));
                    assert(orig.subrange(0, j + 1).filter(pred) == f.push(orig[j]));
                    assert(self.entries@ =~= orig.subrange(0, j + 1).filter(pred) + orig.subrange(j + 1, n));
                }
                i = i + 1;
            }
            proof {
                j = j + 1;
            }
        }
        proof {
            assert(orig.subrange(0, n) =~= orig);
            assert(self.entries@ =~= orig.filter(pred));
            if j < n {
                assert(self.entries@.len() == i + (n - j));
            }
            assert(j == n);
            if !removed {
                lemma_filter_keeps_all(orig, id);
            }
            if old(self).wf() {
                assert forall|k: int| 0 <= k < self.entries@.len() implies #[trigger] self.entries@[k].id
                    < self.next_id by {
                    assert(orig.filter(pred).contains(self.entries@[k]));
                    orig.lemma_filter_contains_rev(pred, self.entries@[k]);
                    let w = choose|w: int| 0 <= w < orig.len() && orig[w] == self.entries@[k];
                    assert(orig[w].id < self.next_id);
                }
            }
        }
        removed
    }

    /// Replaces the given fields of the first entry with that id; true when
    /// there was such an entry.
    pub fn update(
        &mut self,
        id: u64,
        command: Option<String>,
        description: Option<String>,
        tags: Option<Vec<String>>,
    ) -> (r: bool)
        ensures
            r == (index_of(old(self).entries@, id) >= 0),
            r ==> final(self).entries@ == old(self).entries@.update(
                index_of(old(self).entries@, id),
                edited(old(self).entries@[index_of(old(self).entries@, id)], command, description, tags),
            ),
            !r ==> final(self).entries@ == old(self).entries@,
            final(self).next_id == old(self).next_id,
            old(self).wf() ==> final(self).wf(),
            step_between(*old(self), *final(self), StoreStep::Edit),
    {
        proof {
            lemma_index_of(self.entries@, id);
        }
        let mut i: usize = 0;
        while i < self.entries.len()
            invariant
                i <= self.entries@.len(),
                self.entries@ == old(self).entries@,
                self.next_id == old(self).next_id,
                forall|j: int| 0 <= j < i ==> #[trigger] self.entries@[j].id != id,
            decreases self.entries.len() - i,
        {
            if self.entries[i].id == id {
                proof {
                    lemma_index_of_first(self.entries@, id, i as int);
                }
                let ghost target = edited(self.entries@[i as int], command, description, tags);
                let entry = &mut self.entries[i];
                match command {
                    Some(c) => {
                        entry.command = c;
                    },
                    None => {},
                }
                match description {
                    Some(d) => {
                        entry.description = d;
                    },
                    None => {},
                }
                match tags {
                    Some(t) => {
                        entry.tags = t;
                    },
                    None => {},
                }
                proof {
                    assert(self.entries@ =~= old(self).entries@.update(i as int, target));
                    if old(self).wf() {
                        assert forall|k: int| 0 <= k < self.entries@.len() implies #[trigger] self.entries@[k].id
                            < self.next_id by {
                            assert(self.entries@[k].id == old(self).entries@[k].id);
                        }
                    }
                }
                return true;
            }
            i = i + 1;
        }
        false
    }

    /// The entries that match `keyword`, in store order: case-insensitive
    /// substring search over the command, the description and each tag.
    pub fn search(&self, keyword: &str) -> (r: Vec<&CommandEntry>)
        ensures
            r@.map_values(|e: &CommandEntry| *e) == self.entries@.filter(
                |e: CommandEntry| entry_matches(lower_of(keyword@), e),
            ),
            keyword@.len() == 0 ==> r@.map_values(|e: &CommandEntry| *e) == self.entries@,
    {
        let key = lowercase(keyword);
        let ghost pred = |e: CommandEntry| entry_matches(lower_of(keyword@), e);
        let mut out: Vec<&CommandEntry> = Vec::new();
        let mut i: usize = 0;
        proof {
            assert(self.entries@.subrange(0, 0).filter(pred) =~= Seq::<CommandEntry>::empty()) by {
                reveal(Seq::filter);
            }
            assert(out@.map_values(|e: &CommandEntry| *e) =~= Seq::<CommandEntry>::empty());
        }
        while i < self.entries.len()
            invariant
                i <= self.entries@.len(),
                key@ == lower_of(keyword@),
                pred == (|e: CommandEntry| entry_matches(lower_of(keyword@), e)),
                out@.map_values(|e: &CommandEntry| *e) == self.entries@.subrange(0, i as int).filter(
                    pred,
                ),
            decreases self.entries.len() - i,
        {
            let ghost prefix = self.entries@.subrange(0, i as int);
            proof {
                assert(self.entries@.subrange(0, i + 1) =~= prefix.push(self.entries@[i as int]));
                prefix.lemma_filter_push(self.entries@[i as int], pred);
            }
            let e = &self.entries[i];
            if matches_lowered(e, key.as_str()) {
                out.push(e);
                proof {
                    assert(out@.map_values(|e: &CommandEntry| *e) =~= prefix.filter(pred).push(
                        self.entries@[i as int],
                    ));
                }
            } else {
                proof {
                    assert(!pred(self.entries@[i as int]));
                }
            }
            i = i + 1;
        }
        proof {
            assert(self.entries@.subrange(0, self.entries@.len() as int) =~= self.entries@);
            if keyword@.len() == 0 {
                lemma_empty_key_matches_all(self.entries@, key@);
            }
        }
        out
    }

    /// All entries, oldest first.
    pub fn list_all(&self) -> (r: &[CommandEntry])
        ensures
            r@ == self.entries@,
    {
        self.entries.as_slice()
    }
}

/// The empty keyword matches every entry.
pub proof fn lemma_empty_key_matches_all(entries: Seq<CommandEntry>, key: Seq<char>)
    requires
        key.len() == 0,
    ensures
        entries.filter(|e: CommandEntry| entry_matches(key, e)) == entries,
    decreases entries.len(),
{
    reveal(Seq::filter);
    if entries.len() > 0 {
        let c = lower_of(entries.last().command@);
        assert(c.subrange(0, 0 + key.len() as int) =~= key);
        assert(is_infix(key, c));
        assert(entry_matches(key, entries.last()));
        lemma_empty_key_matches_all(entries.drop_last(), key);
        assert(entries.drop_last().push(entries.last()) =~= entries);
    }
}

/// Filtering out an id that no entry has keeps every entry.
pub proof fn lemma_filter_keeps_all(entries: Seq<CommandEntry>, id: u64)
    requires
        forall|i: int| 0 <= i < entries.len() ==> #[trigger] entries[i].id != id,
    ensures
        entries.filter(|e: CommandEntry| e.id != id) == entries,
    decreases entries.len(),
{
    reveal(Seq::filter);
    if entries.len() > 0 {
        let rest = entries.drop_last();
        assert forall|i: int| 0 <= i < rest.len() implies #[trigger] rest[i].id != id by {
            assert(rest[i] == entries[i]);
        }
        lemma_filter_keeps_all(rest, id);
        assert(rest.push(entries.last()) =~= entries);
    }
}

/// One change of the store, as its operations make them.
pub enum StoreStep {
    /// `add`, which handed out the id.
    Add(u64),
    /// `remove_by_id` with the id.
    Remove(u64),
    /// `update`, which keeps the ids.
    Edit,
}

/// Whether `b` follows from `a` by the step, as the operations' contracts say.
pub open spec fn step_between(a: CommandDatabase, b: CommandDatabase, step: StoreStep) -> bool {
    match step {
        StoreStep::Add(id) => {
            &&& id == a.next_id
            &&& b.next_id == id + 1
            &&& b.entries@.len() == a.entries@.len() + 1
            &&& b.entries@.drop_last() == a.entries@
            &&& b.entries@.last().id == id
        },
        StoreStep::Remove(id) => {
            &&& b.next_id == a.next_id
            &&& b.entries@ == without_id(a.entries@, id)
        },
        StoreStep::Edit => b.next_id == a.next_id,
    }
}

/// A history of well-formed stores where each follows from the one before by
/// the step of the same index.
pub open spec fn is_history(states: Seq<CommandDatabase>, steps: Seq<StoreStep>) -> bool {
    &&& states.len() == steps.len() + 1
    &&& forall|k: int| 0 <= k < states.len() ==> (#[trigger] states[k]).wf()
    &&& forall|k: int| 0 <= k < steps.len() ==> step_between(states[k], states[k + 1], #[trigger] steps[k])
}

/// Along a history the next id never goes down.
proof fn lemma_next_id_monotone(states: Seq<CommandDatabase>, steps: Seq<StoreStep>, a: int, b: int)
    requires
        is_history(states, steps),
        0 <= a <= b < states.len(),
    ensures
        states[a].next_id <= states[b].next_id,
    decreases b - a,
{
    if a < b {
        lemma_next_id_monotone(states, steps, a, b - 1);
        assert(step_between(states[b - 1], states[b], steps[b - 1]));
    }
}

/// Ids handed out by `add` strictly increase along any history, whatever
/// removals or edits come between, and each one is fresh: no entry of the
/// store it is added to has it.
pub proof fn lemma_add_ids_increase(
    states: Seq<CommandDatabase>,
    steps: Seq<StoreStep>,
    a: int,
    b: int,
)
    requires
        is_history(states, steps),
        0 <= a < b < steps.len(),
        steps[a] is Add,
        steps[b] is Add,
    ensures
        steps[a]->Add_0 < steps[b]->Add_0,
        forall|i: int|
            0 <= i < states[b].entries@.len() ==> #[trigger] states[b].entries@[i].id
                != steps[b]->Add_0,
{
    assert(step_between(states[a], states[a + 1], steps[a]));
    assert(step_between(states[b], states[b + 1], steps[b]));
    lemma_next_id_monotone(states, steps, a + 1, b);
    assert(states[b].wf());
}

/// Removing an id a second time finds nothing and changes nothing: after the
/// first removal no entry has the id.
pub proof fn lemma_remove_idempotent(entries: Seq<CommandEntry>, id: u64)
    ensures
        forall|i: int|
            0 <= i < without_id(entries, id).len() ==> (#[trigger] without_id(entries, id)[i]).id
                != id,
        without_id(without_id(entries, id), id) == without_id(entries, id),
{
    let rest = without_id(entries, id);
    assert forall|i: int| 0 <= i < rest.len() implies (#[trigger] rest[i]).id != id by {
        entries.lemma_filter_pred(|e: CommandEntry| e.id != id, i);
    }
    lemma_filter_keeps_all(rest, id);
}

/// The positions in `s` of the elements that `filter` keeps, in order.
proof fn lemma_filter_positions<A>(s: Seq<A>, pred: spec_fn(A) -> bool) -> (idx: Seq<int>)
    ensures
        idx.len() == s.filter(pred).len(),
        forall|i: int, j: int| 0 <= i < j < idx.len() ==> idx[i] < idx[j],
        forall|i: int| 0 <= i < idx.len() ==> 0 <= #[trigger] idx[i] < s.len() && s.filter(pred)[i] == s[idx[i]],
    decreases s.len(),
{
    reveal(Seq::filter);
    if s.len() == 0 {
        Seq::<int>::empty()
    } else {
        let rest = lemma_filter_positions(s.drop_last(), pred);
        if pred(s.last()) {
            let idx = rest.push(s.len() - 1);
            assert forall|i: int| 0 <= i < idx.len() implies 0 <= #[trigger] idx[i] < s.len()
                && s.filter(pred)[i] == s[idx[i]] by {
                if i < rest.len() {
                    assert(idx[i] == rest[i]);
                }
            }
            idx
        } else {
            rest
        }
    }
}

/// Search keeps store order: its results sit at strictly increasing
/// positions of the store, so none comes twice and none is out of order.
pub proof fn lemma_search_keeps_order(entries: Seq<CommandEntry>, key: Seq<char>) -> (idx: Seq<int>)
    ensures
        idx.len() == entries.filter(|e: CommandEntry| entry_matches(key, e)).len(),
        forall|i: int, j: int| 0 <= i < j < idx.len() ==> idx[i] < idx[j],
        forall|i: int|
            0 <= i < idx.len() ==> 0 <= #[trigger] idx[i] < entries.len() && entries.filter(
                |e: CommandEntry| entry_matches(key, e),
            )[i] == entries[idx[i]],
{
    lemma_filter_positions(entries, |e: CommandEntry| entry_matches(key, e))
}

/// Search ignores case: keywords with the same lowercase form find the same
/// entries, in the same order.
pub proof fn lemma_search_case_insensitive(entries: Seq<CommandEntry>, k1: Seq<char>, k2: Seq<char>)
    requires
        lower_of(k1) == lower_of(k2),
    ensures
        entries.filter(|e: CommandEntry| entry_matches(lower_of(k1), e)) == entries.filter(
            |e: CommandEntry| entry_matches(lower_of(k2), e),
        ),
{
}

} // verus!
