//! The list of recently changed settings shown beside the scene.
use vstd::prelude::*;
use crate::text::{push_chars, str_equal, trim_range, trimmed};

verus! {

/// How many recent changes are kept.
pub const MAX_RECENT_CHANGES: usize = 32;

/// One recent change: the setting, its new value and when it changed.
#[derive(Debug)]
pub struct RecentChangeEntry<T> {
    pub label: String,
    pub value: String,
    pub changed_at: T,
}

/// One row of the recent-changes listing.
#[derive(Debug)]
pub struct RecentChangeSnapshotRow {
    pub label: String,
    pub value: String,
}

/// The recent changes, most recent first, each setting at most once.
#[derive(Debug)]
pub struct RecentChangesState<T> {
    pub entries: Vec<RecentChangeEntry<T>>,
}

impl<T> Default for RecentChangesState<T> {
    fn default() -> (state: RecentChangesState<T>)
        ensures
            state.entries@ == Seq::<RecentChangeEntry<T>>::empty(),
    {
        RecentChangesState { entries: Vec::new() }
    }
}

/// `i` is the first position of `entries` whose label is `label`.
pub open spec fn first_label_match<T>(entries: Seq<RecentChangeEntry<T>>, label: Seq<char>, i: int) -> bool {
    &&& 0 <= i < entries.len()
    &&& entries[i].label@ == label
    &&& forall|j: int| 0 <= j < i ==> #[trigger] entries[j].label@ != label
}

/// `entries` without the first entry labelled `label`, if any.
pub open spec fn without_label<T>(entries: Seq<RecentChangeEntry<T>>, label: Seq<char>) -> Seq<RecentChangeEntry<T>> {
    if exists|i: int| first_label_match(entries, label, i) {
        entries.remove(choose|i: int| first_label_match(entries, label, i))
    } else {
        entries
    }
}

/// `entries` after recording `entry`: it goes first, replacing the entry with its
/// label, and only the most recent entries are kept.
pub open spec fn recorded<T>(entries: Seq<RecentChangeEntry<T>>, entry: RecentChangeEntry<T>) -> Seq<RecentChangeEntry<T>> {
    let listed = seq![entry] + without_label(entries, entry.label@);
    if listed.len() > MAX_RECENT_CHANGES { listed.subrange(0, MAX_RECENT_CHANGES as int) } else { listed }
}

/// The rows listed from the first `count` entries: the first entry always, the
/// others when they are recent.
pub open spec fn listed_rows<T>(entries: Seq<RecentChangeEntry<T>>, recent: Seq<bool>, count: nat) -> Seq<(Seq<char>, Seq<char>)>
    decreases count,
{
    if count == 0 {
        Seq::empty()
    } else {
        let before = listed_rows(entries, recent, (count - 1) as nat);
        let i = count - 1;
        if i == 0 || recent[i] {
            before.push((entries[i].label@, entries[i].value@))
        } else {
            before
        }
    }
}

/// The label and value text of each row.
pub open spec fn row_texts(rows: Seq<RecentChangeSnapshotRow>) -> Seq<(Seq<char>, Seq<char>)> {
    rows.map_values(|row: RecentChangeSnapshotRow| (row.label@, row.value@))
}

/// The label and value a status message is recorded under: split at the first colon,
/// both sides trimmed, a leading `Reset ` dropped from the label; a message without a
/// colon is recorded whole with an empty value.
pub open spec fn status_label_value(message: Seq<char>) -> (Seq<char>, Seq<char>) {
    if message.contains(':') {
        let colon = choose|i: int| 0 <= i < message.len() && message[i] == ':'
            && forall|j: int| 0 <= j < i ==> message[j] != ':';
        let label = trimmed(message.subrange(0, colon));
        let label = if label.len() >= 6 && label.subrange(0, 6) == "Reset "@ { label.subrange(6, label.len() as int) } else { label };
        (label, trimmed(message.subrange(colon + 1, message.len() as int)))
    } else {
        (message, Seq::empty())
    }
}

/// No label occurs twice among `entries`.
pub open spec fn labels_unique<T>(entries: Seq<RecentChangeEntry<T>>) -> bool {
    forall|i: int, j: int|
        #![trigger entries[i], entries[j]]
        0 <= i < j < entries.len() ==> entries[i].label@ != entries[j].label@
}

/// Recording a change lists it first, keeps each setting listed at most once and
/// keeps no more than the most recent changes.
pub proof fn recording_keeps_one_entry_per_setting<T>(entries: Seq<RecentChangeEntry<T>>, entry: RecentChangeEntry<T>)
    requires
        labels_unique(entries),
    ensures
        recorded(entries, entry)[0] == entry,
        recorded(entries, entry).len() <= MAX_RECENT_CHANGES,
        labels_unique(recorded(entries, entry)),
{
    let rest = without_label(entries, entry.label@);
    assert forall|i: int| 0 <= i < rest.len() implies #[trigger] rest[i].label@ != entry.label@ by {
        if exists|k: int| first_label_match(entries, entry.label@, k) {
            let k = choose|k: int| first_label_match(entries, entry.label@, k);
            if i < k {
                assert(rest[i] == entries[i]);
            } else {
                assert(rest[i] == entries[i + 1]);
                assert(entries[k].label@ != entries[i + 1].label@);
            }
        } else {
            assert(rest[i] == entries[i]);
            if entries[i].label@ == entry.label@ {
                assert forall|j: int| 0 <= j < i implies #[trigger] entries[j].label@ != entry.label@ by {
                    assert(entries[j].label@ != entries[i].label@);
                }
                assert(first_label_match(entries, entry.label@, i));
            }
        }
    }
    assert(labels_unique(rest)) by {
        assert forall|i: int, j: int| 0 <= i < j < rest.len() implies rest[i].label@ != rest[j].label@ by {
            if exists|k: int| first_label_match(entries, entry.label@, k) {
                let k = choose|k: int| first_label_match(entries, entry.label@, k);
                let a = if i < k { i } else { i + 1 };
                let b = if j < k { j } else { j + 1 };
                assert(rest[i] == entries[a] && rest[j] == entries[b]);
            } else {
                assert(rest[i] == entries[i] && rest[j] == entries[j]);
            }
        }
    }
    let listed = seq![entry] + rest;
    assert(labels_unique(listed)) by {
        assert forall|i: int, j: int| 0 <= i < j < listed.len() implies listed[i].label@ != listed[j].label@ by {
            if i == 0 {
                assert(listed[j] == rest[j - 1]);
            } else {
                assert(listed[i] == rest[i - 1] && listed[j] == rest[j - 1]);
            }
        }
    }
    let result = recorded(entries, entry);
    assert forall|i: int, j: int| 0 <= i < j < result.len() implies result[i].label@ != result[j].label@ by {
        assert(result[i] == listed[i] && result[j] == listed[j]);
    }
}

/// Whether entry `i` is listed: the most recent always, the others when recent.
pub open spec fn entry_listed(recent: Seq<bool>, i: int) -> bool {
    i == 0 || recent[i]
}

/// Every listed row is the label and value of one and the same listed entry, in
/// entry order, and every listed entry has its row; the most recent change is listed
/// first.
pub proof fn rows_show_whole_entries<T>(entries: Seq<RecentChangeEntry<T>>, recent: Seq<bool>, count: nat)
    requires
        count <= entries.len(),
        recent.len() == entries.len(),
    ensures
        ({
            let rows = listed_rows(entries, recent, count);
            &&& forall|k: int| 0 <= k < rows.len() ==> exists|i: int|
                0 <= i < count && entry_listed(recent, i)
                    && #[trigger] rows[k] == (entries[i].label@, entries[i].value@)
            &&& forall|i: int| 0 <= i < count && entry_listed(recent, i) ==> exists|k: int|
                0 <= k < rows.len() && #[trigger] rows[k] == (entries[i].label@, entries[i].value@)
            &&& count > 0 ==> rows.len() > 0 && rows[0] == (entries[0].label@, entries[0].value@)
            &&& rows.len() <= count
        }),
    decreases count,
{
    if count > 0 {
        let c = (count - 1) as nat;
        rows_show_whole_entries(entries, recent, c);
        let before = listed_rows(entries, recent, c);
        let rows = listed_rows(entries, recent, count);
        let i = count - 1;
        if entry_listed(recent, i) {
            assert(rows == before.push((entries[i].label@, entries[i].value@)));
            assert forall|k: int| 0 <= k < rows.len() implies exists|j: int|
                0 <= j < count && entry_listed(recent, j)
                    && #[trigger] rows[k] == (entries[j].label@, entries[j].value@) by {
                if k < before.len() {
                    assert(rows[k] == before[k]);
                    let j = choose|j: int| 0 <= j < c && entry_listed(recent, j)
                        && before[k] == (entries[j].label@, entries[j].value@);
                } else {
                    assert(rows[k] == (entries[i].label@, entries[i].value@));
                }
            }
            assert forall|j: int| 0 <= j < count && entry_listed(recent, j) implies exists|k: int|
                0 <= k < rows.len() && #[trigger] rows[k] == (entries[j].label@, entries[j].value@) by {
                if j < c {
                    let k = choose|k: int| 0 <= k < before.len() && before[k] == (entries[j].label@, entries[j].value@);
                    assert(rows[k] == before[k]);
                } else {
                    assert(rows[before.len() as int] == (entries[j].label@, entries[j].value@));
                }
            }
            if c > 0 {
                assert(rows[0] == before[0]);
            }
        } else {
            assert(rows == before);
            assert forall|k: int| 0 <= k < rows.len() implies exists|j: int|
                0 <= j < count && entry_listed(recent, j)
                    && #[trigger] rows[k] == (entries[j].label@, entries[j].value@) by {
                let j = choose|j: int| 0 <= j < c && entry_listed(recent, j)
                    && before[k] == (entries[j].label@, entries[j].value@);
            }
        }
    }
}

impl<T> RecentChangesState<T> {
    /// Records that `label` changed to `value` at `now`: the change goes first,
    /// replacing an earlier change of the same setting, and only the most recent
    /// changes are kept. A label that is empty or white space is ignored.
    pub fn record(&mut self, label: String, value: String, now: T)
        ensures
            if trimmed(label@).len() == 0 {
                final(self).entries@ == old(self).entries@
            } else {
                final(self).entries@ == recorded(
                    old(self).entries@,
                    RecentChangeEntry { label, value, changed_at: now },
                )
            },
    {
        let len = label.as_str().unicode_len();
        let stripped = trim_range(label.as_str(), 0, len);
        assert(label@.subrange(0, len as int) =~= label@);
        if stripped.as_str().unicode_len() == 0 {
            return;
        }
        let ghost before = self.entries@;
        let mut i: usize = 0;
        while i < self.entries.len() && !str_equal(self.entries[i].label.as_str(), label.as_str())
            invariant
                i <= self.entries@.len(),
                forall|j: int| 0 <= j < i ==> #[trigger] self.entries@[j].label@ != label@,
            decreases self.entries@.len() - i,
        {
            i += 1;
        }
        if i < self.entries.len() {
            proof {
                assert(first_label_match(before, label@, i as int));
                let at = choose|k: int| first_label_match(before, label@, k);
                if at < i {
                    assert(before[at].label@ != label@);
                } else if at > i {
                    assert(before[i as int].label@ != label@);
                }
            }
            self.entries.remove(i);
        } else {
            proof {
                if exists|k: int| first_label_match(before, label@, k) {
                    let k = choose|k: int| first_label_match(before, label@, k);
                    assert(before[k].label@ != label@);
                }
            }
        }
        let ghost rest = self.entries@;
        assert(rest == without_label(before, label@));
        let entry = RecentChangeEntry { label, value, changed_at: now };
        let ghost new_entry = entry;
        self.entries.insert(0, entry);
        assert(self.entries@ =~= seq![new_entry] + rest);
        self.entries.truncate(MAX_RECENT_CHANGES);
    }

    /// Records a status message such as `Child scale ratio: 0.62` as a change of the
    /// setting before the colon to the value after it.
    pub fn record_status_message(&mut self, message: String, now: T)
        ensures
            ({
                let (label, value) = status_label_value(message@);
                if trimmed(label).len() == 0 {
                    final(self).entries@ == old(self).entries@
                } else {
                    &&& final(self).entries@ == recorded(old(self).entries@, final(self).entries@[0])
                    &&& final(self).entries@[0].label@ == label
                    &&& final(self).entries@[0].value@ == value
                    &&& final(self).entries@[0].changed_at == now
                }
            }),
    {
        let len = message.as_str().unicode_len();
        let mut colon: usize = 0;
        while colon < len && message.as_str().get_char(colon) != ':'
            invariant
                colon <= len,
                len == message@.len(),
                forall|j: int| 0 <= j < colon ==> message@[j] != ':',
            decreases len - colon,
        {
            colon += 1;
        }
        if colon == len {
            proof {
                assert(!message@.contains(':'));
            }
            self.record(message, String::new(), now);
            return;
        }
        proof {
            assert(message@.contains(':')) by {
                assert(message@[colon as int] == ':');
            }
            let first = choose|i: int| 0 <= i < message@.len() && message@[i] == ':'
                && forall|j: int| 0 <= j < i ==> message@[j] != ':';
            if first < colon {
                assert(message@[first] != ':');
            } else if first > colon {
                assert(message@[colon as int] != ':');
            }
        }
        let trimmed_label = trim_range(message.as_str(), 0, colon);
        let label_len = trimmed_label.as_str().unicode_len();
        let reset_prefix = label_len >= 6 && trimmed_label.as_str().get_char(0) == 'R'
            && trimmed_label.as_str().get_char(1) == 'e' && trimmed_label.as_str().get_char(2) == 's'
            && trimmed_label.as_str().get_char(3) == 'e' && trimmed_label.as_str().get_char(4) == 't'
            && trimmed_label.as_str().get_char(5) == ' ';
        proof {
            let l = trimmed_label@;
            broadcast use vstd::string::group_string_axioms;
            reveal_strlit("Reset ");
            let word = "Reset "@;
            assert(word.len() == 6);
            assert(word[0] == 'R' && word[1] == 'e' && word[2] == 's' && word[3] == 'e' && word[4] == 't' && word[5] == ' ');
            if l.len() >= 6 {
                let head = l.subrange(0, 6);
                if reset_prefix {
                    assert(head =~= word);
                } else if head == word {
                    assert(head[0] == l[0] && head[1] == l[1] && head[2] == l[2]);
                    assert(head[3] == l[3] && head[4] == l[4] && head[5] == l[5]);
                }
            }
        }
        let mut label = String::new();
        if reset_prefix {
            push_chars(&mut label, trimmed_label.as_str(), 6, label_len);
        } else {
            push_chars(&mut label, trimmed_label.as_str(), 0, label_len);
        }
        assert(label@ =~= status_label_value(message@).0);
        let value = trim_range(message.as_str(), colon + 1, len);
        let ghost label_view = label@;
        let ghost value_view = value@;
        self.record(label, value, now);
        proof {
            if trimmed(label_view).len() != 0 {
                assert(final(self).entries@[0].label@ == label_view);
            }
        }
    }

    /// The listed rows: the most recent change always, the others where `recent`
    /// says they changed recently enough.
    pub fn snapshot(&self, recent: &Vec<bool>) -> (rows: Vec<RecentChangeSnapshotRow>)
        requires
            recent@.len() == self.entries@.len(),
        ensures
            row_texts(rows@) == listed_rows(self.entries@, recent@, self.entries@.len()),
    {
        let mut rows: Vec<RecentChangeSnapshotRow> = Vec::new();
        let mut i: usize = 0;
        while i < self.entries.len()
            invariant
                i <= self.entries@.len(),
                recent@.len() == self.entries@.len(),
                row_texts(rows@) == listed_rows(self.entries@, recent@, i as nat),
            decreases self.entries@.len() - i,
        {
            if i == 0 || recent[i] {
                let row = RecentChangeSnapshotRow {
                    label: self.entries[i].label.clone(),
                    value: self.entries[i].value.clone(),
                };
                let ghost before = rows@;
                rows.push(row);
                assert(row_texts(rows@) =~= row_texts(before).push((self.entries@[i as int].label@, self.entries@[i as int].value@)));
            }
            i += 1;
        }
        rows
    }
}

} // verus!
