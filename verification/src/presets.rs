//! Scene preset bookkeeping: slots, stored preset records and their order.
use vstd::prelude::*;
use crate::text::{decimal, join_lines, joined, digit_char, digit_to_char, push_char, push_chars, push_decimal, push_str};

verus! {

/// A preset slot, addressed by a bank digit and a slot digit.
#[derive(Clone, Copy, Debug, PartialEq, Eq, Structural, Hash)]
pub struct PresetIndex {
    pub bank: u8,
    pub slot: u8,
}

/// The two-digit code of a slot: the bank digits followed by the slot digits.
pub open spec fn index_code(index: PresetIndex) -> Seq<char> {
    decimal(index.bank as nat) + decimal(index.slot as nat)
}

impl PresetIndex {
    /// The code of the slot, such as `42` for bank 4, slot 2.
    pub fn code(self) -> (code: String)
        ensures
            code@ == index_code(self),
    {
        let mut code = String::new();
        push_decimal(&mut code, self.bank as u64);
        push_decimal(&mut code, self.slot as u64);
        assert(code@ =~= index_code(self));
        code
    }
}

/// What the next slot code typed on the preset page does.
#[derive(Clone, Copy, Debug, PartialEq, Eq, Structural)]
pub enum PresetCommand {
    Load,
    Save,
    Free,
}

/// The name of a command in the preset strip.
pub open spec fn command_label(command: PresetCommand) -> Seq<char> {
    match command {
        PresetCommand::Load => "load"@,
        PresetCommand::Save => "save"@,
        PresetCommand::Free => "free"@,
    }
}

impl PresetCommand {
    /// The command's name in the preset strip.
    pub fn label(self) -> (label: &'static str)
        ensures
            label@ == command_label(self),
    {
        match self {
            PresetCommand::Load => "load",
            PresetCommand::Save => "save",
            PresetCommand::Free => "free",
        }
    }
}

/// A modification time: whole seconds and nanoseconds since the Unix epoch.
#[derive(Clone, Copy, Debug, PartialEq, Eq, Structural)]
pub struct FileTime {
    pub secs: u64,
    pub nanos: u32,
}

/// What tells a changed preset file from an unchanged one: its length and
/// modification time, when the file system reports one.
#[derive(Clone, Copy, Debug, PartialEq, Eq, Structural)]
pub struct PresetFileStamp {
    pub len: u64,
    pub modified: Option<FileTime>,
}

/// The bookkeeping part of a stored preset file.
#[derive(Debug)]
pub struct PresetFileHeader {
    pub format_version: u32,
    pub id: String,
    pub saved_at_unix_ms: u64,
    pub summary: String,
    pub assignment: Option<PresetIndex>,
}

/// A preset file found in the preset directory.
#[derive(Debug)]
pub struct PresetRecord {
    pub path: String,
    pub stamp: PresetFileStamp,
    pub file: PresetFileHeader,
}

impl PresetFileHeader {
    /// An identical header.
    pub fn duplicate(&self) -> (copy: PresetFileHeader)
        ensures
            copy == *self,
    {
        PresetFileHeader {
            format_version: self.format_version,
            id: self.id.clone(),
            saved_at_unix_ms: self.saved_at_unix_ms,
            summary: self.summary.clone(),
            assignment: self.assignment,
        }
    }
}

impl PresetRecord {
    /// An identical record.
    pub fn duplicate(&self) -> (copy: PresetRecord)
        ensures
            copy == *self,
    {
        PresetRecord { path: self.path.clone(), stamp: self.stamp, file: self.file.duplicate() }
    }
}

/// Whether a record was saved at `saved_at_unix_ms`.
pub open spec fn saved_at_is(saved_at_unix_ms: u64) -> spec_fn(PresetRecord) -> bool {
    |record: PresetRecord| record.file.saved_at_unix_ms == saved_at_unix_ms
}

/// Records ordered from the most recently saved to the oldest.
pub open spec fn newest_first(records: Seq<PresetRecord>) -> bool {
    forall|i: int, j: int|
        0 <= i < j < records.len() ==> records[j].file.saved_at_unix_ms <= records[i].file.saved_at_unix_ms
}

/// `after` holds the records of `before` rearranged: its `i`-th record is the
/// `order[i]`-th of `before`, and no record of `before` is used twice.
pub open spec fn rearranges(before: Seq<PresetRecord>, after: Seq<PresetRecord>, order: Seq<int>) -> bool {
    &&& order.len() == after.len() == before.len()
    &&& forall|i: int| 0 <= i < after.len() ==> 0 <= #[trigger] order[i] < before.len() && after[i] == before[order[i]]
    &&& forall|i: int, j: int| 0 <= i < j < after.len() ==> #[trigger] order[i] != #[trigger] order[j]
}

/// `after` is `before` sorted newest first, records saved at the same time keeping
/// their relative order.
pub open spec fn stably_newest_first(before: Seq<PresetRecord>, after: Seq<PresetRecord>) -> bool {
    &&& after.len() == before.len()
    &&& exists|order: Seq<int>| rearranges(before, after, order)
    &&& newest_first(after)
    &&& forall|saved_at_unix_ms: u64|
        #[trigger] after.filter(saved_at_is(saved_at_unix_ms)) == before.filter(saved_at_is(saved_at_unix_ms))
}

proof fn lemma_filter_single(record: PresetRecord, pred: spec_fn(PresetRecord) -> bool)
    ensures
        seq![record].filter(pred) == if pred(record) { seq![record] } else { Seq::empty() },
{
    Seq::<PresetRecord>::empty().lemma_filter_prepend(record, pred);
    assert(seq![record] + Seq::<PresetRecord>::empty() == seq![record]);
    reveal(Seq::filter);
    assert(Seq::<PresetRecord>::empty().filter(pred) == Seq::<PresetRecord>::empty());
}

/// Inserting a record after every record saved no earlier than it, and before every
/// record saved earlier, extends a stable newest-first order by that record.
proof fn lemma_insert_keeps_order(
    before: Seq<PresetRecord>,
    sorted: Seq<PresetRecord>,
    pos: int,
    record: PresetRecord,
)
    requires
        stably_newest_first(before, sorted),
        0 <= pos <= sorted.len(),
        forall|j: int| 0 <= j < pos ==> record.file.saved_at_unix_ms <= #[trigger] sorted[j].file.saved_at_unix_ms,
        forall|j: int| pos <= j < sorted.len() ==> #[trigger] sorted[j].file.saved_at_unix_ms < record.file.saved_at_unix_ms,
    ensures
        stably_newest_first(before.push(record), sorted.insert(pos, record)),
{
    let after = sorted.insert(pos, record);
    let order = choose|order: Seq<int>| rearranges(before, sorted, order);
    let new_order = order.insert(pos, before.len() as int);
    assert forall|i: int| 0 <= i < after.len() implies 0 <= #[trigger] new_order[i] < before.push(record).len()
        && after[i] == before.push(record)[new_order[i]] by {
        if i < pos {
            assert(new_order[i] == order[i]);
        } else if i > pos {
            assert(new_order[i] == order[i - 1]);
        }
    }
    assert forall|i: int, j: int| 0 <= i < j < after.len() implies #[trigger] new_order[i] != #[trigger] new_order[j] by {
        if i < pos && j > pos {
            assert(new_order[j] == order[j - 1]);
        } else if i > pos {
            assert(new_order[i] == order[i - 1] && new_order[j] == order[j - 1]);
        } else if j < pos {
        } else if i == pos {
            assert(new_order[j] == order[j - 1]);
        } else {
            assert(new_order[i] == order[i]);
        }
    }
    assert(rearranges(before.push(record), after, new_order));
    let head = sorted.subrange(0, pos);
    let tail = sorted.subrange(pos, sorted.len() as int);
    assert(after =~= head + seq![record] + tail);
    assert(sorted =~= head + tail);
    assert forall|i: int, j: int| 0 <= i < j < after.len() implies
        after[j].file.saved_at_unix_ms <= after[i].file.saved_at_unix_ms by {
        if j < pos {
        } else if j == pos {
        } else if i < pos {
        } else if i == pos {
        } else {
            assert(after[i] == sorted[i - 1] && after[j] == sorted[j - 1]);
        }
    }
    assert forall|k: u64| #[trigger] after.filter(saved_at_is(k)) == before.push(record).filter(saved_at_is(k)) by {
        let pred = saved_at_is(k);
        Seq::filter_distributes_over_add(head + seq![record], tail, pred);
        Seq::filter_distributes_over_add(head, seq![record], pred);
        Seq::filter_distributes_over_add(head, tail, pred);
        lemma_filter_single(record, pred);
        reveal(Seq::filter);
        assert(before.push(record).drop_last() == before);
        assert(sorted.filter(pred) == before.filter(pred));
        if k == record.file.saved_at_unix_ms {
            assert(tail.all(|r: PresetRecord| !pred(r))) by {
                assert forall|j: int| 0 <= j < tail.len() implies !pred(#[trigger] tail[j]) by {
                    assert(tail[j] == sorted[pos + j]);
                }
            }
            tail.lemma_all_neg_filter_empty(pred);
            assert(tail.filter(pred) =~= Seq::<PresetRecord>::empty());
            assert(after.filter(pred) =~= sorted.filter(pred).push(record));
        } else {
            assert(after.filter(pred) =~= sorted.filter(pred));
        }
    }
}

/// Sorts records from the most recently saved to the oldest; records saved at the
/// same time keep their relative order.
pub fn sort_preset_records(records: &mut Vec<PresetRecord>)
    ensures
        stably_newest_first(old(records)@, final(records)@),
{
    let mut pending: Vec<PresetRecord> = Vec::new();
    std::mem::swap(records, &mut pending);
    let ghost unsorted = pending@;
    let ghost mut taken: int = 0;
    assert(unsorted.subrange(0, 0) =~= Seq::<PresetRecord>::empty());
    assert(records@ =~= Seq::<PresetRecord>::empty());
    assert(rearranges(unsorted.subrange(0, 0), records@, Seq::<int>::empty()));
    while pending.len() > 0
        invariant
            0 <= taken <= unsorted.len(),
            pending@ == unsorted.subrange(taken, unsorted.len() as int),
            stably_newest_first(unsorted.subrange(0, taken), records@),
        decreases pending@.len(),
    {
        let record = pending.remove(0);
        let mut pos: usize = 0;
        while pos < records.len() && record.file.saved_at_unix_ms <= records[pos].file.saved_at_unix_ms
            invariant
                pos <= records@.len(),
                forall|j: int| 0 <= j < pos ==> record.file.saved_at_unix_ms <= #[trigger] records@[j].file.saved_at_unix_ms,
            decreases records@.len() - pos,
        {
            pos += 1;
        }
        proof {
            assert forall|j: int| pos <= j < records@.len() implies
                #[trigger] records@[j].file.saved_at_unix_ms < record.file.saved_at_unix_ms by {
                assert(records@[pos as int].file.saved_at_unix_ms < record.file.saved_at_unix_ms);
            }
            lemma_insert_keeps_order(unsorted.subrange(0, taken), records@, pos as int, record);
            assert(unsorted.subrange(0, taken + 1) =~= unsorted.subrange(0, taken).push(record));
        }
        records.insert(pos, record);
        proof {
            taken = taken + 1;
        }
        assert(pending@ =~= unsorted.subrange(taken, unsorted.len() as int));
    }
    assert(unsorted.subrange(0, taken) =~= unsorted);
}

/// Whether a record is assigned to the slot `index`.
pub open spec fn assigned_to(index: PresetIndex) -> spec_fn(PresetRecord) -> bool {
    |record: PresetRecord| record.file.assignment == Some(index)
}

/// The occupancy mark of a slot: `.` when no preset is assigned to it, the slot digit
/// when one is, `!` when several are.
pub open spec fn occupancy_symbol(count: nat, slot: nat) -> char {
    if count == 0 {
        '.'
    } else if count == 1 {
        digit_char(slot)
    } else {
        '!'
    }
}

/// The occupancy marks of the ten slots of `bank`.
pub open spec fn bank_occupancy_text(records: Seq<PresetRecord>, bank: u8) -> Seq<char> {
    Seq::new(
        10,
        |slot: int| occupancy_symbol(records.filter(assigned_to(PresetIndex { bank, slot: slot as u8 })).len(), slot as nat),
    )
}

/// How many of `records` are assigned to `index`.
pub fn count_assigned(records: &Vec<PresetRecord>, index: PresetIndex) -> (count: usize)
    ensures
        count == records@.filter(assigned_to(index)).len(),
{
    let mut count: usize = 0;
    let mut i: usize = 0;
    while i < records.len()
        invariant
            i <= records@.len(),
            count == records@.subrange(0, i as int).filter(assigned_to(index)).len(),
            count <= i,
        decreases records@.len() - i,
    {
        proof {
            let prefix = records@.subrange(0, i + 1);
            assert(prefix.drop_last() == records@.subrange(0, i as int));
            reveal(Seq::filter);
        }
        if records[i].file.assignment == Some(index) {
            count += 1;
        }
        i += 1;
    }
    assert(records@.subrange(0, i as int) == records@);
    count
}

/// Copies of the records assigned to `index`, in their order.
fn assigned_records(records: &Vec<PresetRecord>, index: PresetIndex) -> (found: Vec<PresetRecord>)
    ensures
        found@ == records@.filter(assigned_to(index)),
{
    let mut found: Vec<PresetRecord> = Vec::new();
    let mut i: usize = 0;
    while i < records.len()
        invariant
            i <= records@.len(),
            found@ == records@.subrange(0, i as int).filter(assigned_to(index)),
        decreases records@.len() - i,
    {
        proof {
            let prefix = records@.subrange(0, i + 1);
            assert(prefix.drop_last() == records@.subrange(0, i as int));
            reveal(Seq::filter);
        }
        if records[i].file.assignment == Some(index) {
            found.push(records[i].duplicate());
        }
        i += 1;
    }
    assert(records@.subrange(0, i as int) == records@);
    found
}

/// No path occurs twice among `records`.
pub open spec fn paths_unique(records: Seq<PresetRecord>) -> bool {
    forall|i: int, j: int|
        #![trigger records[i], records[j]]
        0 <= i < j < records.len() ==> records[i].path@ != records[j].path@
}

/// `i` is the first position of `records` whose path is `path`.
pub open spec fn first_path_match(records: Seq<PresetRecord>, path: Seq<char>, i: int) -> bool {
    &&& 0 <= i < records.len()
    &&& records[i].path@ == path
    &&& forall|j: int| 0 <= j < i ==> #[trigger] records[j].path@ != path
}

/// `records` with `record` in place of the first record with its path, or appended
/// when no record has its path.
pub open spec fn upserted(records: Seq<PresetRecord>, record: PresetRecord) -> Seq<PresetRecord> {
    if exists|i: int| first_path_match(records, record.path@, i) {
        records.update(choose|i: int| first_path_match(records, record.path@, i), record)
    } else {
        records.push(record)
    }
}

/// `record` with its slot assignment replaced by `assignment`.
pub open spec fn with_assignment(record: PresetRecord, assignment: Option<PresetIndex>) -> PresetRecord {
    PresetRecord {
        path: record.path,
        stamp: record.stamp,
        file: PresetFileHeader {
            format_version: record.file.format_version,
            id: record.file.id,
            saved_at_unix_ms: record.file.saved_at_unix_ms,
            summary: record.file.summary,
            assignment,
        },
    }
}

/// `records` with every slot assignment removed.
pub open spec fn unassigned_copies(records: Seq<PresetRecord>) -> Seq<PresetRecord> {
    Seq::new(records.len(), |k: int| with_assignment(records[k], None))
}

/// The chooser's candidates after keeping the `selected`-th: it stays assigned to
/// `index`, every other candidate loses its assignment.
pub open spec fn resolved_copies(candidates: Seq<PresetRecord>, selected: int, index: PresetIndex) -> Seq<PresetRecord> {
    Seq::new(
        candidates.len(),
        |k: int| with_assignment(candidates[k], if k == selected { Some(index) } else { None }),
    )
}

/// `record` is one of `updates`.
pub open spec fn from_updates(record: PresetRecord, updates: Seq<PresetRecord>) -> bool {
    exists|m: int| 0 <= m < updates.len() && updates[m] == record
}

/// `record` is one of `before` whose path none of `updates` has.
pub open spec fn kept_from(record: PresetRecord, before: Seq<PresetRecord>, updates: Seq<PresetRecord>) -> bool {
    &&& exists|j: int| 0 <= j < before.len() && before[j] == record
    &&& forall|m: int| 0 <= m < updates.len() ==> #[trigger] updates[m].path@ != record.path@
}

/// What upserting `updates` one after the other into `before` gives `after`: when the
/// paths of `before` are unique they stay unique and every record of `after` is one of
/// `updates` or a record of `before` that no update replaced; when the paths of
/// `updates` are unique every update is in `after`.
pub open spec fn upsert_outcome(before: Seq<PresetRecord>, updates: Seq<PresetRecord>, after: Seq<PresetRecord>) -> bool {
    &&& paths_unique(before) ==> paths_unique(after)
    &&& paths_unique(before) ==> forall|i: int|
        0 <= i < after.len() ==> from_updates(#[trigger] after[i], updates) || kept_from(after[i], before, updates)
    &&& paths_unique(updates) ==> forall|m: int| 0 <= m < updates.len() ==> after.contains(#[trigger] updates[m])
}

/// A sorted sequence holds the same records as the sequence it was sorted from.
proof fn lemma_sorted_members(before: Seq<PresetRecord>, after: Seq<PresetRecord>)
    requires
        stably_newest_first(before, after),
    ensures
        forall|i: int| 0 <= i < after.len() ==> before.contains(#[trigger] after[i]),
        forall|j: int| 0 <= j < before.len() ==> after.contains(#[trigger] before[j]),
        paths_unique(before) ==> paths_unique(after),
{
    let order = choose|order: Seq<int>| rearranges(before, after, order);
    assert forall|i: int| 0 <= i < after.len() implies before.contains(#[trigger] after[i]) by {
        assert(before[order[i]] == after[i]);
    }
    assert forall|j: int| 0 <= j < before.len() implies after.contains(#[trigger] before[j]) by {
        let pred = saved_at_is(before[j].file.saved_at_unix_ms);
        before.lemma_filter_contains(pred, j);
        assert(after.filter(pred) == before.filter(pred));
        after.lemma_filter_contains_rev(pred, before[j]);
    }
    if paths_unique(before) {
        assert forall|i: int, j: int| 0 <= i < j < after.len() implies after[i].path@ != after[j].path@ by {
            assert(after[i] == before[order[i]] && after[j] == before[order[j]]);
            assert(order[i] != order[j]);
            if order[i] > order[j] {
                assert(before[order[j]].path@ != before[order[i]].path@);
            }
        }
    }
}

/// Filtering keeps paths unique.
proof fn lemma_filter_paths_unique(records: Seq<PresetRecord>, pred: spec_fn(PresetRecord) -> bool)
    requires
        paths_unique(records),
    ensures
        paths_unique(records.filter(pred)),
    decreases records.len(),
{
    reveal(Seq::filter);
    if records.len() > 0 {
        let rest = records.drop_last();
        assert(paths_unique(rest)) by {
            assert forall|i: int, j: int| 0 <= i < j < rest.len() implies rest[i].path@ != rest[j].path@ by {
                assert(rest[i] == records[i] && rest[j] == records[j]);
            }
        }
        lemma_filter_paths_unique(rest, pred);
        let sub = rest.filter(pred);
        if pred(records.last()) {
            let out = sub.push(records.last());
            assert forall|i: int, j: int| 0 <= i < j < out.len() implies out[i].path@ != out[j].path@ by {
                if j == out.len() - 1 {
                    assert(sub.contains(out[i]));
                    rest.lemma_filter_contains_rev(pred, out[i]);
                    let k = choose|k: int| 0 <= k < rest.len() && rest[k] == out[i];
                    assert(records[k] == rest[k]);
                    assert(records[records.len() - 1] == records.last());
                } else {
                    assert(out[i] == sub[i] && out[j] == sub[j]);
                }
            }
        }
    }
}

/// What upserting one record does to the records.
proof fn lemma_upserted_facts(records: Seq<PresetRecord>, record: PresetRecord)
    ensures
        upserted(records, record).contains(record),
        paths_unique(records) ==> forall|i: int| 0 <= i < upserted(records, record).len() ==>
            #[trigger] upserted(records, record)[i] == record || (exists|j: int|
                0 <= j < records.len() && records[j] == upserted(records, record)[i] && records[j].path@ != record.path@),
        forall|j: int| 0 <= j < records.len() && #[trigger] records[j].path@ != record.path@
            ==> upserted(records, record).contains(records[j]),
        paths_unique(records) ==> paths_unique(upserted(records, record)),
{
    if exists|i: int| first_path_match(records, record.path@, i) {
        let at = choose|i: int| first_path_match(records, record.path@, i);
        lemma_upserted_in_place(records, record, at);
    } else {
        assert forall|i: int| 0 <= i < records.len() implies #[trigger] records[i].path@ != record.path@ by {
            if records[i].path@ == record.path@ {
                lemma_first_match_exists(records, record.path@, i);
            }
        }
        lemma_upserted_appended(records, record);
    }
}

proof fn lemma_upserted_in_place(records: Seq<PresetRecord>, record: PresetRecord, at: int)
    requires
        first_path_match(records, record.path@, at),
        upserted(records, record) == records.update(at, record),
    ensures
        upserted(records, record).contains(record),
        paths_unique(records) ==> forall|i: int| 0 <= i < upserted(records, record).len() ==>
            #[trigger] upserted(records, record)[i] == record || (exists|j: int|
                0 <= j < records.len() && records[j] == upserted(records, record)[i] && records[j].path@ != record.path@),
        forall|j: int| 0 <= j < records.len() && #[trigger] records[j].path@ != record.path@
            ==> upserted(records, record).contains(records[j]),
        paths_unique(records) ==> paths_unique(upserted(records, record)),
{
    let merged = records.update(at, record);
    assert(merged[at] == record);
    if paths_unique(records) {
        assert forall|i: int| 0 <= i < merged.len() implies
            #[trigger] merged[i] == record || (exists|j: int|
                0 <= j < records.len() && records[j] == merged[i] && records[j].path@ != record.path@) by {
            if i != at {
                assert(records[i] == merged[i]);
                if i < at {
                    assert(records[i].path@ != records[at].path@);
                } else {
                    assert(records[at].path@ != records[i].path@);
                }
            }
        }
        assert forall|i: int, j: int| 0 <= i < j < merged.len() implies merged[i].path@ != merged[j].path@ by {
            if i == at {
                assert(records[at].path@ != records[j].path@);
            } else if j == at {
                assert(records[i].path@ != records[at].path@);
            } else {
                assert(merged[i] == records[i] && merged[j] == records[j]);
            }
        }
    }
    assert forall|j: int| 0 <= j < records.len() && #[trigger] records[j].path@ != record.path@
        implies merged.contains(records[j]) by {
        assert(merged[j] == records[j]);
    }
}

proof fn lemma_upserted_appended(records: Seq<PresetRecord>, record: PresetRecord)
    requires
        forall|i: int| 0 <= i < records.len() ==> #[trigger] records[i].path@ != record.path@,
        upserted(records, record) == records.push(record),
    ensures
        upserted(records, record).contains(record),
        forall|i: int| 0 <= i < upserted(records, record).len() ==>
            #[trigger] upserted(records, record)[i] == record || (exists|j: int|
                0 <= j < records.len() && records[j] == upserted(records, record)[i] && records[j].path@ != record.path@),
        forall|j: int| 0 <= j < records.len() && #[trigger] records[j].path@ != record.path@
            ==> upserted(records, record).contains(records[j]),
        paths_unique(records) ==> paths_unique(upserted(records, record)),
{
    let merged = records.push(record);
    assert(merged[records.len() as int] == record);
    assert forall|i: int| 0 <= i < merged.len() implies
        #[trigger] merged[i] == record || (exists|j: int|
            0 <= j < records.len() && records[j] == merged[i] && records[j].path@ != record.path@) by {
        if i < records.len() {
            assert(records[i] == merged[i]);
        }
    }
    assert forall|j: int| 0 <= j < records.len() && #[trigger] records[j].path@ != record.path@
        implies merged.contains(records[j]) by {
        assert(merged[j] == records[j]);
    }
    if paths_unique(records) {
        assert forall|i: int, j: int| 0 <= i < j < merged.len() implies merged[i].path@ != merged[j].path@ by {
            if j == records.len() {
                assert(merged[i] == records[i]);
            } else {
                assert(merged[i] == records[i] && merged[j] == records[j]);
            }
        }
    }
}

/// A path that occurs among `records` has a first occurrence.
proof fn lemma_first_match_exists(records: Seq<PresetRecord>, path: Seq<char>, i: int)
    requires
        0 <= i < records.len(),
        records[i].path@ == path,
    ensures
        exists|k: int| first_path_match(records, path, k),
    decreases i,
{
    if exists|j: int| 0 <= j < i && #[trigger] records[j].path@ == path {
        let j = choose|j: int| 0 <= j < i && #[trigger] records[j].path@ == path;
        lemma_first_match_exists(records, path, j);
    } else {
        assert(first_path_match(records, path, i));
    }
}

/// One more upsert extends the outcome of the upserts before it.
proof fn lemma_upsert_step(
    before: Seq<PresetRecord>,
    updates: Seq<PresetRecord>,
    k: int,
    records: Seq<PresetRecord>,
    after: Seq<PresetRecord>,
)
    requires
        0 <= k < updates.len(),
        upsert_outcome(before, updates.subrange(0, k), records),
        stably_newest_first(upserted(records, updates[k]), after),
    ensures
        upsert_outcome(before, updates.subrange(0, k + 1), after),
{
    let done = updates.subrange(0, k);
    let next = updates.subrange(0, k + 1);
    let record = updates[k];
    let merged = upserted(records, record);
    lemma_upserted_facts(records, record);
    lemma_sorted_members(merged, after);
    assert(next == done.push(record));
    if paths_unique(before) {
        assert forall|i: int| 0 <= i < after.len() implies
            from_updates(#[trigger] after[i], next) || kept_from(after[i], before, next) by {
            assert(merged.contains(after[i]));
            let at = choose|at: int| 0 <= at < merged.len() && merged[at] == after[i];
            if merged[at] == record {
                assert(next[k] == record);
            } else {
                let j = choose|j: int| 0 <= j < records.len() && records[j] == merged[at] && records[j].path@ != record.path@;
                assert(from_updates(records[j], done) || kept_from(records[j], before, done));
                if from_updates(records[j], done) {
                    let m = choose|m: int| 0 <= m < done.len() && done[m] == records[j];
                    assert(next[m] == done[m]);
                } else {
                    assert forall|m: int| 0 <= m < next.len() implies #[trigger] next[m].path@ != after[i].path@ by {
                        if m < k {
                            assert(next[m] == done[m]);
                        }
                    }
                }
            }
        }
    }
    if paths_unique(next) {
        assert(paths_unique(done)) by {
            assert forall|i: int, j: int| 0 <= i < j < done.len() implies done[i].path@ != done[j].path@ by {
                assert(done[i] == next[i] && done[j] == next[j]);
            }
        }
        assert forall|m: int| 0 <= m < next.len() implies after.contains(#[trigger] next[m]) by {
            if m < k {
                assert(next[m] == done[m]);
                assert(records.contains(done[m]));
                let j = choose|j: int| 0 <= j < records.len() && records[j] == done[m];
                assert(next[m].path@ != next[k].path@);
                assert(merged.contains(records[j]));
                let at = choose|at: int| 0 <= at < merged.len() && merged[at] == records[j];
                assert(after.contains(merged[at]));
            } else {
                let at = choose|at: int| 0 <= at < merged.len() && merged[at] == record;
                assert(after.contains(merged[at]));
            }
        }
    }
}

/// A record of `before` assigned to `index` has the path of one of `found`, when
/// `found` is the sorted list of the records assigned to `index`.
proof fn lemma_slot_records_listed(
    before: Seq<PresetRecord>,
    index: PresetIndex,
    found: Seq<PresetRecord>,
    j: int,
)
    requires
        stably_newest_first(before.filter(assigned_to(index)), found),
        0 <= j < before.len(),
        before[j].file.assignment == Some(index),
    ensures
        exists|m: int| 0 <= m < found.len() && #[trigger] found[m] == before[j],
{
    before.lemma_filter_contains(assigned_to(index), j);
    let listed = before.filter(assigned_to(index));
    let at = choose|at: int| 0 <= at < listed.len() && listed[at] == before[j];
    lemma_sorted_members(listed, found);
    assert(found.contains(listed[at]));
}

/// Freeing a slot empties it: when no path occurs twice among the records, upserting
/// unassigned copies of the records assigned to `index` (listed newest first, as
/// `freed_records` makes them) leaves no record assigned to `index`, and no path twice.
pub proof fn freeing_empties_slot(
    before: Seq<PresetRecord>,
    index: PresetIndex,
    found: Seq<PresetRecord>,
    after: Seq<PresetRecord>,
)
    requires
        paths_unique(before),
        stably_newest_first(before.filter(assigned_to(index)), found),
        upsert_outcome(before, unassigned_copies(found), after),
    ensures
        paths_unique(after),
        forall|i: int| 0 <= i < after.len() ==> (#[trigger] after[i]).file.assignment != Some(index),
{
    let updates = unassigned_copies(found);
    assert forall|i: int| 0 <= i < after.len() implies (#[trigger] after[i]).file.assignment != Some(index) by {
        if from_updates(after[i], updates) {
            let m = choose|m: int| 0 <= m < updates.len() && updates[m] == after[i];
            assert(updates[m].file.assignment is None);
        } else {
            assert(kept_from(after[i], before, updates));
            let j = choose|j: int| 0 <= j < before.len() && before[j] == after[i];
            if before[j].file.assignment == Some(index) {
                lemma_slot_records_listed(before, index, found, j);
                let m = choose|m: int| 0 <= m < found.len() && #[trigger] found[m] == before[j];
                assert(updates[m].path@ == found[m].path@);
                assert(updates[m].path@ != after[i].path@);
            }
        }
    }
}

/// Resolving a slot keeps one preset in it: when no path occurs twice among the
/// records, upserting the chooser's candidates (the records assigned to `index`,
/// newest first, as `start_collision_resolution` lists them) with only the
/// `selected`-th still assigned (as `take_resolution` makes them) leaves exactly
/// one record assigned to `index`, the kept candidate, and no path twice.
pub proof fn resolving_keeps_one_preset(
    before: Seq<PresetRecord>,
    index: PresetIndex,
    candidates: Seq<PresetRecord>,
    selected: int,
    after: Seq<PresetRecord>,
)
    requires
        paths_unique(before),
        stably_newest_first(before.filter(assigned_to(index)), candidates),
        0 <= selected < candidates.len(),
        upsert_outcome(before, resolved_copies(candidates, selected, index), after),
    ensures
        paths_unique(after),
        exists|i: int|
            0 <= i < after.len() && after[i] == resolved_copies(candidates, selected, index)[selected]
            && after[i].file.assignment == Some(index)
            && forall|j: int| 0 <= j < after.len() && (#[trigger] after[j]).file.assignment == Some(index) ==> j == i,
{
    let updates = resolved_copies(candidates, selected, index);
    let listed = before.filter(assigned_to(index));
    lemma_filter_paths_unique(before, assigned_to(index));
    lemma_sorted_members(listed, candidates);
    assert(paths_unique(updates)) by {
        assert forall|i: int, j: int| 0 <= i < j < updates.len() implies updates[i].path@ != updates[j].path@ by {
            assert(updates[i].path@ == candidates[i].path@ && updates[j].path@ == candidates[j].path@);
        }
    }
    assert(after.contains(updates[selected]));
    let i = choose|i: int| 0 <= i < after.len() && after[i] == updates[selected];
    assert forall|j: int| 0 <= j < after.len() && (#[trigger] after[j]).file.assignment == Some(index) implies j == i by {
        if from_updates(after[j], updates) {
            let m = choose|m: int| 0 <= m < updates.len() && updates[m] == after[j];
            assert(m == selected);
            if j != i {
                if j < i {
                    assert(after[j].path@ != after[i].path@);
                } else {
                    assert(after[i].path@ != after[j].path@);
                }
            }
        } else {
            assert(kept_from(after[j], before, updates));
            let k = choose|k: int| 0 <= k < before.len() && before[k] == after[j];
            lemma_slot_records_listed(before, index, candidates, k);
            let m = choose|m: int| 0 <= m < candidates.len() && #[trigger] candidates[m] == before[k];
            assert(updates[m].path@ == candidates[m].path@);
            assert(updates[m].path@ != after[j].path@);
        }
    }
}

/// The chooser shown when several presets are assigned to one slot.
#[derive(Debug)]
pub struct CollisionResolutionState {
    pub index: PresetIndex,
    pub selected: usize,
    pub candidates: Vec<PresetRecord>,
    pub load_after_resolution: bool,
}

/// One bank of the preset strip: its occupancy marks, split around the highlighted slot.
#[derive(Debug)]
pub struct PresetStripBankSegment {
    pub bank: u8,
    pub label: String,
    pub prefix: String,
    pub selected_slot: String,
    pub suffix: String,
    pub emphasize_bank: bool,
    pub emphasize_selected_slot: bool,
}

/// The preset strip: command, partly typed slot, the ten banks and the status message.
#[derive(Debug)]
pub struct PresetStripSegments {
    pub command: &'static str,
    pub target: String,
    pub banks: Vec<PresetStripBankSegment>,
    pub status: String,
    pub emphasize_command: bool,
    pub emphasize_target: bool,
}

/// `segment` shows bank `bank` with occupancy marks `occupancy`, split around the
/// highlighted slot when the highlighted slot lies in this bank.
pub open spec fn bank_segment_shows(
    segment: PresetStripBankSegment,
    bank: u8,
    occupancy: Seq<char>,
    highlighted: Option<PresetIndex>,
) -> bool {
    &&& segment.bank == bank
    &&& segment.label@ == decimal(bank as nat)
    &&& match highlighted {
        Some(index) if index.bank == bank => {
            let slot = index.slot as int;
            &&& segment.prefix@ == seq!['['] + occupancy.subrange(0, slot)
            &&& segment.selected_slot@ == if slot < occupancy.len() { seq![occupancy[slot]] } else { Seq::empty() }
            &&& segment.suffix@ == if slot < occupancy.len() {
                occupancy.subrange(slot + 1, occupancy.len() as int).push(']')
            } else {
                seq![']']
            }
            &&& segment.emphasize_bank
            &&& segment.emphasize_selected_slot == (slot < occupancy.len())
        },
        _ => {
            &&& segment.prefix@ == seq!['['] + occupancy + seq![']']
            &&& segment.selected_slot@ == Seq::<char>::empty()
            &&& segment.suffix@ == Seq::<char>::empty()
            &&& !segment.emphasize_bank
            &&& !segment.emphasize_selected_slot
        },
    }
}

/// Status after loading from an empty slot.
pub open spec fn empty_slot_message(index: PresetIndex) -> Seq<char> {
    "slot "@ + index_code(index) + " is empty"@
}

/// Printed when loading a slot that holds several presets.
pub open spec fn load_collision_message(index: PresetIndex) -> Seq<char> {
    "Slot "@ + index_code(index) + " has multiple assigned presets. Resolve the chooser."@
}

/// Status after loading a preset.
pub open spec fn loaded_message(index: PresetIndex, summary: Seq<char>) -> Seq<char> {
    "Loaded scene preset "@ + index_code(index) + ": "@ + summary
}

/// Printed when saving into a slot that already holds a preset.
pub open spec fn save_collision_message(index: PresetIndex) -> Seq<char> {
    "Stored a new scene preset in slot "@ + index_code(index) + ". Resolve which preset stays assigned."@
}

/// Status after saving a preset.
pub open spec fn stored_message(index: PresetIndex, summary: Seq<char>) -> Seq<char> {
    "Stored scene preset "@ + index_code(index) + ": "@ + summary
}

/// Status after freeing an empty slot.
pub open spec fn already_empty_message(index: PresetIndex) -> Seq<char> {
    "slot "@ + index_code(index) + " is already empty"@
}

/// Status after freeing a slot.
pub open spec fn freed_message(index: PresetIndex) -> Seq<char> {
    "Freed scene preset slot "@ + index_code(index) + "."@
}

/// Status after resolving a slot.
pub open spec fn resolved_message(index: PresetIndex, summary: Seq<char>) -> Seq<char> {
    "Slot "@ + index_code(index) + " now points to "@ + summary + "."@
}

/// What a completed slot code asks of the caller.
#[derive(Debug)]
pub enum SlotOutcome {
    /// Nothing more to do; the message, if any, is printed.
    Finished(Option<String>),
    /// The slot's one preset is applied to the scene, then `finish_load` is called.
    Apply(PresetRecord),
    /// The scene is stored in a new preset file, then `finish_save` is called.
    Save,
    /// These unassigned copies are written back, then `finish_free` is called.
    Free(Vec<PresetRecord>),
}

/// The browser of stored scene presets.
#[derive(Debug)]
pub struct PresetBrowserState {
    pub command: PresetCommand,
    pub first_digit: Option<u8>,
    pub status_message: String,
    pub records: Vec<PresetRecord>,
    pub chooser: Option<CollisionResolutionState>,
    pub highlighted_index: Option<PresetIndex>,
}

impl Default for PresetBrowserState {
    fn default() -> (state: PresetBrowserState)
        ensures
            state.command == PresetCommand::Load,
            state.first_digit is None,
            state.status_message@ == Seq::<char>::empty(),
            state.records@ == Seq::<PresetRecord>::empty(),
            state.chooser is None,
            state.highlighted_index is None,
    {
        PresetBrowserState {
            command: PresetCommand::Load,
            first_digit: None,
            status_message: String::new(),
            records: Vec::new(),
            chooser: None,
            highlighted_index: None,
        }
    }
}

impl PresetBrowserState {
    /// Whether the slot chooser is shown.
    pub fn chooser_visible(&self) -> (visible: bool)
        ensures
            visible == self.chooser is Some,
    {
        self.chooser.is_some()
    }

    /// The occupancy marks of the ten slots of `bank`.
    pub fn bank_occupancy(&self, bank: u8) -> (occupancy: String)
        ensures
            occupancy@ == bank_occupancy_text(self.records@, bank),
    {
        let mut occupancy = String::new();
        let mut slot: u8 = 0;
        while slot < 10
            invariant
                slot <= 10,
                occupancy@ == bank_occupancy_text(self.records@, bank).subrange(0, slot as int),
            decreases 10 - slot,
        {
            let count = count_assigned(&self.records, PresetIndex { bank, slot });
            let symbol = if count == 0 {
                '.'
            } else if count == 1 {
                digit_to_char(slot as u64)
            } else {
                '!'
            };
            push_char(&mut occupancy, symbol);
            assert(bank_occupancy_text(self.records@, bank).subrange(0, slot + 1)
                == bank_occupancy_text(self.records@, bank).subrange(0, slot as int).push(symbol));
            slot += 1;
        }
        assert(bank_occupancy_text(self.records@, bank).subrange(0, 10) == bank_occupancy_text(self.records@, bank));
        occupancy
    }

    /// The strip segment of `bank`.
    pub fn strip_bank_segment(&self, bank: u8) -> (segment: PresetStripBankSegment)
        requires
            self.highlighted_index matches Some(index) ==> (index.bank == bank ==> index.slot <= 10),
        ensures
            bank_segment_shows(segment, bank, bank_occupancy_text(self.records@, bank), self.highlighted_index),
    {
        let occupancy = self.bank_occupancy(bank);
        let mut label = String::new();
        push_decimal(&mut label, bank as u64);
        assert(label@ =~= decimal(bank as nat));
        match self.highlighted_index {
            Some(index) if index.bank == bank => {
                let slot = index.slot as usize;
                let mut prefix = String::new();
                push_char(&mut prefix, '[');
                push_chars(&mut prefix, occupancy.as_str(), 0, slot);
                let mut selected_slot = String::new();
                let mut suffix = String::new();
                if slot < 10 {
                    push_char(&mut selected_slot, occupancy.as_str().get_char(slot));
                    push_chars(&mut suffix, occupancy.as_str(), slot + 1, 10);
                }
                push_char(&mut suffix, ']');
                assert(prefix@ =~= seq!['['] + occupancy@.subrange(0, slot as int));
                assert(slot < 10 ==> selected_slot@ =~= seq![occupancy@[slot as int]]);
                assert(slot < 10 ==> suffix@ =~= occupancy@.subrange(slot + 1, 10).push(']'));
                assert(slot >= 10 ==> suffix@ =~= seq![']']);
                PresetStripBankSegment {
                    bank,
                    label,
                    prefix,
                    selected_slot,
                    suffix,
                    emphasize_bank: true,
                    emphasize_selected_slot: slot < 10,
                }
            },
            _ => {
                let mut prefix = String::new();
                push_char(&mut prefix, '[');
                push_str(&mut prefix, occupancy.as_str());
                push_char(&mut prefix, ']');
                assert(prefix@ =~= seq!['['] + occupancy@ + seq![']']);
                PresetStripBankSegment {
                    bank,
                    label,
                    prefix,
                    selected_slot: String::new(),
                    suffix: String::new(),
                    emphasize_bank: false,
                    emphasize_selected_slot: false,
                }
            },
        }
    }

    /// The preset strip.
    pub fn strip_segments(&self) -> (segments: PresetStripSegments)
        requires
            self.highlighted_index matches Some(index) ==> (index.bank < 10 ==> index.slot <= 10),
        ensures
            segments.command@ == command_label(self.command),
            segments.target@ == match self.first_digit {
                Some(bank) => seq![' '] + decimal(bank as nat) + seq!['_'],
                None => Seq::<char>::empty(),
            },
            segments.banks@.len() == 10,
            forall|bank: int| 0 <= bank < 10 ==> bank_segment_shows(
                #[trigger] segments.banks@[bank],
                bank as u8,
                bank_occupancy_text(self.records@, bank as u8),
                self.highlighted_index,
            ),
            segments.status@ == if self.status_message@.len() == 0 {
                Seq::<char>::empty()
            } else {
                " | "@ + self.status_message@
            },
            segments.emphasize_command == (self.command == PresetCommand::Save),
            segments.emphasize_target == self.first_digit is Some,
    {
        let mut target = String::new();
        if let Some(bank) = self.first_digit {
            push_char(&mut target, ' ');
            push_decimal(&mut target, bank as u64);
            push_char(&mut target, '_');
            assert(target@ =~= seq![' '] + decimal(bank as nat) + seq!['_']);
        }
        let mut banks: Vec<PresetStripBankSegment> = Vec::new();
        let mut bank: u8 = 0;
        while bank < 10
            invariant
                bank <= 10,
                banks@.len() == bank,
                self.highlighted_index matches Some(index) ==> (index.bank < 10 ==> index.slot <= 10),
                forall|b: int| 0 <= b < bank ==> bank_segment_shows(
                    #[trigger] banks@[b],
                    b as u8,
                    bank_occupancy_text(self.records@, b as u8),
                    self.highlighted_index,
                ),
            decreases 10 - bank,
        {
            let segment = self.strip_bank_segment(bank);
            banks.push(segment);
            bank += 1;
        }
        let mut status = String::new();
        if !self.status_message.as_str().is_empty() {
            push_str(&mut status, " | ");
            push_str(&mut status, self.status_message.as_str());
        }
        PresetStripSegments {
            command: self.command.label(),
            target,
            banks,
            status,
            emphasize_command: self.command == PresetCommand::Save,
            emphasize_target: self.first_digit.is_some(),
        }
    }

    /// The chooser listing, when the chooser is shown.
    pub fn chooser_text(&self) -> (text: Option<String>)
        ensures
            text is Some == self.chooser is Some,
            text is Some ==> text->0@ == joined(chooser_lines(self.chooser->0), "\n"@),
    {
        match &self.chooser {
            None => None,
            Some(chooser) => {
                let mut lines: Vec<String> = Vec::new();
                let mut heading = String::new();
                push_str(&mut heading, "Resolve slot ");
                let code = chooser.index.code();
                push_str(&mut heading, code.as_str());
                lines.push(heading);
                let ghost first = seq!["Resolve slot "@ + index_code(chooser.index)];
                assert(lines.deep_view() =~= first);
                let mut i: usize = 0;
                while i < chooser.candidates.len()
                    invariant
                        i <= chooser.candidates@.len(),
                        lines.deep_view() == first + Seq::new(i as nat, |k: int| chooser_line(chooser.candidates@[k], k == chooser.selected)),
                    decreases chooser.candidates@.len() - i,
                {
                    let candidate = &chooser.candidates[i];
                    let mut line = String::new();
                    push_char(&mut line, if i == chooser.selected { '>' } else { ' ' });
                    push_char(&mut line, ' ');
                    push_decimal(&mut line, candidate.file.saved_at_unix_ms);
                    push_char(&mut line, ' ');
                    push_str(&mut line, candidate.file.summary.as_str());
                    assert(line@ =~= chooser_line(chooser.candidates@[i as int], i == chooser.selected));
                    let ghost before = lines.deep_view();
                    let ghost line_view = line@;
                    lines.push(line);
                    assert(lines.deep_view() =~= before.push(line_view));
                    i += 1;
                    assert(lines.deep_view() =~= first + Seq::new(i as nat, |k: int| chooser_line(chooser.candidates@[k], k == chooser.selected)));
                }
                let ghost listed = lines.deep_view();
                let mut footer = String::new();
                push_str(&mut footer, "Up/Down choose  Enter keep  Esc close");
                let ghost footer_view = footer@;
                lines.push(footer);
                assert(lines.deep_view() =~= listed.push(footer_view));
                assert(lines.deep_view() =~= chooser_lines(*chooser));
                Some(join_lines(&lines))
            },
        }
    }

    /// Opens the preset page: back to loading, with no typed digit, no chooser and no
    /// status. Reading the preset directory follows, through `begin_refresh`,
    /// `take_cached_record` and `finish_refresh`.
    pub fn open_page(&mut self)
        ensures
            final(self).command == PresetCommand::Load,
            final(self).first_digit is None,
            final(self).chooser is None,
            final(self).status_message@ == Seq::<char>::empty(),
            final(self).records == old(self).records,
            final(self).highlighted_index == old(self).highlighted_index,
    {
        self.reset_page();
    }

    /// Closes the preset page: back to loading, with no typed digit, no chooser and no status.
    pub fn close_page(&mut self)
        ensures
            final(self).command == PresetCommand::Load,
            final(self).first_digit is None,
            final(self).chooser is None,
            final(self).status_message@ == Seq::<char>::empty(),
            final(self).records == old(self).records,
            final(self).highlighted_index == old(self).highlighted_index,
    {
        self.reset_page();
    }

    fn reset_page(&mut self)
        ensures
            final(self).command == PresetCommand::Load,
            final(self).first_digit is None,
            final(self).chooser is None,
            final(self).status_message@ == Seq::<char>::empty(),
            final(self).records == old(self).records,
            final(self).highlighted_index == old(self).highlighted_index,
    {
        self.command = PresetCommand::Load;
        self.first_digit = None;
        self.chooser = None;
        self.status_message = String::new();
    }

    /// Arms saving: the next slot code stores the current scene there.
    pub fn arm_save(&mut self)
        ensures
            final(self).command == PresetCommand::Save,
            final(self).first_digit is None,
            final(self).chooser is None,
            final(self).status_message@ == "type bank+slot"@,
            final(self).records == old(self).records,
            final(self).highlighted_index == old(self).highlighted_index,
    {
        self.arm(PresetCommand::Save);
    }

    /// Arms freeing: the next slot code unassigns every preset of that slot.
    pub fn arm_free(&mut self)
        ensures
            final(self).command == PresetCommand::Free,
            final(self).first_digit is None,
            final(self).chooser is None,
            final(self).status_message@ == "type bank+slot"@,
            final(self).records == old(self).records,
            final(self).highlighted_index == old(self).highlighted_index,
    {
        self.arm(PresetCommand::Free);
    }

    fn arm(&mut self, command: PresetCommand)
        ensures
            final(self).command == command,
            final(self).first_digit is None,
            final(self).chooser is None,
            final(self).status_message@ == "type bank+slot"@,
            final(self).records == old(self).records,
            final(self).highlighted_index == old(self).highlighted_index,
    {
        self.command = command;
        self.first_digit = None;
        self.chooser = None;
        let mut status = String::new();
        push_str(&mut status, "type bank+slot");
        self.status_message = status;
    }

    /// Types one digit of a slot code: the first digit is remembered as the bank, the
    /// second completes the code and is returned with it.
    pub fn push_digit(&mut self, digit: u8) -> (index: Option<PresetIndex>)
        ensures
            match old(self).first_digit {
                Some(bank) => {
                    &&& index == Some(PresetIndex { bank, slot: digit })
                    &&& final(self).first_digit is None
                    &&& final(self).status_message == old(self).status_message
                },
                None => {
                    &&& index is None
                    &&& final(self).first_digit == Some(digit)
                    &&& final(self).status_message@ == decimal(digit as nat).push('_')
                },
            },
            final(self).command == old(self).command,
            final(self).records == old(self).records,
            final(self).chooser == old(self).chooser,
            final(self).highlighted_index == old(self).highlighted_index,
    {
        match self.first_digit {
            Some(bank) => {
                self.first_digit = None;
                Some(PresetIndex { bank, slot: digit })
            },
            None => {
                self.first_digit = Some(digit);
                let mut status = String::new();
                push_decimal(&mut status, digit as u64);
                push_char(&mut status, '_');
                assert(status@ =~= decimal(digit as nat).push('_'));
                self.status_message = status;
                None
            },
        }
    }

    /// The records assigned to `index`, newest first.
    pub fn records_for_index(&self, index: PresetIndex) -> (found: Vec<PresetRecord>)
        ensures
            stably_newest_first(self.records@.filter(assigned_to(index)), found@),
    {
        let mut found = assigned_records(&self.records, index);
        sort_preset_records(&mut found);
        found
    }

    /// Opens the chooser for `index`, listing the records assigned to it newest first
    /// with the first one selected.
    pub fn start_collision_resolution(&mut self, index: PresetIndex, load_after_resolution: bool)
        ensures
            final(self).chooser matches Some(chooser) && {
                &&& chooser.index == index
                &&& chooser.selected == 0
                &&& stably_newest_first(old(self).records@.filter(assigned_to(index)), chooser.candidates@)
                &&& chooser.load_after_resolution == load_after_resolution
            },
            final(self).status_message@ == "resolve "@ + index_code(index),
            final(self).command == old(self).command,
            final(self).first_digit == old(self).first_digit,
            final(self).records == old(self).records,
            final(self).highlighted_index == old(self).highlighted_index,
    {
        let candidates = self.records_for_index(index);
        self.chooser = Some(CollisionResolutionState { index, selected: 0, candidates, load_after_resolution });
        let mut status = String::new();
        push_str(&mut status, "resolve ");
        let code = index.code();
        push_str(&mut status, code.as_str());
        self.status_message = status;
    }

    /// Puts `record` in place of the record with its path, or adds it when no record
    /// has its path, then sorts the records newest first.
    pub fn upsert_record(&mut self, record: PresetRecord)
        ensures
            stably_newest_first(upserted(old(self).records@, record), final(self).records@),
            final(self).command == old(self).command,
            final(self).first_digit == old(self).first_digit,
            final(self).status_message == old(self).status_message,
            final(self).chooser == old(self).chooser,
            final(self).highlighted_index == old(self).highlighted_index,
    {
        let ghost merged = upserted(self.records@, record);
        let mut i: usize = 0;
        while i < self.records.len() && !(self.records[i].path == record.path)
            invariant
                i <= self.records@.len(),
                forall|j: int| 0 <= j < i ==> #[trigger] self.records@[j].path@ != record.path@,
            decreases self.records@.len() - i,
        {
            i += 1;
        }
        if i < self.records.len() {
            proof {
                assert(first_path_match(self.records@, record.path@, i as int));
                let at = choose|k: int| first_path_match(self.records@, record.path@, k);
                if at < i {
                    assert(self.records@[at].path@ != record.path@);
                } else if at > i {
                    assert(self.records@[i as int].path@ != record.path@);
                }
            }
            self.records[i] = record;
        } else {
            self.records.push(record);
        }
        assert(self.records@ == merged);
        sort_preset_records(&mut self.records);
    }

    /// Upserts `updates` one after the other.
    pub fn upsert_records(&mut self, updates: Vec<PresetRecord>)
        ensures
            upsert_outcome(old(self).records@, updates@, final(self).records@),
            final(self).command == old(self).command,
            final(self).first_digit == old(self).first_digit,
            final(self).status_message == old(self).status_message,
            final(self).chooser == old(self).chooser,
            final(self).highlighted_index == old(self).highlighted_index,
    {
        let ghost before = self.records@;
        let mut k: usize = 0;
        assert(updates@.subrange(0, 0) =~= Seq::<PresetRecord>::empty());
        assert(upsert_outcome(before, updates@.subrange(0, 0), self.records@)) by {
            assert(paths_unique(Seq::<PresetRecord>::empty()));
        }
        while k < updates.len()
            invariant
                k <= updates@.len(),
                upsert_outcome(before, updates@.subrange(0, k as int), self.records@),
                self.command == old(self).command,
                self.first_digit == old(self).first_digit,
                self.status_message == old(self).status_message,
                self.chooser == old(self).chooser,
                self.highlighted_index == old(self).highlighted_index,
            decreases updates@.len() - k,
        {
            let ghost records = self.records@;
            let record = updates[k].duplicate();
            self.upsert_record(record);
            proof {
                lemma_upsert_step(before, updates@, k as int, records, self.records@);
            }
            k += 1;
        }
        assert(updates@.subrange(0, updates@.len() as int) == updates@);
    }

    /// Copies of the records assigned to `index`, newest first, with their
    /// assignment removed: what freeing the slot writes back.
    pub fn freed_records(&self, index: PresetIndex) -> (freed: Vec<PresetRecord>)
        ensures
            exists|found: Seq<PresetRecord>|
                stably_newest_first(self.records@.filter(assigned_to(index)), found)
                && freed@ == unassigned_copies(found),
    {
        let found = self.records_for_index(index);
        let mut freed: Vec<PresetRecord> = Vec::new();
        let mut k: usize = 0;
        while k < found.len()
            invariant
                k <= found@.len(),
                freed@ == unassigned_copies(found@).subrange(0, k as int),
            decreases found@.len() - k,
        {
            let mut copy = found[k].duplicate();
            copy.file.assignment = None;
            freed.push(copy);
            assert(unassigned_copies(found@).subrange(0, k + 1) =~= unassigned_copies(found@).subrange(0, k as int).push(copy));
            k += 1;
        }
        assert(unassigned_copies(found@).subrange(0, k as int) == unassigned_copies(found@));
        freed
    }

    /// Takes the chooser away and works out what keeping its selected candidate
    /// writes back: the selected candidate stays assigned to the slot, every other
    /// candidate loses its assignment. With no chooser nothing changes and `None`
    /// comes back; with a selection outside the candidates the chooser is dropped,
    /// the status says so and `None` comes back.
    pub fn take_resolution(&mut self) -> (resolution: Option<(CollisionResolutionState, Vec<PresetRecord>)>)
        ensures
            final(self).chooser is None,
            final(self).command == old(self).command,
            final(self).first_digit == old(self).first_digit,
            final(self).records == old(self).records,
            final(self).highlighted_index == old(self).highlighted_index,
            match old(self).chooser {
                None => resolution is None && final(self).status_message == old(self).status_message,
                Some(chooser) => if chooser.selected < chooser.candidates@.len() {
                    resolution matches Some((taken, updates)) && taken == chooser
                        && updates@ == resolved_copies(chooser.candidates@, chooser.selected as int, chooser.index)
                        && final(self).status_message == old(self).status_message
                } else {
                    resolution is None && final(self).status_message@ == "chooser selection was invalid"@
                },
            },
    {
        let mut taken: Option<CollisionResolutionState> = None;
        std::mem::swap(&mut taken, &mut self.chooser);
        match taken {
            None => None,
            Some(chooser) => {
                if chooser.selected < chooser.candidates.len() {
                    let mut updates: Vec<PresetRecord> = Vec::new();
                    let mut k: usize = 0;
                    while k < chooser.candidates.len()
                        invariant
                            k <= chooser.candidates@.len(),
                            updates@ == resolved_copies(chooser.candidates@, chooser.selected as int, chooser.index).subrange(0, k as int),
                        decreases chooser.candidates@.len() - k,
                    {
                        let mut copy = chooser.candidates[k].duplicate();
                        copy.file.assignment = if k == chooser.selected { Some(chooser.index) } else { None };
                        updates.push(copy);
                        assert(resolved_copies(chooser.candidates@, chooser.selected as int, chooser.index).subrange(0, k + 1)
                            =~= resolved_copies(chooser.candidates@, chooser.selected as int, chooser.index).subrange(0, k as int).push(copy));
                        k += 1;
                    }
                    assert(resolved_copies(chooser.candidates@, chooser.selected as int, chooser.index).subrange(0, k as int)
                        == resolved_copies(chooser.candidates@, chooser.selected as int, chooser.index));
                    Some((chooser, updates))
                } else {
                    let mut status = String::new();
                    push_str(&mut status, "chooser selection was invalid");
                    self.status_message = status;
                    None
                }
            },
        }
    }

    /// Starts a refresh from disk: takes every record out, to be reused where its
    /// file did not change.
    pub fn begin_refresh(&mut self) -> (cached: Vec<PresetRecord>)
        ensures
            cached@ == old(self).records@,
            final(self).records@ == Seq::<PresetRecord>::empty(),
            final(self).command == old(self).command,
            final(self).first_digit == old(self).first_digit,
            final(self).status_message == old(self).status_message,
            final(self).chooser == old(self).chooser,
            final(self).highlighted_index == old(self).highlighted_index,
    {
        let mut cached: Vec<PresetRecord> = Vec::new();
        std::mem::swap(&mut cached, &mut self.records);
        cached
    }

    /// Ends a refresh from disk: the records found are kept, newest first.
    pub fn finish_refresh(&mut self, synced: Vec<PresetRecord>)
        ensures
            stably_newest_first(synced@, final(self).records@),
            final(self).command == old(self).command,
            final(self).first_digit == old(self).first_digit,
            final(self).status_message == old(self).status_message,
            final(self).chooser == old(self).chooser,
            final(self).highlighted_index == old(self).highlighted_index,
    {
        self.records = synced;
        sort_preset_records(&mut self.records);
    }

    /// Forgets a typed command: back to loading, with no typed digit.
    pub fn reset_command_state(&mut self)
        ensures
            final(self).command == PresetCommand::Load,
            final(self).first_digit is None,
            final(self).status_message == old(self).status_message,
            final(self).records == old(self).records,
            final(self).chooser == old(self).chooser,
            final(self).highlighted_index == old(self).highlighted_index,
    {
        self.command = PresetCommand::Load;
        self.first_digit = None;
    }

    /// Forgets a typed command and shows `status_message`.
    pub fn set_status(&mut self, status_message: String)
        ensures
            final(self).command == PresetCommand::Load,
            final(self).first_digit is None,
            final(self).status_message == status_message,
            final(self).records == old(self).records,
            final(self).chooser == old(self).chooser,
            final(self).highlighted_index == old(self).highlighted_index,
    {
        self.reset_command_state();
        self.status_message = status_message;
    }

    /// Forgets a typed command, shows `status_message` and hands it back to be printed.
    pub fn finish_with_status(&mut self, status_message: String) -> (printed: Option<String>)
        ensures
            printed == Some(status_message),
            final(self).command == PresetCommand::Load,
            final(self).first_digit is None,
            final(self).status_message == status_message,
            final(self).records == old(self).records,
            final(self).chooser == old(self).chooser,
            final(self).highlighted_index == old(self).highlighted_index,
    {
        let printed = status_message.clone();
        self.set_status(status_message);
        Some(printed)
    }

    /// Selects the previous chooser candidate, if there is one.
    pub fn chooser_select_previous(&mut self)
        ensures
            match (old(self).chooser, final(self).chooser) {
                (Some(before), Some(after)) => {
                    &&& after.selected == if before.selected > 0 { before.selected - 1 } else { before.selected as int }
                    &&& after.index == before.index
                    &&& after.candidates == before.candidates
                    &&& after.load_after_resolution == before.load_after_resolution
                },
                (None, None) => true,
                _ => false,
            },
            final(self).command == old(self).command,
            final(self).first_digit == old(self).first_digit,
            final(self).status_message == old(self).status_message,
            final(self).records == old(self).records,
            final(self).highlighted_index == old(self).highlighted_index,
    {
        if let Some(chooser) = &mut self.chooser {
            if chooser.selected > 0 {
                chooser.selected = chooser.selected - 1;
            }
        }
    }

    /// Selects the next chooser candidate, if there is one.
    pub fn chooser_select_next(&mut self)
        ensures
            match (old(self).chooser, final(self).chooser) {
                (Some(before), Some(after)) => {
                    &&& after.selected == if before.selected + 1 < before.candidates@.len() {
                        before.selected + 1
                    } else {
                        before.selected as int
                    }
                    &&& after.index == before.index
                    &&& after.candidates == before.candidates
                    &&& after.load_after_resolution == before.load_after_resolution
                },
                (None, None) => true,
                _ => false,
            },
            final(self).command == old(self).command,
            final(self).first_digit == old(self).first_digit,
            final(self).status_message == old(self).status_message,
            final(self).records == old(self).records,
            final(self).highlighted_index == old(self).highlighted_index,
    {
        if let Some(chooser) = &mut self.chooser {
            if chooser.selected < chooser.candidates.len() && chooser.selected + 1 < chooser.candidates.len() {
                chooser.selected = chooser.selected + 1;
            }
        }
    }

    /// Acts on a completed slot code according to the armed command.
    pub fn begin_slot_command(&mut self, index: PresetIndex) -> (outcome: SlotOutcome)
        ensures
            ({
                let listed = old(self).records@.filter(assigned_to(index));
                match old(self).command {
                    PresetCommand::Load => if listed.len() == 0 {
                        &&& outcome == SlotOutcome::Finished(None)
                        &&& final(self).status_message@ == empty_slot_message(index)
                        &&& final(self).command == PresetCommand::Load
                        &&& final(self).first_digit is None
                        &&& final(self).chooser == old(self).chooser
                    } else if listed.len() > 1 {
                        &&& outcome matches SlotOutcome::Finished(Some(message)) && message@ == load_collision_message(index)
                        &&& final(self).chooser matches Some(chooser) && chooser.index == index && chooser.selected == 0
                            && chooser.load_after_resolution && stably_newest_first(listed, chooser.candidates@)
                        &&& final(self).status_message@ == "resolve "@ + index_code(index)
                        &&& final(self).command == PresetCommand::Load
                        &&& final(self).first_digit is None
                    } else {
                        &&& outcome matches SlotOutcome::Apply(record) && record == listed[0]
                        &&& final(self).status_message == old(self).status_message
                        &&& final(self).command == old(self).command
                        &&& final(self).first_digit == old(self).first_digit
                        &&& final(self).chooser == old(self).chooser
                    },
                    PresetCommand::Save => {
                        &&& outcome is Save
                        &&& final(self).status_message == old(self).status_message
                        &&& final(self).command == old(self).command
                        &&& final(self).first_digit == old(self).first_digit
                        &&& final(self).chooser == old(self).chooser
                    },
                    PresetCommand::Free => if listed.len() == 0 {
                        &&& outcome == SlotOutcome::Finished(None)
                        &&& final(self).status_message@ == already_empty_message(index)
                        &&& final(self).command == PresetCommand::Load
                        &&& final(self).first_digit is None
                        &&& final(self).chooser == old(self).chooser
                    } else {
                        &&& outcome matches SlotOutcome::Free(freed) && exists|found: Seq<PresetRecord>|
                            stably_newest_first(listed, found) && freed@ == unassigned_copies(found)
                        &&& final(self).status_message == old(self).status_message
                        &&& final(self).command == old(self).command
                        &&& final(self).first_digit == old(self).first_digit
                        &&& final(self).chooser == old(self).chooser
                    },
                }
            }),
            final(self).records == old(self).records,
            final(self).highlighted_index == old(self).highlighted_index,
    {
        match self.command {
            PresetCommand::Load => {
                let mut found = self.records_for_index(index);
                if found.len() == 0 {
                    let mut status = String::new();
                    push_str(&mut status, "slot ");
                    let code = index.code();
                    push_str(&mut status, code.as_str());
                    push_str(&mut status, " is empty");
                    self.set_status(status);
                    SlotOutcome::Finished(None)
                } else if found.len() > 1 {
                    self.reset_command_state();
                    self.start_collision_resolution(index, true);
                    let mut message = String::new();
                    push_str(&mut message, "Slot ");
                    let code = index.code();
                    push_str(&mut message, code.as_str());
                    push_str(&mut message, " has multiple assigned presets. Resolve the chooser.");
                    SlotOutcome::Finished(Some(message))
                } else {
                    proof {
                        let listed = self.records@.filter(assigned_to(index));
                        let order = choose|order: Seq<int>| rearranges(listed, found@, order);
                        assert(found@[0] == listed[order[0]]);
                    }
                    let record = found.remove(0);
                    SlotOutcome::Apply(record)
                }
            },
            PresetCommand::Save => SlotOutcome::Save,
            PresetCommand::Free => {
                let count = count_assigned(&self.records, index);
                if count == 0 {
                    let mut status = String::new();
                    push_str(&mut status, "slot ");
                    let code = index.code();
                    push_str(&mut status, code.as_str());
                    push_str(&mut status, " is already empty");
                    self.set_status(status);
                    SlotOutcome::Finished(None)
                } else {
                    SlotOutcome::Free(self.freed_records(index))
                }
            },
        }
    }

    /// Completes loading the slot's one preset after its scene was applied: the slot
    /// is highlighted and the status names it.
    pub fn finish_load(&mut self, index: PresetIndex, summary: &str) -> (printed: Option<String>)
        ensures
            printed matches Some(message) && message@ == loaded_message(index, summary@),
            final(self).status_message@ == loaded_message(index, summary@),
            final(self).highlighted_index == Some(index),
            final(self).command == PresetCommand::Load,
            final(self).first_digit is None,
            final(self).records == old(self).records,
            final(self).chooser == old(self).chooser,
    {
        self.highlight_index(index);
        let mut message = String::new();
        push_str(&mut message, "Loaded scene preset ");
        let code = index.code();
        push_str(&mut message, code.as_str());
        push_str(&mut message, ": ");
        push_str(&mut message, summary);
        self.finish_with_status(message)
    }

    /// Completes saving after the new preset file was written: the record joins the
    /// list; when the slot now holds several presets the chooser opens.
    pub fn finish_save(&mut self, index: PresetIndex, record: PresetRecord) -> (printed: Option<String>)
        ensures
            stably_newest_first(upserted(old(self).records@, record), final(self).records@),
            final(self).command == PresetCommand::Load,
            final(self).first_digit is None,
            final(self).highlighted_index == old(self).highlighted_index,
            if final(self).records@.filter(assigned_to(index)).len() > 1 {
                &&& printed matches Some(message) && message@ == save_collision_message(index)
                &&& final(self).chooser matches Some(chooser) && chooser.index == index && chooser.selected == 0
                    && !chooser.load_after_resolution
                    && stably_newest_first(final(self).records@.filter(assigned_to(index)), chooser.candidates@)
                &&& final(self).status_message@ == "resolve "@ + index_code(index)
            } else {
                &&& printed matches Some(message) && message@ == stored_message(index, record.file.summary@)
                &&& final(self).status_message@ == stored_message(index, record.file.summary@)
                &&& final(self).chooser == old(self).chooser
            },
    {
        let summary = record.file.summary.clone();
        self.upsert_record(record);
        let count = count_assigned(&self.records, index);
        if count > 1 {
            self.reset_command_state();
            self.start_collision_resolution(index, false);
            let mut message = String::new();
            push_str(&mut message, "Stored a new scene preset in slot ");
            let code = index.code();
            push_str(&mut message, code.as_str());
            push_str(&mut message, ". Resolve which preset stays assigned.");
            Some(message)
        } else {
            let mut message = String::new();
            push_str(&mut message, "Stored scene preset ");
            let code = index.code();
            push_str(&mut message, code.as_str());
            push_str(&mut message, ": ");
            push_str(&mut message, summary.as_str());
            self.finish_with_status(message)
        }
    }

    /// Completes freeing a slot after the unassigned copies were written back.
    pub fn finish_free(&mut self, index: PresetIndex, written: Vec<PresetRecord>) -> (printed: Option<String>)
        ensures
            upsert_outcome(old(self).records@, written@, final(self).records@),
            printed matches Some(message) && message@ == freed_message(index),
            final(self).status_message@ == freed_message(index),
            final(self).command == PresetCommand::Load,
            final(self).first_digit is None,
            final(self).chooser == old(self).chooser,
            final(self).highlighted_index == old(self).highlighted_index,
    {
        self.upsert_records(written);
        let mut message = String::new();
        push_str(&mut message, "Freed scene preset slot ");
        let code = index.code();
        push_str(&mut message, code.as_str());
        push_str(&mut message, ".");
        self.finish_with_status(message)
    }

    /// Completes resolving a slot after the candidates were written back (and, when
    /// the chooser was opened by loading, the kept preset was applied).
    pub fn finish_resolution(&mut self, chooser: &CollisionResolutionState) -> (printed: Option<String>)
        requires
            chooser.selected < chooser.candidates@.len(),
        ensures
            ({
                let summary = chooser.candidates@[chooser.selected as int].file.summary@;
                &&& printed matches Some(message) && message@ == resolved_message(chooser.index, summary)
                &&& final(self).status_message@ == resolved_message(chooser.index, summary)
            }),
            final(self).highlighted_index == if chooser.load_after_resolution {
                Some(chooser.index)
            } else {
                old(self).highlighted_index
            },
            final(self).command == PresetCommand::Load,
            final(self).first_digit is None,
            final(self).records == old(self).records,
            final(self).chooser == old(self).chooser,
    {
        if chooser.load_after_resolution {
            self.highlight_index(chooser.index);
        }
        let mut message = String::new();
        push_str(&mut message, "Slot ");
        let code = chooser.index.code();
        push_str(&mut message, code.as_str());
        push_str(&mut message, " now points to ");
        push_str(&mut message, chooser.candidates[chooser.selected].file.summary.as_str());
        push_str(&mut message, ".");
        self.finish_with_status(message)
    }

    /// Marks `index` as the slot of the scene on screen.
    pub fn highlight_index(&mut self, index: PresetIndex)
        ensures
            final(self).highlighted_index == Some(index),
            final(self).command == old(self).command,
            final(self).first_digit == old(self).first_digit,
            final(self).status_message == old(self).status_message,
            final(self).records == old(self).records,
            final(self).chooser == old(self).chooser,
    {
        self.highlighted_index = Some(index);
    }
}

/// One line of the chooser listing: a marker for the selected candidate, the save
/// time in milliseconds and the summary.
pub open spec fn chooser_line(candidate: PresetRecord, selected: bool) -> Seq<char> {
    seq![if selected { '>' } else { ' ' }, ' '] + decimal(candidate.file.saved_at_unix_ms as nat) + seq![' ']
        + candidate.file.summary@
}

/// The lines of the chooser listing: heading, one line per candidate, key help.
pub open spec fn chooser_lines(chooser: CollisionResolutionState) -> Seq<Seq<char>> {
    seq!["Resolve slot "@ + index_code(chooser.index)]
        + Seq::new(chooser.candidates@.len(), |k: int| chooser_line(chooser.candidates@[k], k == chooser.selected))
        + seq!["Up/Down choose  Enter keep  Esc close"@]
}

} // verus!
