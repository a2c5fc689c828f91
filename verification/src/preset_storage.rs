//! Names, headers and reuse of stored preset files, and the clock they are stamped with.
use std::time::Duration;
use vstd::prelude::*;
use crate::presets::{PresetFileHeader, PresetFileStamp, PresetIndex, PresetRecord};
use crate::text::{decimal, is_listed, lemma_taken_names_bound, path_listed, push_char, push_decimal, push_str, push_zero_padded, str_equal, zero_padded, zero_padded_value};
use crate::timestamp::{format_utc_timestamp, utc_timestamp_text};

verus! {

/// The preset file format this library reads and writes.
pub const PRESET_FORMAT_VERSION: u32 = 1;

/// The directory that holds the preset files.
pub fn preset_directory() -> (dir: &'static str)
    ensures
        dir@ == "scene-presets"@,
{
    "scene-presets"
}

/// `std::time::SystemTime::elapsed` of the Unix epoch: the time since the epoch, or
/// `None` when the clock reads a time before it. What the clock reads is not stated.
#[verifier::external_body]
fn time_since_epoch() -> Option<Duration> {
    std::time::UNIX_EPOCH.elapsed().ok()
}

/// `Duration::as_secs`: the whole seconds of `duration`. Nothing is stated of the
/// value, since a `Duration` is opaque here.
#[verifier::external_body]
fn whole_seconds(duration: &Duration) -> u64 {
    duration.as_secs()
}

/// `Duration::subsec_millis`: the whole milliseconds of `duration` past its whole
/// seconds, which std documents as always less than one thousand.
#[verifier::external_body]
fn subsecond_millis(duration: &Duration) -> (millis: u32)
    ensures
        millis < 1000,
{
    duration.subsec_millis()
}

/// The clock's time since the Unix epoch in whole seconds and milliseconds, zero
/// when the clock reads a time before the epoch.
pub fn current_unix_time() -> (time: (u64, u32))
    ensures
        time.1 < 1000,
{
    match time_since_epoch() {
        Some(elapsed) => (whole_seconds(&elapsed), subsecond_millis(&elapsed)),
        None => (0, 0),
    }
}

/// Milliseconds since the epoch of a time given in whole seconds and milliseconds,
/// wrapped to 64 bits.
pub open spec fn unix_ms(seconds: u64, millis: u32) -> int {
    (seconds as int * 1000 + millis as int) % 0x1_0000_0000_0000_0000
}

/// Milliseconds since the epoch of a time given in whole seconds and milliseconds,
/// wrapped to 64 bits.
pub fn unix_ms_from(seconds: u64, millis: u32) -> (ms: u64)
    ensures
        ms == unix_ms(seconds, millis),
{
    let total: u128 = seconds as u128 * 1000 + millis as u128;
    let wrapped: u128 = total % 0x1_0000_0000_0000_0000u128;
    wrapped as u64
}

/// The clock's time in milliseconds since the Unix epoch (zero before the epoch).
/// The value comes from the clock, so no clause states it.
pub fn current_unix_ms() -> u64 {
    let (seconds, millis) = current_unix_time();
    unix_ms_from(seconds, millis)
}

/// The identifier of a preset saved at `saved_at_unix_ms`.
pub open spec fn preset_id(saved_at_unix_ms: u64) -> Seq<char> {
    "preset-"@ + decimal(saved_at_unix_ms as nat)
}

impl PresetFileHeader {
    /// The header of a preset saved at `saved_at_unix_ms` into slot `index`.
    pub fn stamped(index: PresetIndex, summary: String, saved_at_unix_ms: u64) -> (header: PresetFileHeader)
        ensures
            header.format_version == PRESET_FORMAT_VERSION,
            header.id@ == preset_id(saved_at_unix_ms),
            header.saved_at_unix_ms == saved_at_unix_ms,
            header.summary == summary,
            header.assignment == Some(index),
    {
        let mut id = String::new();
        push_str(&mut id, "preset-");
        push_decimal(&mut id, saved_at_unix_ms);
        PresetFileHeader {
            format_version: PRESET_FORMAT_VERSION,
            id,
            saved_at_unix_ms,
            summary,
            assignment: Some(index),
        }
    }

    /// The header of a preset saved now into slot `index`.
    pub fn new(index: PresetIndex, summary: String) -> (header: PresetFileHeader)
        ensures
            header.format_version == PRESET_FORMAT_VERSION,
            header.id@ == preset_id(header.saved_at_unix_ms),
            header.summary == summary,
            header.assignment == Some(index),
    {
        let saved_at_unix_ms = current_unix_ms();
        PresetFileHeader::stamped(index, summary, saved_at_unix_ms)
    }
}

impl PresetRecord {
    /// Whether the record was read from a file whose stamp is `stamp`.
    pub fn is_unchanged(&self, stamp: &PresetFileStamp) -> (unchanged: bool)
        ensures
            unchanged == (self.stamp == *stamp),
    {
        self.stamp == *stamp
    }
}

/// `i` is the last position of `records` whose path is `path`.
pub open spec fn last_path_match(records: Seq<PresetRecord>, path: Seq<char>, i: int) -> bool {
    &&& 0 <= i < records.len()
    &&& records[i].path@ == path
    &&& forall|j: int| i < j < records.len() ==> #[trigger] records[j].path@ != path
}

/// Whether a record's path differs from `path`.
pub open spec fn path_differs(path: Seq<char>) -> spec_fn(PresetRecord) -> bool {
    |record: PresetRecord| record.path@ != path
}

/// Removes every cached record with path `path` and hands back the last of them,
/// the one a map from paths to records keeps.
pub fn take_cached_record(cached: &mut Vec<PresetRecord>, path: &str) -> (taken: Option<PresetRecord>)
    ensures
        final(cached)@ == old(cached)@.filter(path_differs(path@)),
        match taken {
            Some(record) => exists|i: int| last_path_match(old(cached)@, path@, i) && old(cached)@[i] == record,
            None => forall|i: int| 0 <= i < old(cached)@.len() ==> #[trigger] old(cached)@[i].path@ != path@,
        },
{
    let mut pending: Vec<PresetRecord> = Vec::new();
    std::mem::swap(cached, &mut pending);
    let ghost given = pending@;
    let ghost mut done: int = 0;
    let mut taken: Option<PresetRecord> = None;
    assert(cached@ =~= given.subrange(0, 0).filter(path_differs(path@))) by {
        reveal(Seq::filter);
    }
    while pending.len() > 0
        invariant
            0 <= done <= given.len(),
            pending@ == given.subrange(done, given.len() as int),
            cached@ == given.subrange(0, done).filter(path_differs(path@)),
            match taken {
                Some(record) => exists|i: int| last_path_match(given.subrange(0, done), path@, i) && given[i] == record,
                None => forall|i: int| 0 <= i < done ==> #[trigger] given[i].path@ != path@,
            },
        decreases pending@.len(),
    {
        let record = pending.remove(0);
        proof {
            assert(given.subrange(0, done + 1) == given.subrange(0, done).push(record));
            assert(given.subrange(0, done + 1).drop_last() == given.subrange(0, done));
            reveal(Seq::filter);
        }
        if str_equal(record.path.as_str(), path) {
            proof {
                assert(last_path_match(given.subrange(0, done + 1), path@, done));
            }
            taken = Some(record);
        } else {
            proof {
                if taken is Some {
                    let kept = taken->0;
                    let i = choose|i: int| last_path_match(given.subrange(0, done), path@, i) && given[i] == kept;
                    assert(last_path_match(given.subrange(0, done + 1), path@, i));
                }
            }
            cached.push(record);
        }
        proof {
            done = done + 1;
        }
        assert(pending@ =~= given.subrange(done, given.len() as int));
    }
    assert(given.subrange(0, done) =~= given);
    taken
}

/// The name of a preset file: the save time as a UTC timestamp with milliseconds, a
/// four-digit number that tells apart files saved in the same millisecond, and a
/// slug describing the scene.
pub open spec fn preset_file_name(timestamp: Seq<char>, millis: nat, suffix: nat, slug: Seq<char>) -> Seq<char> {
    "scene-preset-"@ + timestamp + seq!['-'] + zero_padded(millis, 3) + seq!['-'] + zero_padded(suffix, 4) + seq!['-']
        + slug + ".toml"@
}

/// The path of a preset file inside `dir`.
pub open spec fn preset_path(dir: Seq<char>, timestamp: Seq<char>, millis: nat, suffix: nat, slug: Seq<char>) -> Seq<char> {
    dir + seq!['/'] + preset_file_name(timestamp, millis, suffix, slug)
}

/// Different numbers give different preset paths.
proof fn lemma_preset_path_injective(dir: Seq<char>, timestamp: Seq<char>, millis: nat, slug: Seq<char>, a: nat, b: nat)
    requires
        preset_path(dir, timestamp, millis, a, slug) == preset_path(dir, timestamp, millis, b, slug),
    ensures
        a == b,
{
    let head = dir + seq!['/'] + "scene-preset-"@ + timestamp + seq!['-'] + zero_padded(millis, 3) + seq!['-'];
    let tail = seq!['-'] + slug + ".toml"@;
    assert(preset_path(dir, timestamp, millis, a, slug) =~= head + zero_padded(a, 4) + tail);
    assert(preset_path(dir, timestamp, millis, b, slug) =~= head + zero_padded(b, 4) + tail);
    let pa = head + zero_padded(a, 4) + tail;
    let pb = head + zero_padded(b, 4) + tail;
    assert(zero_padded(a, 4).len() == zero_padded(b, 4).len());
    let n = zero_padded(a, 4).len() as int;
    assert(pa.subrange(head.len() as int, head.len() + n) =~= zero_padded(a, 4));
    assert(pb.subrange(head.len() as int, head.len() + n) =~= zero_padded(b, 4));
    zero_padded_value(a, 4);
    zero_padded_value(b, 4);
}

/// Builds the preset path numbered `suffix`.
fn preset_path_text(preset_dir: &str, timestamp: &str, millis: u32, suffix: u32, file_slug: &str) -> (path: String)
    ensures
        path@ == preset_path(preset_dir@, timestamp@, millis as nat, suffix as nat, file_slug@),
{
    let mut path = String::new();
    push_str(&mut path, preset_dir);
    push_char(&mut path, '/');
    push_str(&mut path, "scene-preset-");
    push_str(&mut path, timestamp);
    push_char(&mut path, '-');
    push_zero_padded(&mut path, millis as u64, 3);
    push_char(&mut path, '-');
    push_zero_padded(&mut path, suffix as u64, 4);
    push_char(&mut path, '-');
    push_str(&mut path, file_slug);
    push_str(&mut path, ".toml");
    assert(path@ =~= preset_path(preset_dir@, timestamp@, millis as nat, suffix as nat, file_slug@));
    path
}

/// The path for a new preset file in `preset_dir`, saved at `unix_seconds` and
/// `subsec_millis` milliseconds: the one with the lowest number that is not among
/// `existing`.
pub fn unique_preset_path(
    preset_dir: &str,
    unix_seconds: u64,
    subsec_millis: u32,
    file_slug: &str,
    existing: &Vec<String>,
) -> (path: String)
    requires
        existing@.len() < u32::MAX,
    ensures
        exists|suffix: nat|
            path@ == preset_path(preset_dir@, utc_timestamp_text(unix_seconds as nat), subsec_millis as nat, suffix, file_slug@)
            && !path_listed(existing@, path@)
            && forall|k: nat| k < suffix ==> path_listed(
                existing@,
                #[trigger] preset_path(preset_dir@, utc_timestamp_text(unix_seconds as nat), subsec_millis as nat, k, file_slug@),
            ),
{
    let timestamp = format_utc_timestamp(unix_seconds);
    let ghost stamp = utc_timestamp_text(unix_seconds as nat);
    let mut suffix: u32 = 0;
    let mut candidate = preset_path_text(preset_dir, timestamp.as_str(), subsec_millis, suffix, file_slug);
    while is_listed(existing, &candidate)
        invariant
            existing@.len() < u32::MAX,
            suffix <= existing@.len(),
            timestamp@ == stamp,
            candidate@ == preset_path(preset_dir@, stamp, subsec_millis as nat, suffix as nat, file_slug@),
            forall|k: nat| k < suffix ==> path_listed(
                existing@,
                #[trigger] preset_path(preset_dir@, stamp, subsec_millis as nat, k, file_slug@),
            ),
        decreases existing@.len() - suffix,
    {
        proof {
            assert forall|k: nat| k <= suffix implies path_listed(
                existing@,
                #[trigger] preset_path(preset_dir@, stamp, subsec_millis as nat, k, file_slug@),
            ) by {
                if k == suffix {
                    assert(path_listed(existing@, candidate@));
                }
            }
            let name = |k: nat| preset_path(preset_dir@, stamp, subsec_millis as nat, k, file_slug@);
            assert forall|a: nat, b: nat| #[trigger] name(a) == #[trigger] name(b) implies a == b by {
                lemma_preset_path_injective(preset_dir@, stamp, subsec_millis as nat, file_slug@, a, b);
            }
            assert forall|k: nat| k <= suffix implies path_listed(existing@, #[trigger] name(k)) by {
                assert(path_listed(existing@, preset_path(preset_dir@, stamp, subsec_millis as nat, k, file_slug@)));
            }
            lemma_taken_names_bound(existing@, name, suffix as nat);
        }
        suffix = suffix + 1;
        candidate = preset_path_text(preset_dir, timestamp.as_str(), subsec_millis, suffix, file_slug);
    }
    candidate
}

} // verus!
