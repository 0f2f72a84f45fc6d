//! Which snapshots an archive holds.
//!
//! A snapshot is a directory whose name is a timestamp under the archive's
//! date pattern. The pattern is the only sign: a directory whose name it does
//! not read is no snapshot, and is passed over.

use vstd::prelude::*;
use crate::text::texts;
use crate::timestamp::{parse_timestamp, parsed_timestamp, Timestamp};

verus! {

/// The pattern under which snapshots are named where none is configured:
/// month, day, year, time of day and offset, as in `Apr13_2023_120914+0200`.
pub fn default_date_format() -> (pattern: String)
    ensures
        pattern@ == "%b%d_%Y_%H%M%S%z"@,
{
    String::from_str("%b%d_%Y_%H%M%S%z")
}

/// What the pattern reads from each name.
pub open spec fn parsed_names(names: Seq<Seq<char>>, date_format: Seq<char>) -> Seq<
    Option<Timestamp>,
> {
    names.map_values(|name: Seq<char>| parsed_timestamp(name, date_format))
}

/// The later of the latest timestamp so far and the next one; the earlier
/// one stays where both are the same point in time.
pub open spec fn later_of(latest: Option<Timestamp>, next: Option<Timestamp>) -> Option<
    Timestamp,
> {
    match (latest, next) {
        (_, None) => latest,
        (None, Some(t)) => Some(t),
        (Some(l), Some(t)) => if t.is_after(l) {
            Some(t)
        } else {
            Some(l)
        },
    }
}

/// The latest of the timestamps, the first one of several that are the same
/// point in time; `None` where there is none.
pub open spec fn latest_of(stamps: Seq<Option<Timestamp>>) -> Option<Timestamp>
    decreases stamps.len(),
{
    if stamps.len() == 0 {
        None
    } else {
        later_of(latest_of(stamps.drop_last()), stamps.last())
    }
}

pub open spec fn is_snapshot() -> spec_fn(Option<Timestamp>) -> bool {
    |stamp: Option<Timestamp>| stamp is Some
}

/// How many of the names are timestamps.
pub open spec fn snapshot_count(stamps: Seq<Option<Timestamp>>) -> nat {
    stamps.filter(is_snapshot()).len()
}

/// Whether `latest` stands at place `i` and is the latest of the timestamps:
/// none is later, and every timestamp before it in the list is earlier.
pub open spec fn is_latest_at(stamps: Seq<Option<Timestamp>>, i: int, latest: Timestamp) -> bool {
    &&& 0 <= i < stamps.len()
    &&& stamps[i] == Some(latest)
    &&& forall|j: int|
        0 <= j < stamps.len() && (#[trigger] stamps[j]) is Some ==> !stamps[j]->0.is_after(latest)
    &&& forall|j: int| 0 <= j < i && (#[trigger] stamps[j]) is Some ==> latest.is_after(stamps[j]->0)
}

/// The latest timestamp is one of the timestamps, none is later, and every
/// timestamp before it in the list is earlier. There is none only where no
/// name is a timestamp.
pub proof fn lemma_latest_of(stamps: Seq<Option<Timestamp>>)
    ensures
        match latest_of(stamps) {
            Some(latest) => exists|i: int| is_latest_at(stamps, i, latest),
            None => forall|i: int| 0 <= i < stamps.len() ==> (#[trigger] stamps[i]) is None,
        },
    decreases stamps.len(),
{
    if stamps.len() > 0 {
        let before = stamps.drop_last();
        let last = stamps.len() - 1;
        lemma_latest_of(before);
        assert forall|j: int| 0 <= j < last implies stamps[j] == before[j] by {}
        match (latest_of(before), stamps[last]) {
            (Some(l), Some(t)) => {
                let i = choose|i: int| is_latest_at(before, i, l);
                if t.is_after(l) {
                    assert(is_latest_at(stamps, last, t));
                } else {
                    assert(is_latest_at(stamps, i, l));
                }
            },
            (Some(l), None) => {
                let i = choose|i: int| is_latest_at(before, i, l);
                assert(is_latest_at(stamps, i, l));
            },
            (None, Some(t)) => {
                assert(is_latest_at(stamps, last, t));
            },
            (None, None) => {},
        }
    }
}

/// Names that are no timestamps count for nothing: without them the latest
/// timestamp and the number of snapshots are the same.
pub proof fn lemma_other_names_are_ignored(stamps: Seq<Option<Timestamp>>)
    ensures
        latest_of(stamps.filter(is_snapshot())) == latest_of(stamps),
        snapshot_count(stamps.filter(is_snapshot())) == snapshot_count(stamps),
        snapshot_count(stamps) <= stamps.len(),
    decreases stamps.len(),
{
    let valid = stamps.filter(is_snapshot());
    stamps.lemma_filter_len(is_snapshot());
    assert(valid.filter(is_snapshot()) =~= valid) by {
        assert forall|i: int| 0 <= i < valid.len() implies is_snapshot()(#[trigger] valid[i]) by {
            stamps.lemma_filter_pred(is_snapshot(), i);
        }
        lemma_filter_all(valid, is_snapshot());
    }
    if stamps.len() > 0 {
        let before = stamps.drop_last();
        lemma_other_names_are_ignored(before);
        assert(before.push(stamps.last()) =~= stamps);
        before.lemma_filter_push(stamps.last(), is_snapshot());
        if stamps.last() is Some {
            assert(valid.drop_last() =~= before.filter(is_snapshot()));
        }
    }
}

/// A filter keeps a sequence whose elements all pass.
proof fn lemma_filter_all<A>(s: Seq<A>, pred: spec_fn(A) -> bool)
    requires
        forall|i: int| 0 <= i < s.len() ==> pred(#[trigger] s[i]),
    ensures
        s.filter(pred) == s,
    decreases s.len(),
{
    if s.len() > 0 {
        let before = s.drop_last();
        assert forall|i: int| 0 <= i < before.len() implies pred(#[trigger] before[i]) by {
            assert(before[i] == s[i]);
        }
        lemma_filter_all(before, pred);
        assert(before.push(s.last()) =~= s);
        before.lemma_filter_push(s.last(), pred);
    }
}

/// Reads each name under the pattern.
pub fn read_names(names: &Vec<String>, date_format: &str) -> (stamps: Vec<Option<Timestamp>>)
    ensures
        stamps@ == parsed_names(texts(names@), date_format@),
{
    let mut stamps: Vec<Option<Timestamp>> = Vec::new();
    let mut i: usize = 0;
    while i < names.len()
        invariant
            i <= names.len(),
            stamps@ == parsed_names(texts(names@), date_format@).take(i as int),
        decreases names.len() - i,
    {
        stamps.push(parse_timestamp(names[i].as_str(), date_format));
        i = i + 1;
    }
    stamps
}

/// The latest of the timestamps that were read.
pub fn latest_stamp(stamps: &Vec<Option<Timestamp>>) -> (latest: Option<Timestamp>)
    ensures
        latest == latest_of(stamps@),
{
    let mut latest: Option<Timestamp> = None;
    let mut i: usize = 0;
    while i < stamps.len()
        invariant
            i <= stamps.len(),
            latest == latest_of(stamps@.take(i as int)),
        decreases stamps.len() - i,
    {
        assert(stamps@.take(i + 1).drop_last() =~= stamps@.take(i as int));
        latest = match (latest, stamps[i]) {
            (_, None) => latest,
            (None, Some(t)) => Some(t),
            (Some(l), Some(t)) => if t.later_than(&l) {
                Some(t)
            } else {
                Some(l)
            },
        };
        i = i + 1;
    }
    assert(stamps@.take(i as int) =~= stamps@);
    latest
}

/// How many timestamps were read.
pub fn count_stamps(stamps: &Vec<Option<Timestamp>>) -> (count: usize)
    ensures
        count == snapshot_count(stamps@),
{
    let mut count: usize = 0;
    let mut i: usize = 0;
    while i < stamps.len()
        invariant
            i <= stamps.len(),
            count == snapshot_count(stamps@.take(i as int)),
            count <= i,
        decreases stamps.len() - i,
    {
        proof {
            assert(stamps@.take(i + 1) =~= stamps@.take(i as int).push(stamps@[i as int]));
            stamps@.take(i as int).lemma_filter_push(stamps@[i as int], is_snapshot());
        }
        if stamps[i].is_some() {
            count = count + 1;
        }
        i = i + 1;
    }
    assert(stamps@.take(i as int) =~= stamps@);
    count
}

/// The latest timestamp among the names of an archive's directories, or
/// `None` where no name is a timestamp under `date_format`.
pub fn latest_timestamp_named_dir(names: &Vec<String>, date_format: &str) -> (latest: Option<
    Timestamp,
>)
    ensures
        latest == latest_of(parsed_names(texts(names@), date_format@)),
{
    let stamps = read_names(names, date_format);
    latest_stamp(&stamps)
}

/// How many of the names of an archive's directories are timestamps under
/// `date_format`.
pub fn count_timestamp_named_folders(names: &Vec<String>, date_format: &str) -> (count: usize)
    ensures
        count == snapshot_count(parsed_names(texts(names@), date_format@)),
{
    let stamps = read_names(names, date_format);
    count_stamps(&stamps)
}

} // verus!
