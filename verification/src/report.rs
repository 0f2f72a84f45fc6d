//! The report of the delta-transfer tool, read into a change record.
//!
//! The tool prints one line for each entity it touches, in a form that is
//! fixed by the output format it is run with: a marker that says whether the
//! entity was deleted or transferred, the entity's path, and a closing quote.
//! This module is the only place that knows that form.

use vstd::prelude::*;
use crate::changes::{entity_views, ChangeList, Changes, Entity, FsEntity};
use crate::text::{chars_of, starts_with_at, string_of};

verus! {

/// The text with which the tool's report begins the line of a deleted entity.
pub open spec fn deletion_marker() -> Seq<char> {
    "'changed-file:del.;"@
}

/// The text with which the tool's report begins the line of a transferred
/// entity.
pub open spec fn transfer_marker() -> Seq<char> {
    "'changed-file:send;"@
}

/// The length of the first line of `s`: the position of its first line feed,
/// or the length of `s` where it holds none.
pub open spec fn line_end(s: Seq<char>) -> int
    decreases s.len(),
{
    if s.len() == 0 || s[0] == '\n' {
        0
    } else {
        1 + line_end(s.skip(1))
    }
}

/// A line without the carriage return at its end, if it has one.
pub open spec fn without_cr(line: Seq<char>) -> Seq<char> {
    if line.len() > 0 && line.last() == '\r' {
        line.drop_last()
    } else {
        line
    }
}

/// The lines of a text. A line ends at a line feed, or at a carriage return
/// that a line feed follows; neither belongs to the line. The last line
/// needs no line feed, and a text that ends in one has no empty line behind
/// it.
pub open spec fn lines(s: Seq<char>) -> Seq<Seq<char>>
    decreases s.len(),
{
    let n = line_end(s);
    if s.len() == 0 {
        Seq::empty()
    } else if 0 <= n < s.len() {
        seq![without_cr(s.take(n))] + lines(s.skip(n + 1))
    } else {
        seq![s]
    }
}

/// Whether a line reports an entity under `marker`: the marker, a path, and
/// one closing character.
pub open spec fn is_entry(line: Seq<char>, marker: Seq<char>) -> bool {
    line.len() > marker.len() && line.take(marker.len() as int) == marker
}

/// The path that a line reports: what stands between the marker and the
/// closing character.
pub open spec fn entry_token(line: Seq<char>, marker: Seq<char>) -> Seq<char> {
    line.subrange(marker.len() as int, line.len() - 1)
}

/// The entity that a reported path names: a folder where it ends in a
/// separator, which is no part of the folder's path, and else a file.
pub open spec fn token_entity(token: Seq<char>) -> Entity {
    if token.len() > 0 && token.last() == '/' {
        Entity::Folder(token.drop_last())
    } else {
        Entity::File(token)
    }
}

pub open spec fn reports_under(marker: Seq<char>) -> spec_fn(Seq<char>) -> bool {
    |line: Seq<char>| is_entry(line, marker)
}

pub open spec fn entity_under(marker: Seq<char>) -> spec_fn(Seq<char>) -> Entity {
    |line: Seq<char>| token_entity(entry_token(line, marker))
}

/// The entities that the given lines report under `marker`, in their order.
pub open spec fn reported(report: Seq<Seq<char>>, marker: Seq<char>) -> Seq<Entity> {
    report.filter(reports_under(marker)).map_values(entity_under(marker))
}

/// The record that a report of the tool stands for: the entities of its
/// deletion lines and of its transfer lines, each in the order of the lines;
/// every other line is passed over. A report without any such line stands
/// for no record.
pub open spec fn collected(s: Seq<char>) -> Option<Changes> {
    let deleted = reported(lines(s), deletion_marker());
    let changed = reported(lines(s), transfer_marker());
    if deleted.len() == 0 && changed.len() == 0 {
        None
    } else {
        Some(Changes { deleted, changed, moved: Seq::empty() })
    }
}

/// The first line ends at `n` where no line feed stands before `n` and one
/// stands at `n`, or the text ends there.
pub proof fn lemma_line_end(s: Seq<char>, n: int)
    requires
        0 <= n <= s.len(),
        forall|i: int| 0 <= i < n ==> s[i] != '\n',
        n == s.len() || s[n] == '\n',
    ensures
        line_end(s) == n,
    decreases n,
{
    if n > 0 {
        let rest = s.skip(1);
        assert forall|i: int| 0 <= i < n - 1 implies rest[i] != '\n' by {
            assert(rest[i] == s[i + 1]);
        }
        lemma_line_end(rest, n - 1);
    }
}

/// One more line changes what is reported by what that line reports.
proof fn lemma_reported_push(report: Seq<Seq<char>>, line: Seq<char>, marker: Seq<char>)
    ensures
        reported(report.push(line), marker) == if is_entry(line, marker) {
            reported(report, marker).push(token_entity(entry_token(line, marker)))
        } else {
            reported(report, marker)
        },
{
    report.lemma_filter_push(line, reports_under(marker));
}

/// A report in which no line is a deletion line or a transfer line stands for
/// no record.
pub proof fn lemma_no_entry_no_record(s: Seq<char>)
    requires
        forall|i: int|
            0 <= i < lines(s).len() ==> !is_entry(#[trigger] lines(s)[i], deletion_marker())
                && !is_entry(lines(s)[i], transfer_marker()),
    ensures
        collected(s) is None,
{
    let report = lines(s);
    let deletions = report.filter(reports_under(deletion_marker()));
    let transfers = report.filter(reports_under(transfer_marker()));
    if deletions.len() > 0 {
        report.lemma_filter_pred(reports_under(deletion_marker()), 0);
        report.lemma_filter_contains_rev(reports_under(deletion_marker()), deletions[0]);
    }
    if transfers.len() > 0 {
        report.lemma_filter_pred(reports_under(transfer_marker()), 0);
        report.lemma_filter_contains_rev(reports_under(transfer_marker()), transfers[0]);
    }
}

fn entity_at(all: &Vec<char>, from: usize, to: usize) -> (entity: FsEntity)
    requires
        from <= to <= all.len(),
    ensures
        entity@ == token_entity(all@.subrange(from as int, to as int)),
{
    let ghost token = all@.subrange(from as int, to as int);
    if to > from && all[to - 1] == '/' {
        assert(token.drop_last() =~= all@.subrange(from as int, to - 1));
        FsEntity::Folder(string_of(all, from, to - 1))
    } else {
        FsEntity::File(string_of(all, from, to))
    }
}

/// The entity that the line `all[from..to]` reports under `marker`, if it
/// reports one.
fn entry_at(all: &Vec<char>, from: usize, to: usize, marker: &Vec<char>) -> (entity: Option<
    FsEntity,
>)
    requires
        from <= to <= all.len(),
    ensures
        entity is Some == is_entry(all@.subrange(from as int, to as int), marker@),
        entity matches Some(e) ==> e@ == token_entity(
            entry_token(all@.subrange(from as int, to as int), marker@),
        ),
{
    let ghost line = all@.subrange(from as int, to as int);
    if marker.len() < to - from {
        assert(line.take(marker.len() as int) =~= all@.subrange(
            from as int,
            from + marker.len(),
        ));
        if starts_with_at(all, from, to, marker) {
            assert(entry_token(line, marker@) =~= all@.subrange(from + marker.len(), to - 1));
            return Some(entity_at(all, from + marker.len(), to - 1));
        }
    }
    None
}

impl ChangeList {
    /// Reads a report of the delta-transfer tool.
    ///
    /// A line that begins with the deletion marker yields a deleted entity,
    /// one that begins with the transfer marker a changed entity; any other
    /// line is passed over. `None` is returned where both lists stay empty.
    pub fn collect(s: &str) -> (record: Option<ChangeList>)
        ensures
            record is Some == collected(s@) is Some,
            record matches Some(r) ==> collected(s@) == Some(r@),
    {
        let all = chars_of(s);
        let deletion = chars_of("'changed-file:del.;");
        let transfer = chars_of("'changed-file:send;");
        let mut deleted: Vec<FsEntity> = Vec::new();
        let mut changed: Vec<FsEntity> = Vec::new();
        let ghost mut done: Seq<Seq<char>> = Seq::empty();
        let mut start: usize = 0;
        assert(all@.skip(0) =~= all@);
        while start < all.len()
            invariant
                start <= all.len(),
                all@ == s@,
                deletion@ == deletion_marker(),
                transfer@ == transfer_marker(),
                lines(all@) == done + lines(all@.skip(start as int)),
                entity_views(deleted@) == reported(done, deletion_marker()),
                entity_views(changed@) == reported(done, transfer_marker()),
            decreases all.len() - start,
        {
            let ghost rest = all@.skip(start as int);
            let mut end: usize = start;
            while end < all.len() && all[end] != '\n'
                invariant
                    start <= end <= all.len(),
                    forall|k: int| start <= k < end ==> all@[k] != '\n',
                decreases all.len() - end,
            {
                end = end + 1;
            }
            let terminated: bool = end < all.len();
            let mut stop: usize = end;
            if terminated && stop > start && all[stop - 1] == '\r' {
                stop = stop - 1;
            }
            let next: usize = if terminated {
                end + 1
            } else {
                end
            };
            let ghost line = all@.subrange(start as int, stop as int);
            proof {
                assert forall|i: int| 0 <= i < end - start implies rest[i] != '\n' by {
                    assert(rest[i] == all@[start + i]);
                }
                lemma_line_end(rest, end - start);
                if terminated {
                    assert(rest.skip(end - start + 1) =~= all@.skip(next as int));
                    assert(without_cr(rest.take(end - start)) =~= line);
                }
                lemma_reported_push(done, line, deletion_marker());
                lemma_reported_push(done, line, transfer_marker());
                done = done.push(line);
            }
            match entry_at(&all, start, stop, &deletion) {
                Some(entity) => {
                    deleted.push(entity);
                },
                None => {},
            }
            match entry_at(&all, start, stop, &transfer) {
                Some(entity) => {
                    changed.push(entity);
                },
                None => {},
            }
            start = next;
        }
        if deleted.len() == 0 && changed.len() == 0 {
            None
        } else {
            Some(ChangeList { deleted, changed, moved: Vec::new() })
        }
    }
}

} // verus!
