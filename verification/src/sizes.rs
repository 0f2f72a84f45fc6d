//! The sizes of files, by path.

use vstd::prelude::*;
use crate::text::texts;

verus! {

/// The sizes of files by path, as far as they could be measured.
pub struct FileSizes {
    pub entries: Vec<(String, u64)>,
}

/// The table that a list of measurements stands for: a later measurement of
/// a path replaces an earlier one.
pub open spec fn size_table(entries: Seq<(String, u64)>) -> Map<Seq<char>, u64>
    decreases entries.len(),
{
    if entries.len() == 0 {
        Map::empty()
    } else {
        size_table(entries.drop_last()).insert(entries.last().0@, entries.last().1)
    }
}

/// The size that the table holds for `path`.
pub open spec fn known_size(sizes: Map<Seq<char>, u64>, path: Seq<char>) -> Option<u64> {
    if sizes.contains_key(path) {
        Some(sizes[path])
    } else {
        None
    }
}

impl View for FileSizes {
    type V = Map<Seq<char>, u64>;

    open spec fn view(&self) -> Map<Seq<char>, u64> {
        size_table(self.entries@)
    }
}

impl FileSizes {
    /// A table without measurements.
    pub fn new() -> (sizes: FileSizes)
        ensures
            sizes@ == Map::<Seq<char>, u64>::empty(),
    {
        FileSizes { entries: Vec::new() }
    }

    /// Notes that the file at `path` has `size` bytes.
    pub fn record(&mut self, path: String, size: u64)
        ensures
            final(self)@ == old(self)@.insert(path@, size),
    {
        self.entries.push((path, size));
        assert(self.entries@.drop_last() =~= old(self).entries@);
    }

    /// The size measured for `path`, if any.
    pub fn lookup(&self, path: &str) -> (size: Option<u64>)
        ensures
            size == known_size(self@, path@),
    {
        let wanted = String::from_str(path);
        let mut i: usize = self.entries.len();
        assert(self.entries@.take(i as int) =~= self.entries@);
        while i > 0
            invariant
                i <= self.entries.len(),
                wanted@ == path@,
                known_size(self@, path@) == known_size(
                    size_table(self.entries@.take(i as int)),
                    path@,
                ),
            decreases i,
        {
            assert(self.entries@.take(i as int).drop_last() =~= self.entries@.take(i - 1));
            if self.entries[i - 1].0 == wanted {
                return Some(self.entries[i - 1].1);
            }
            i = i - 1;
        }
        None
    }
}

/// The table of the sizes that were measured for `paths`: `sizes` answers
/// `paths` place by place, `None` stands for a file that could not be
/// measured, and a path without an answer has none.
pub open spec fn measured(paths: Seq<Seq<char>>, sizes: Seq<Option<u64>>) -> Map<Seq<char>, u64>
    decreases paths.len(),
{
    if paths.len() == 0 {
        Map::empty()
    } else {
        let before = measured(paths.drop_last(), sizes);
        let last = paths.len() - 1;
        if last < sizes.len() && sizes[last] is Some {
            before.insert(paths[last], sizes[last]->0)
        } else {
            before
        }
    }
}

impl FileSizes {
    /// The table of the sizes that were measured for `paths`.
    pub fn from_measurements(paths: &Vec<String>, sizes: &Vec<Option<u64>>) -> (table: FileSizes)
        ensures
            table@ == measured(texts(paths@), sizes@),
    {
        let mut table = FileSizes::new();
        let mut i: usize = 0;
        while i < paths.len()
            invariant
                i <= paths.len(),
                table@ == measured(texts(paths@).take(i as int), sizes@),
            decreases paths.len() - i,
        {
            assert(texts(paths@).take(i + 1).drop_last() =~= texts(paths@).take(i as int));
            if i < sizes.len() {
                match sizes[i] {
                    Some(size) => {
                        table.record(paths[i].clone(), size);
                    },
                    None => {},
                }
            }
            i = i + 1;
        }
        assert(texts(paths@).take(i as int) =~= texts(paths@));
        table
    }
}

} // verus!
