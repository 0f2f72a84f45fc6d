//! Moved files among the deletions.
//!
//! The tool reports a file that was moved as deleted in one place and
//! transferred in another. A deletion is taken for a move where a transferred
//! file has the same name and, in the working tree, the size that the deleted
//! file had in the archived tree. Sizes are all that is compared: two files
//! of one name and one size are taken for the same file.

use vstd::prelude::*;
use crate::changes::{entity_views, ChangeList, Changes, Entity, FsEntity};
use crate::sizes::{known_size, FileSizes};
use crate::text::{chars_of, string_of};

verus! {

/// The position at which the final component of `p` begins: behind the last
/// separator, or 0 where `p` holds none.
pub open spec fn final_component_start(p: Seq<char>) -> int
    decreases p.len(),
{
    if p.len() == 0 {
        0
    } else if p.last() == '/' {
        p.len() as int
    } else {
        final_component_start(p.drop_last())
    }
}

/// The name by which a file is known whatever directory holds it: the final
/// component of its path. A path whose final component is empty, `.` or `..`
/// names no file.
pub open spec fn file_name(p: Seq<char>) -> Option<Seq<char>> {
    let name = p.skip(final_component_start(p));
    if name.len() == 0 || name == seq!['.'] || name == seq!['.', '.'] {
        None
    } else {
        Some(name)
    }
}

/// The final component starts inside the path, holds no separator and stands
/// at the path's start or behind a separator.
pub proof fn lemma_final_component(p: Seq<char>)
    ensures
        0 <= final_component_start(p) <= p.len(),
        forall|i: int| final_component_start(p) <= i < p.len() ==> p[i] != '/',
        final_component_start(p) > 0 ==> p[final_component_start(p) - 1] == '/',
    decreases p.len(),
{
    if p.len() > 0 && p.last() != '/' {
        lemma_final_component(p.drop_last());
        assert forall|i: int| final_component_start(p) <= i < p.len() implies p[i] != '/' by {
            if i < p.len() - 1 {
                assert(p.drop_last()[i] == p[i]);
            }
        }
    }
}

fn name_start(chars: &Vec<char>) -> (start: usize)
    ensures
        start == final_component_start(chars@),
        start <= chars.len(),
{
    let mut n: usize = chars.len();
    assert(chars@.take(n as int) =~= chars@);
    while n > 0 && chars[n - 1] != '/'
        invariant
            n <= chars.len(),
            final_component_start(chars@) == final_component_start(chars@.take(n as int)),
        decreases n,
    {
        assert(chars@.take(n as int).drop_last() =~= chars@.take(n - 1));
        n = n - 1;
    }
    proof {
        lemma_final_component(chars@);
    }
    n
}

/// The file name of `path`, if it has one.
pub fn file_name_of(path: &str) -> (name: Option<String>)
    ensures
        name is Some == file_name(path@) is Some,
        name matches Some(n) ==> file_name(path@) == Some(n@),
{
    let chars = chars_of(path);
    let start: usize = name_start(&chars);
    let len: usize = chars.len() - start;
    let ghost name = chars@.skip(start as int);
    if len == 0 {
        None
    } else if len == 1 && chars[start] == '.' {
        assert(name =~= seq!['.']);
        None
    } else if len == 2 && chars[start] == '.' && chars[start + 1] == '.' {
        assert(name =~= seq!['.', '.']);
        None
    } else {
        assert(name != seq!['.']) by {
            if name == seq!['.'] {
                assert(name[0] == seq!['.'][0]);
            }
        }
        assert(name != seq!['.', '.']) by {
            if name == seq!['.', '.'] {
                assert(name[0] == seq!['.', '.'][0]);
                assert(name[1] == seq!['.', '.'][1]);
            }
        }
        Some(string_of(&chars, start, chars.len()))
    }
}

/// The file name of an entity that is a file.
pub open spec fn entity_file_name(e: Entity) -> Option<Seq<char>> {
    match e {
        Entity::File(p) => file_name(p),
        Entity::Folder(_) => None,
    }
}

/// Whether a transferred entity may be where a deleted file of that name and
/// size went: it is a file of the same name, and in the working tree it has
/// the same size.
pub open spec fn is_candidate(
    c: Entity,
    name: Seq<char>,
    size: u64,
    working: Map<Seq<char>, u64>,
) -> bool {
    c is File && entity_file_name(c) == Some(name) && known_size(working, c.path()) == Some(size)
}

/// The path of the first candidate among the transferred entities.
pub open spec fn first_candidate(
    changed: Seq<Entity>,
    name: Seq<char>,
    size: u64,
    working: Map<Seq<char>, u64>,
) -> Option<Seq<char>>
    decreases changed.len(),
{
    if changed.len() == 0 {
        None
    } else if is_candidate(changed[0], name, size, working) {
        Some(changed[0].path())
    } else {
        first_candidate(changed.skip(1), name, size, working)
    }
}

/// Where a deleted entity went, if it is a file that was moved: a folder is
/// never moved, nor a file without a name or without a measured size in the
/// archived tree.
pub open spec fn move_target(
    d: Entity,
    changed: Seq<Entity>,
    archived: Map<Seq<char>, u64>,
    working: Map<Seq<char>, u64>,
) -> Option<Seq<char>> {
    match d {
        Entity::Folder(_) => None,
        Entity::File(p) => match (file_name(p), known_size(archived, p)) {
            (Some(name), Some(size)) => first_candidate(changed, name, size, working),
            _ => None,
        },
    }
}

/// The deletions that are no moves.
pub open spec fn stays_deleted(
    changed: Seq<Entity>,
    archived: Map<Seq<char>, u64>,
    working: Map<Seq<char>, u64>,
) -> spec_fn(Entity) -> bool {
    |d: Entity| move_target(d, changed, archived, working) is None
}

/// A deletion that is a move, with the path it went to.
pub open spec fn as_move(
    changed: Seq<Entity>,
    archived: Map<Seq<char>, u64>,
    working: Map<Seq<char>, u64>,
) -> spec_fn(Entity) -> Option<(Entity, Seq<char>)> {
    |d: Entity|
        match move_target(d, changed, archived, working) {
            Some(to) => Some((d, to)),
            None => None,
        }
}

/// The record once its moves are recognised: the deletions that are moves
/// leave `deleted` and follow the earlier moves, in the order in which they
/// were deleted; `changed` stays as it is.
pub open spec fn with_moves_extracted(
    before: Changes,
    archived: Map<Seq<char>, u64>,
    working: Map<Seq<char>, u64>,
) -> Changes {
    Changes {
        deleted: before.deleted.filter(stays_deleted(before.changed, archived, working)),
        changed: before.changed,
        moved: before.moved + before.deleted.filter_map(
            as_move(before.changed, archived, working),
        ),
    }
}

/// Whether the entity at place `j` is a candidate and none before it is one.
pub open spec fn is_first_candidate_at(
    changed: Seq<Entity>,
    j: int,
    name: Seq<char>,
    size: u64,
    working: Map<Seq<char>, u64>,
) -> bool {
    &&& 0 <= j < changed.len()
    &&& is_candidate(changed[j], name, size, working)
    &&& forall|k: int| 0 <= k < j ==> !is_candidate(#[trigger] changed[k], name, size, working)
}

/// The first candidate is a candidate, and no entity before it is one; where
/// there is none, no entity is a candidate.
pub proof fn lemma_first_candidate(
    changed: Seq<Entity>,
    name: Seq<char>,
    size: u64,
    working: Map<Seq<char>, u64>,
)
    ensures
        match first_candidate(changed, name, size, working) {
            Some(to) => exists|j: int|
                #[trigger] is_first_candidate_at(changed, j, name, size, working)
                    && changed[j].path() == to,
            None => forall|j: int|
                0 <= j < changed.len() ==> !is_candidate(
                    #[trigger] changed[j],
                    name,
                    size,
                    working,
                ),
        },
    decreases changed.len(),
{
    if changed.len() > 0 {
        if is_candidate(changed[0], name, size, working) {
            assert(is_first_candidate_at(changed, 0, name, size, working));
        } else {
            let rest = changed.skip(1);
            lemma_first_candidate(rest, name, size, working);
            assert forall|k: int| 0 < k < changed.len() implies changed[k] == rest[k - 1] by {}
            match first_candidate(rest, name, size, working) {
                Some(to) => {
                    let j = choose|j: int|
                        #[trigger] is_first_candidate_at(rest, j, name, size, working)
                            && rest[j].path() == to;
                    assert(is_first_candidate_at(changed, j + 1, name, size, working)) by {
                        assert forall|k: int| 0 <= k < j + 1 implies !is_candidate(
                            #[trigger] changed[k],
                            name,
                            size,
                            working,
                        ) by {
                            if k > 0 {
                                assert(changed[k] == rest[k - 1]);
                            }
                        }
                    }
                },
                None => {
                    assert forall|j: int| 0 <= j < changed.len() implies !is_candidate(
                        #[trigger] changed[j],
                        name,
                        size,
                        working,
                    ) by {
                        if j > 0 {
                            assert(changed[j] == rest[j - 1]);
                        }
                    }
                },
            }
        }
    }
}

/// What `filter_map` keeps of an element is in its result.
proof fn lemma_filter_map_keeps<A, B>(s: Seq<A>, f: spec_fn(A) -> Option<B>, i: int)
    requires
        0 <= i < s.len(),
        f(s[i]) is Some,
    ensures
        s.filter_map(f).contains(f(s[i])->0),
    decreases s.len(),
{
    let rest = s.drop_last();
    if i == s.len() - 1 {
        let out = s.filter_map(f);
        assert(out[out.len() - 1] == f(s[i])->0);
    } else {
        lemma_filter_map_keeps(rest, f, i);
        let e = f(s[i])->0;
        let j = choose|j: int| 0 <= j < rest.filter_map(f).len() && rest.filter_map(f)[j] == e;
        assert(s.filter_map(f)[j] == e);
    }
}

/// A deleted file of known size, for which exactly one transferred file has
/// the same name and that size, is a move: extraction takes it out of
/// `deleted` and enters it in `moved` with that file's path.
pub proof fn lemma_unique_candidate_is_moved(
    before: Changes,
    archived: Map<Seq<char>, u64>,
    working: Map<Seq<char>, u64>,
    d: Seq<char>,
    c: Seq<char>,
    size: u64,
)
    requires
        before.deleted.contains(Entity::File(d)),
        known_size(archived, d) == Some(size),
        file_name(d) is Some,
        before.changed.contains(Entity::File(c)),
        file_name(c) == file_name(d),
        known_size(working, c) == Some(size),
        forall|j: int|
            0 <= j < before.changed.len() && is_candidate(
                #[trigger] before.changed[j],
                file_name(d)->0,
                size,
                working,
            ) ==> before.changed[j] == Entity::File(c),
    ensures
        !with_moves_extracted(before, archived, working).deleted.contains(Entity::File(d)),
        with_moves_extracted(before, archived, working).moved.contains((Entity::File(d), c)),
{
    let after = with_moves_extracted(before, archived, working);
    let stays = stays_deleted(before.changed, archived, working);
    let moves = as_move(before.changed, archived, working);
    let name = file_name(d)->0;
    let gone = Entity::File(d);
    lemma_first_candidate(before.changed, name, size, working);
    assert(move_target(gone, before.changed, archived, working) == Some(c)) by {
        let at = choose|j: int|
            0 <= j < before.changed.len() && before.changed[j] == Entity::File(c);
        assert(is_candidate(before.changed[at], name, size, working));
    }
    if after.deleted.contains(gone) {
        let k = choose|k: int| 0 <= k < after.deleted.len() && after.deleted[k] == gone;
        before.deleted.lemma_filter_pred(stays, k);
    }
    let i = choose|i: int| 0 <= i < before.deleted.len() && before.deleted[i] == gone;
    lemma_filter_map_keeps(before.deleted, moves, i);
    let added = before.deleted.filter_map(moves);
    let n = choose|n: int| 0 <= n < added.len() && added[n] == (gone, c);
    assert(after.moved[before.moved.len() + n] == (gone, c));
}

/// In a record that held no moves before, no entity is both moved and
/// deleted once the moves are extracted.
pub proof fn lemma_moved_is_not_deleted(
    before: Changes,
    archived: Map<Seq<char>, u64>,
    working: Map<Seq<char>, u64>,
)
    requires
        before.moved.len() == 0,
    ensures
        forall|from: Entity, to: Seq<char>|
            #[trigger] with_moves_extracted(before, archived, working).moved.contains((from, to))
                ==> !with_moves_extracted(before, archived, working).deleted.contains(from),
{
    let after = with_moves_extracted(before, archived, working);
    let stays = stays_deleted(before.changed, archived, working);
    let moves = as_move(before.changed, archived, working);
    assert(after.moved =~= before.deleted.filter_map(moves));
    assert forall|from: Entity, to: Seq<char>| #[trigger]
        after.moved.contains((from, to)) implies !after.deleted.contains(from) by {
        before.deleted.lemma_filter_map_contains(moves, (from, to));
        if after.deleted.contains(from) {
            let k = choose|k: int| 0 <= k < after.deleted.len() && after.deleted[k] == from;
            before.deleted.lemma_filter_pred(stays, k);
        }
    }
}

/// A deleted file stays a deletion where every transferred file of its name
/// has another size than it had, or none that is known: extraction keeps it in
/// `deleted` and adds no move of it.
pub proof fn lemma_other_size_is_no_move(
    before: Changes,
    archived: Map<Seq<char>, u64>,
    working: Map<Seq<char>, u64>,
    d: Seq<char>,
)
    requires
        before.deleted.contains(Entity::File(d)),
        forall|j: int|
            0 <= j < before.changed.len() && entity_file_name(#[trigger] before.changed[j])
                == file_name(d) ==> known_size(working, before.changed[j].path()) != known_size(
                archived,
                d,
            ),
    ensures
        with_moves_extracted(before, archived, working).deleted.contains(Entity::File(d)),
        forall|to: Seq<char>|
            !before.deleted.filter_map(as_move(before.changed, archived, working)).contains(
                (Entity::File(d), to),
            ),
{
    let stays = stays_deleted(before.changed, archived, working);
    let moves = as_move(before.changed, archived, working);
    let gone = Entity::File(d);
    assert(move_target(gone, before.changed, archived, working) is None) by {
        if file_name(d) is Some && known_size(archived, d) is Some {
            lemma_first_candidate(
                before.changed,
                file_name(d)->0,
                known_size(archived, d)->0,
                working,
            );
        }
    }
    let i = choose|i: int| 0 <= i < before.deleted.len() && before.deleted[i] == gone;
    before.deleted.lemma_filter_contains(stays, i);
    assert forall|to: Seq<char>| !before.deleted.filter_map(moves).contains((gone, to)) by {
        if before.deleted.filter_map(moves).contains((gone, to)) {
            before.deleted.lemma_filter_map_contains(moves, (gone, to));
        }
    }
}

spec fn name_view(name: Option<String>) -> Option<Seq<char>> {
    match name {
        Some(n) => Some(n@),
        None => None,
    }
}

spec fn names_match(names: Seq<Option<String>>, changed: Seq<Entity>) -> bool {
    &&& names.len() == changed.len()
    &&& forall|j: int|
        0 <= j < names.len() ==> name_view(#[trigger] names[j]) == entity_file_name(changed[j])
}

fn changed_names(changed: &Vec<FsEntity>) -> (names: Vec<Option<String>>)
    ensures
        names_match(names@, entity_views(changed@)),
{
    let mut names: Vec<Option<String>> = Vec::new();
    let mut j: usize = 0;
    while j < changed.len()
        invariant
            j <= changed.len(),
            names_match(names@, entity_views(changed@).take(j as int)),
        decreases changed.len() - j,
    {
        let name: Option<String> = match &changed[j] {
            FsEntity::File(p) => file_name_of(p.as_str()),
            FsEntity::Folder(_) => None,
        };
        names.push(name);
        j = j + 1;
    }
    names
}

fn find_candidate(
    changed: &Vec<FsEntity>,
    names: &Vec<Option<String>>,
    name: &String,
    size: u64,
    working: &FileSizes,
) -> (found: Option<usize>)
    requires
        names_match(names@, entity_views(changed@)),
    ensures
        found matches Some(j) ==> j < changed.len() && first_candidate(
            entity_views(changed@),
            name@,
            size,
            working@,
        ) == Some(changed[j as int]@.path()),
        found is None ==> first_candidate(entity_views(changed@), name@, size, working@) is None,
{
    let ghost all = entity_views(changed@);
    let mut j: usize = 0;
    assert(all.skip(0) =~= all);
    while j < changed.len()
        invariant
            j <= changed.len(),
            all == entity_views(changed@),
            names_match(names@, all),
            first_candidate(all, name@, size, working@) == first_candidate(
                all.skip(j as int),
                name@,
                size,
                working@,
            ),
        decreases changed.len() - j,
    {
        assert(all.skip(j as int).skip(1) =~= all.skip(j + 1));
        let same_name: bool = match &names[j] {
            Some(n) => *n == *name,
            None => false,
        };
        if same_name {
            match &changed[j] {
                FsEntity::File(p) => {
                    let measured: Option<u64> = working.lookup(p.as_str());
                    match measured {
                        Some(s) => {
                            if s == size {
                                return Some(j);
                            }
                        },
                        None => {},
                    }
                },
                FsEntity::Folder(_) => {},
            }
        }
        j = j + 1;
    }
    None
}

impl ChangeList {
    /// Recognises moved files among the deletions.
    ///
    /// A deleted file whose size in the archived tree is known, and for which
    /// a transferred file of the same name has that size in the working tree,
    /// leaves `deleted` and enters `moved` with the path of the first such
    /// file, in the order of `changed`. Everything else stays where it is;
    /// a file that a move went to stays in `changed`.
    pub fn extract_moves(&mut self, archived: &FileSizes, working: &FileSizes)
        ensures
            final(self)@ == with_moves_extracted(old(self)@, archived@, working@),
    {
        let ghost before = self@;
        let ghost stays = stays_deleted(before.changed, archived@, working@);
        let ghost moves = as_move(before.changed, archived@, working@);
        let names = changed_names(&self.changed);
        let mut kept: Vec<FsEntity> = Vec::new();
        let mut i: usize = 0;
        while i < self.deleted.len()
            invariant
                i <= self.deleted.len(),
                self@.deleted == before.deleted,
                self@.changed == before.changed,
                names_match(names@, before.changed),
                stays == stays_deleted(before.changed, archived@, working@),
                moves == as_move(before.changed, archived@, working@),
                entity_views(kept@) == before.deleted.take(i as int).filter(stays),
                self@.moved == before.moved + before.deleted.take(i as int).filter_map(moves),
            decreases self.deleted.len() - i,
        {
            let ghost d = before.deleted[i as int];
            let target: Option<usize> = match &self.deleted[i] {
                FsEntity::Folder(_) => None,
                FsEntity::File(p) => {
                    let name: Option<String> = file_name_of(p.as_str());
                    let size: Option<u64> = archived.lookup(p.as_str());
                    match (name, size) {
                        (Some(n), Some(s)) => find_candidate(&self.changed, &names, &n, s, working),
                        _ => None,
                    }
                },
            };
            proof {
                assert(before.deleted.take(i + 1) =~= before.deleted.take(i as int).push(d));
                before.deleted.take(i as int).lemma_filter_push(d, stays);
                before.deleted.lemma_filter_map_take_succ(moves, i as int);
            }
            match target {
                Some(j) => {
                    let to: String = match &self.changed[j] {
                        FsEntity::File(q) => q.clone(),
                        FsEntity::Folder(q) => q.clone(),
                    };
                    let from: FsEntity = self.deleted[i].clone();
                    let ghost moved_before = self@.moved;
                    self.moved.push((from, to));
                    assert(self@.moved =~= moved_before.push((d, to@)));
                },
                None => {
                    let stay: FsEntity = self.deleted[i].clone();
                    kept.push(stay);
                },
            }
            i = i + 1;
        }
        assert(before.deleted.take(i as int) =~= before.deleted);
        self.deleted = kept;
    }
}

} // verus!
