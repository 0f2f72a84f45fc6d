//! The change record of one run: what the delta-transfer tool reported as
//! deleted and as transferred, and which deletions were recognised as moves.

use vstd::prelude::*;
use crate::text::texts;

verus! {

/// A path of the tree, relative to its root, as contracts see it.
pub enum Entity {
    Folder(Seq<char>),
    File(Seq<char>),
}

impl Entity {
    pub open spec fn path(self) -> Seq<char> {
        match self {
            Entity::Folder(p) => p,
            Entity::File(p) => p,
        }
    }
}

/// A folder or a file of the tree, by its path relative to the root.
#[derive(Debug, PartialEq, Eq)]
pub enum FsEntity {
    Folder(String),
    File(String),
}

impl View for FsEntity {
    type V = Entity;

    open spec fn view(&self) -> Entity {
        match self {
            FsEntity::Folder(p) => Entity::Folder(p@),
            FsEntity::File(p) => Entity::File(p@),
        }
    }
}

impl Clone for FsEntity {
    fn clone(&self) -> (copy: FsEntity)
        ensures
            copy@ == self@,
    {
        match self {
            FsEntity::Folder(p) => FsEntity::Folder(p.clone()),
            FsEntity::File(p) => FsEntity::File(p.clone()),
        }
    }
}

/// What one run found changed between the latest snapshot and the working
/// tree, as contracts see it.
#[verifier::ext_equal]
pub struct Changes {
    pub deleted: Seq<Entity>,
    pub changed: Seq<Entity>,
    pub moved: Seq<(Entity, Seq<char>)>,
}

/// What one run found changed between the latest snapshot and the working
/// tree: entities that are gone, entities that were transferred, and files
/// that were recognised as moved, each with the path it went to.
#[derive(Debug)]
pub struct ChangeList {
    pub deleted: Vec<FsEntity>,
    pub changed: Vec<FsEntity>,
    pub moved: Vec<(FsEntity, String)>,
}

pub open spec fn entity_views(entities: Seq<FsEntity>) -> Seq<Entity> {
    entities.map_values(|e: FsEntity| e@)
}

pub open spec fn move_views(moves: Seq<(FsEntity, String)>) -> Seq<(Entity, Seq<char>)> {
    moves.map_values(|m: (FsEntity, String)| (m.0@, m.1@))
}

impl View for ChangeList {
    type V = Changes;

    open spec fn view(&self) -> Changes {
        Changes {
            deleted: entity_views(self.deleted@),
            changed: entity_views(self.changed@),
            moved: move_views(self.moved@),
        }
    }
}

pub open spec fn is_file() -> spec_fn(Entity) -> bool {
    |e: Entity| e is File
}

pub open spec fn path_of() -> spec_fn(Entity) -> Seq<char> {
    |e: Entity| e.path()
}

/// The paths of the files among the entities, in their order.
pub open spec fn file_paths(entities: Seq<Entity>) -> Seq<Seq<char>> {
    entities.filter(is_file()).map_values(path_of())
}

/// The paths of the files among the entities, in their order.
pub fn files_of(entities: &Vec<FsEntity>) -> (paths: Vec<String>)
    ensures
        texts(paths@) == file_paths(entity_views(entities@)),
{
    let ghost all = entity_views(entities@);
    let mut paths: Vec<String> = Vec::new();
    let mut i: usize = 0;
    while i < entities.len()
        invariant
            i <= entities.len(),
            all == entity_views(entities@),
            texts(paths@) == file_paths(all.take(i as int)),
        decreases entities.len() - i,
    {
        proof {
            assert(all.take(i + 1) =~= all.take(i as int).push(all[i as int]));
            all.take(i as int).lemma_filter_push(all[i as int], is_file());
        }
        match &entities[i] {
            FsEntity::File(p) => {
                let ghost before = texts(paths@);
                paths.push(p.clone());
                assert(file_paths(all.take(i + 1)) =~= before.push(p@));
            },
            FsEntity::Folder(_) => {},
        }
        i = i + 1;
    }
    assert(all.take(i as int) =~= all);
    paths
}

} // verus!
