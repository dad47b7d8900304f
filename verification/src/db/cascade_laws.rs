//! What holds of the store after a cascade, and after a restore that follows
//! one. A row is named by its table and its position in it.

use vstd::prelude::*;
use crate::commands::repository::EntityType;
use crate::db::record::Record;
use crate::db::selection::{descends, hangs_under, is_picked_parent, reaches};
use crate::db::store::Store;

verus! {

impl Store {
    /// The number of rows of `table`.
    pub open spec fn len_of(&self, table: EntityType) -> nat {
        match table {
            EntityType::LifeArea => self.life_areas@.len(),
            EntityType::Goal => self.goals@.len(),
            EntityType::Project => self.projects@.len(),
            EntityType::Task => self.tasks@.len(),
            EntityType::Note => self.notes@.len(),
        }
    }

    /// The archive stamp of row `i` of `table`.
    pub open spec fn stamp_of(&self, table: EntityType, i: int) -> Option<i64> {
        match table {
            EntityType::LifeArea => self.life_areas@[i].archived(),
            EntityType::Goal => self.goals@[i].archived(),
            EntityType::Project => self.projects@[i].archived(),
            EntityType::Task => self.tasks@[i].archived(),
            EntityType::Note => self.notes@[i].archived(),
        }
    }

    /// The identity of the row of table `to` that row `i` of `table` hangs
    /// under, if it hangs under one.
    pub open spec fn link_of(&self, table: EntityType, i: int, to: EntityType) -> Option<Seq<char>> {
        match table {
            EntityType::LifeArea => self.life_areas@[i].link(to),
            EntityType::Goal => self.goals@[i].link(to),
            EntityType::Project => self.projects@[i].link(to),
            EntityType::Task => self.tasks@[i].link(to),
            EntityType::Note => self.notes@[i].link(to),
        }
    }

    /// Whether the cascade from the record `id` of table `kind` reaches row
    /// `i` of `table`.
    pub open spec fn reached(&self, table: EntityType, i: int, kind: EntityType, id: Seq<char>) -> bool {
        match table {
            EntityType::LifeArea => self.picked_life_areas(kind, id)[i],
            EntityType::Goal => self.picked_goals(kind, id)[i],
            EntityType::Project => self.picked_projects(kind, id)[i],
            EntityType::Task => self.picked_tasks(kind, id)[i],
            EntityType::Note => self.picked_notes(kind, id)[i],
        }
    }

    /// Whether row `i` of `table` is the record `id` of table `kind`.
    pub open spec fn is_root(&self, table: EntityType, i: int, kind: EntityType, id: Seq<char>) -> bool {
        table == kind && self.row_key(table, i) == Some(id)
    }

    /// Whether `after` has the rows of `self`, each with the identity and the
    /// links it has in `self`.
    pub open spec fn same_shape(&self, after: Store) -> bool {
        forall|table: EntityType, i: int|
            #![trigger after.row_key(table, i)]
            {
                &&& after.len_of(table) == self.len_of(table)
                &&& after.row_key(table, i) == self.row_key(table, i)
                &&& 0 <= i < self.len_of(table) ==> forall|to: EntityType|
                    after.link_of(table, i, to) == self.link_of(table, i, to)
            }
    }
}

/// A cascade reaches its root.
pub proof fn cascade_reaches_root(store: Store, kind: EntityType, id: Seq<char>, i: int)
    requires
        store.row_key(kind, i) == Some(id),
    ensures
        store.reached(kind, i, kind, id),
{
    if kind == EntityType::Task {
        let seed = crate::db::selection::with_children(
            store.projects@,
            store.picked_projects(kind, id),
            EntityType::Project,
            store.tasks@,
            crate::db::selection::picked_by_id(store.tasks@, true, id),
        );
        assert(reaches(store.tasks@, EntityType::Task, seed, i, 0));
    }
}

/// A cascade reaches what hangs under a row it reaches: the goals of a life
/// area, the projects of a goal, the tasks of a project, the tasks under a
/// task, and the notes attached to any of the four.
pub proof fn cascade_reaches_children(
    store: Store,
    kind: EntityType,
    id: Seq<char>,
    parent_table: EntityType,
    parent: int,
    child_table: EntityType,
    child: int,
)
    requires
        0 <= parent < store.len_of(parent_table),
        0 <= child < store.len_of(child_table),
        store.reached(parent_table, parent, kind, id),
        store.link_of(child_table, child, parent_table) == store.row_key(parent_table, parent),
    ensures
        store.reached(child_table, child, kind, id),
{
    match (parent_table, child_table) {
        (EntityType::LifeArea, EntityType::Goal) => {
            assert(is_picked_parent(
                store.life_areas@,
                store.picked_life_areas(kind, id),
                EntityType::LifeArea,
                store.goals@[child],
                parent,
            ));
        },
        (EntityType::Goal, EntityType::Project) => {
            assert(is_picked_parent(
                store.goals@,
                store.picked_goals(kind, id),
                EntityType::Goal,
                store.projects@[child],
                parent,
            ));
        },
        (EntityType::Project, EntityType::Task) => {
            let seed = crate::db::selection::with_children(
                store.projects@,
                store.picked_projects(kind, id),
                EntityType::Project,
                store.tasks@,
                crate::db::selection::picked_by_id(store.tasks@, kind == EntityType::Task, id),
            );
            assert(is_picked_parent(
                store.projects@,
                store.picked_projects(kind, id),
                EntityType::Project,
                store.tasks@[child],
                parent,
            ));
            assert(reaches(store.tasks@, EntityType::Task, seed, child, 0));
        },
        (EntityType::Task, EntityType::Task) => {
            let seed = crate::db::selection::with_children(
                store.projects@,
                store.picked_projects(kind, id),
                EntityType::Project,
                store.tasks@,
                crate::db::selection::picked_by_id(store.tasks@, kind == EntityType::Task, id),
            );
            assert(descends(store.tasks@, EntityType::Task, seed, parent));
            let n = choose|n: nat| reaches(store.tasks@, EntityType::Task, seed, parent, n);
            assert(hangs_under(store.tasks@, EntityType::Task, child, parent));
            assert(reaches(store.tasks@, EntityType::Task, seed, child, n + 1));
        },
        (EntityType::LifeArea, EntityType::Note) => {
            assert(is_picked_parent(
                store.life_areas@,
                store.picked_life_areas(kind, id),
                EntityType::LifeArea,
                store.notes@[child],
                parent,
            ));
        },
        (EntityType::Goal, EntityType::Note) => {
            assert(is_picked_parent(
                store.goals@,
                store.picked_goals(kind, id),
                EntityType::Goal,
                store.notes@[child],
                parent,
            ));
        },
        (EntityType::Project, EntityType::Note) => {
            assert(is_picked_parent(
                store.projects@,
                store.picked_projects(kind, id),
                EntityType::Project,
                store.notes@[child],
                parent,
            ));
        },
        (EntityType::Task, EntityType::Note) => {
            assert(is_picked_parent(
                store.tasks@,
                store.picked_tasks(kind, id),
                EntityType::Task,
                store.notes@[child],
                parent,
            ));
        },
        _ => {},
    }
}

/// A cascade reaches nothing above its root: no life area but the root, no
/// goal from a project, task or note, no project from a task or note, no
/// task from a note.
pub proof fn cascade_reaches_nothing_above(store: Store, kind: EntityType, id: Seq<char>)
    ensures
        kind != EntityType::LifeArea ==> forall|i: int|
            0 <= i < store.life_areas@.len() ==> !store.reached(EntityType::LifeArea, i, kind, id),
        kind != EntityType::LifeArea && kind != EntityType::Goal ==> forall|i: int|
            0 <= i < store.goals@.len() ==> !store.reached(EntityType::Goal, i, kind, id),
        kind == EntityType::Task || kind == EntityType::Note ==> forall|i: int|
            0 <= i < store.projects@.len() ==> !store.reached(EntityType::Project, i, kind, id),
        kind == EntityType::Note ==> forall|i: int|
            0 <= i < store.tasks@.len() ==> !store.reached(EntityType::Task, i, kind, id),
{
    if kind == EntityType::Note {
        let seed = crate::db::selection::with_children(
            store.projects@,
            store.picked_projects(kind, id),
            EntityType::Project,
            store.tasks@,
            crate::db::selection::picked_by_id(store.tasks@, false, id),
        );
        assert forall|i: int, n: nat| !reaches(store.tasks@, EntityType::Task, seed, i, n) by {
            nothing_descends_from_nothing(store, seed, i, n);
        }
    }
}

proof fn nothing_descends_from_nothing(store: Store, seed: Seq<bool>, i: int, n: nat)
    requires
        seed.len() == store.tasks@.len(),
        forall|k: int| 0 <= k < seed.len() ==> !seed[k],
    ensures
        !reaches(store.tasks@, EntityType::Task, seed, i, n),
    decreases n,
{
    if n > 0 {
        let m = (n - 1) as nat;
        nothing_descends_from_nothing(store, seed, i, m);
        if exists|j: int|
            #[trigger] hangs_under(store.tasks@, EntityType::Task, i, j) && reaches(
                store.tasks@,
                EntityType::Task,
                seed,
                j,
                m,
            ) {
            let j = choose|j: int|
                #[trigger] hangs_under(store.tasks@, EntityType::Task, i, j) && reaches(
                    store.tasks@,
                    EntityType::Task,
                    seed,
                    j,
                    m,
                );
            nothing_descends_from_nothing(store, seed, j, m);
        }
    }
}

/// After a cascade at the time `now`, every row that the cascade reaches is
/// archived: with the stamp `now` where it was not archived before, with the
/// stamp it had where it was. The root carries the stamp `now`. A row that
/// the cascade does not reach has the stamp, or none, that it had before.
/// No row has changed its identity or its links.
pub proof fn cascade_archives_the_subtree(
    before: Store,
    after: Store,
    kind: EntityType,
    id: Seq<char>,
    now: i64,
)
    requires
        before.has_live_root(kind, id),
        Store::cascaded(before, after, kind, id, now),
    ensures
        before.same_shape(after),
        forall|table: EntityType, i: int|
            0 <= i < before.len_of(table) ==> #[trigger] after.stamp_of(table, i) == if before.reached(
                table,
                i,
                kind,
                id,
            ) && before.stamp_of(table, i) is None {
                Some(now)
            } else {
                before.stamp_of(table, i)
            },
        forall|table: EntityType, i: int|
            0 <= i < before.len_of(table) && before.reached(table, i, kind, id)
                ==> #[trigger] after.stamp_of(table, i) is Some,
        exists|i: int| before.is_root(kind, i, kind, id) && after.stamp_of(kind, i) == Some(now),
{
    assert forall|table: EntityType, i: int| 0 <= i < before.len_of(table) implies {
        &&& after.row_key(table, i) == before.row_key(table, i)
        &&& forall|to: EntityType| after.link_of(table, i, to) == before.link_of(table, i, to)
        &&& #[trigger] after.stamp_of(table, i) == if before.reached(table, i, kind, id)
            && before.stamp_of(table, i) is None {
            Some(now)
        } else {
            before.stamp_of(table, i)
        }
    } by {
        match table {
            EntityType::LifeArea => before.life_areas@[i].stamped_keeps_shape(Some(now), now),
            EntityType::Goal => before.goals@[i].stamped_keeps_shape(Some(now), now),
            EntityType::Project => before.projects@[i].stamped_keeps_shape(Some(now), now),
            EntityType::Task => before.tasks@[i].stamped_keeps_shape(Some(now), now),
            EntityType::Note => before.notes@[i].stamped_keeps_shape(Some(now), now),
        }
    }
    assert(before.same_shape(after)) by {
        assert forall|table: EntityType, i: int| #![trigger after.row_key(table, i)] {
            &&& after.len_of(table) == before.len_of(table)
            &&& after.row_key(table, i) == before.row_key(table, i)
            &&& 0 <= i < before.len_of(table) ==> forall|to: EntityType|
                after.link_of(table, i, to) == before.link_of(table, i, to)
        } by {
            if 0 <= i < before.len_of(table) {
                assert(after.stamp_of(table, i) == after.stamp_of(table, i));
            }
        }
    }
    let root = live_root_position(before, kind, id);
    cascade_reaches_root(before, kind, id, root);
    assert(after.stamp_of(kind, root) == Some(now));
    assert(before.is_root(kind, root, kind, id));
}

/// The position of a row `id` of table `kind` that is not archived.
pub proof fn live_root_position(store: Store, kind: EntityType, id: Seq<char>) -> (i: int)
    requires
        store.has_live_root(kind, id),
    ensures
        0 <= i < store.len_of(kind),
        store.row_key(kind, i) == Some(id),
        store.stamp_of(kind, i) is None,
{
    match kind {
        EntityType::LifeArea => choose|i: int|
            0 <= i < store.life_areas@.len() && #[trigger] store.life_areas@[i].key() == id
                && store.life_areas@[i].archived() is None,
        EntityType::Goal => choose|i: int|
            0 <= i < store.goals@.len() && #[trigger] store.goals@[i].key() == id
                && store.goals@[i].archived() is None,
        EntityType::Project => choose|i: int|
            0 <= i < store.projects@.len() && #[trigger] store.projects@[i].key() == id
                && store.projects@[i].archived() is None,
        EntityType::Task => choose|i: int|
            0 <= i < store.tasks@.len() && #[trigger] store.tasks@[i].key() == id
                && store.tasks@[i].archived() is None,
        EntityType::Note => choose|i: int|
            0 <= i < store.notes@.len() && #[trigger] store.notes@[i].key() == id
                && store.notes@[i].archived() is None,
    }
}

/// A restore that follows a cascade from the same record takes the stamp
/// from that record alone: every other row has the stamp that the cascade
/// left it with, so everything that the cascade reached below the root is
/// still archived.
pub proof fn restore_reopens_only_the_root(
    before: Store,
    archived: Store,
    restored: Store,
    kind: EntityType,
    id: Seq<char>,
    archived_at: i64,
    restored_at: i64,
)
    requires
        before.has_live_root(kind, id),
        Store::cascaded(before, archived, kind, id, archived_at),
        Store::restored(archived, restored, kind, id, restored_at),
    ensures
        before.same_shape(restored),
        forall|table: EntityType, i: int|
            0 <= i < before.len_of(table) ==> #[trigger] restored.stamp_of(table, i) == if before.is_root(
                table,
                i,
                kind,
                id,
            ) {
                None
            } else {
                archived.stamp_of(table, i)
            },
        forall|table: EntityType, i: int|
            0 <= i < before.len_of(table) && before.reached(table, i, kind, id) && !before.is_root(
                table,
                i,
                kind,
                id,
            ) ==> #[trigger] restored.stamp_of(table, i) is Some,
{
    cascade_archives_the_subtree(before, archived, kind, id, archived_at);
    assert forall|table: EntityType, i: int| 0 <= i < before.len_of(table) implies {
        &&& restored.row_key(table, i) == before.row_key(table, i)
        &&& forall|to: EntityType| restored.link_of(table, i, to) == before.link_of(table, i, to)
        &&& #[trigger] restored.stamp_of(table, i) == if before.is_root(table, i, kind, id) {
            None
        } else {
            archived.stamp_of(table, i)
        }
    } by {
        assert(archived.row_key(table, i) == before.row_key(table, i));
        assert(forall|to: EntityType| archived.link_of(table, i, to) == before.link_of(table, i, to));
        if before.is_root(table, i, kind, id) {
            cascade_reaches_root(before, kind, id, i);
            assert(archived.stamp_of(table, i) is Some);
        }
        match table {
            EntityType::LifeArea => archived.life_areas@[i].stamped_keeps_shape(None, restored_at),
            EntityType::Goal => archived.goals@[i].stamped_keeps_shape(None, restored_at),
            EntityType::Project => archived.projects@[i].stamped_keeps_shape(None, restored_at),
            EntityType::Task => archived.tasks@[i].stamped_keeps_shape(None, restored_at),
            EntityType::Note => archived.notes@[i].stamped_keeps_shape(None, restored_at),
        }
    }
    assert(before.same_shape(restored)) by {
        assert forall|table: EntityType, i: int| #![trigger restored.row_key(table, i)] {
            &&& restored.len_of(table) == before.len_of(table)
            &&& restored.row_key(table, i) == before.row_key(table, i)
            &&& 0 <= i < before.len_of(table) ==> forall|to: EntityType|
                restored.link_of(table, i, to) == before.link_of(table, i, to)
        } by {
            assert(archived.len_of(table) == before.len_of(table));
            if 0 <= i < before.len_of(table) {
                assert(restored.stamp_of(table, i) == restored.stamp_of(table, i));
            }
        }
    }
}

} // verus!
