//! The five tables of the hierarchy, held in memory, and the engine that
//! archives a record together with everything that hangs under it.
//!
//! A cascade starts at one record, the root. It reaches the goals of a life
//! area, the projects of a goal, the tasks of a project, the tasks that hang
//! under a task through any number of parent links, and the notes attached to
//! any record it reaches. Links are followed through archived records too.
//! Every record reached that is not archived yet gets one and the same
//! archive stamp; a record that is archived already keeps the stamp it has.
//! This holds of the root too: a root that is missing or archived already is
//! reported as not found, and nothing changes.

use vstd::prelude::*;
use crate::commands::repository::EntityType;
use crate::db::models::{Goal, LifeArea, Note, Project, Task};
use crate::db::record::Record;
use crate::db::selection::{
    pick_by_id, pick_children, pick_descendants, picked_by_id, with_children, with_descendants,
};
use crate::text::str_eq;

verus! {

/// The rows of the five tables.
#[derive(Debug)]
pub struct Store {
    pub life_areas: Vec<LifeArea>,
    pub goals: Vec<Goal>,
    pub projects: Vec<Project>,
    pub tasks: Vec<Task>,
    pub notes: Vec<Note>,
}

/// One pick for each table: the rows that a cascade reaches.
#[derive(Debug)]
pub struct Selection {
    pub life_areas: Vec<bool>,
    pub goals: Vec<bool>,
    pub projects: Vec<bool>,
    pub tasks: Vec<bool>,
    pub notes: Vec<bool>,
}

/// The identities of the rows that a cascade is about to archive, table by
/// table, each in the order of its table.
#[derive(Debug)]
pub struct CascadeTargets {
    pub life_areas: Vec<String>,
    pub goals: Vec<String>,
    pub projects: Vec<String>,
    pub tasks: Vec<String>,
    pub notes: Vec<String>,
}

/// How a physical deletion ended.
#[derive(Debug, Clone, Copy, PartialEq, Eq, Structural)]
pub enum DeleteOutcome {
    /// The row is gone.
    Deleted,
    /// No row has the identity.
    NotFound,
    /// So many rows hang under the row; nothing was deleted.
    Blocked(usize),
}

/// Whether no two rows share an identity.
pub open spec fn unique_keys<T: Record>(rows: Seq<T>) -> bool {
    forall|i: int, j: int| 0 <= i < j < rows.len() ==> rows[i].key() != rows[j].key()
}

/// Whether some row has the identity `id`.
pub open spec fn has_key<T: Record>(rows: Seq<T>, id: Seq<char>) -> bool {
    exists|i: int| 0 <= i < rows.len() && #[trigger] rows[i].key() == id
}

/// Whether some row has the identity `id` and is not archived.
pub open spec fn has_live<T: Record>(rows: Seq<T>, id: Seq<char>) -> bool {
    exists|i: int| 0 <= i < rows.len() && #[trigger] rows[i].key() == id && rows[i].archived() is None
}

/// Whether some row has the identity `id` and is archived.
pub open spec fn has_archived<T: Record>(rows: Seq<T>, id: Seq<char>) -> bool {
    exists|i: int| 0 <= i < rows.len() && #[trigger] rows[i].key() == id && rows[i].archived() is Some
}

/// What a cascade makes of one row: a picked row that is not archived gets
/// the stamp `now`, any other row stays as it is.
pub open spec fn archive_row<T: Record>(row: T, picked: bool, now: i64) -> T {
    if picked && row.archived() is None {
        row.stamped(Some(now), now)
    } else {
        row
    }
}

/// Whether `after` is `before` with `archive_row` applied to every row.
pub open spec fn archived_rows<T: Record>(before: Seq<T>, after: Seq<T>, picked: Seq<bool>, now: i64) -> bool {
    &&& after.len() == before.len()
    &&& forall|i: int| 0 <= i < before.len() ==> after[i] == archive_row(before[i], picked[i], now)
}

/// What a restore makes of one row: the archived row `id` loses its stamp,
/// any other row stays as it is.
pub open spec fn restore_row<T: Record>(row: T, on: bool, id: Seq<char>, now: i64) -> T {
    if on && row.key() == id && row.archived() is Some {
        row.stamped(None, now)
    } else {
        row
    }
}

/// Whether `after` is `before` with `restore_row` applied to every row.
pub open spec fn restored_rows<T: Record>(
    before: Seq<T>,
    after: Seq<T>,
    on: bool,
    id: Seq<char>,
    now: i64,
) -> bool {
    &&& after.len() == before.len()
    &&& forall|i: int| 0 <= i < before.len() ==> after[i] == restore_row(before[i], on, id, now)
}

/// The identities of the picked rows that are not archived, in table order.
pub open spec fn live_picks<T: Record>(rows: Seq<T>, picked: Seq<bool>) -> Seq<Seq<char>>
    decreases rows.len(),
{
    if rows.len() == 0 {
        Seq::empty()
    } else {
        let rest = live_picks(rows.drop_last(), picked.drop_last());
        if picked.last() && rows.last().archived() is None {
            rest.push(rows.last().key())
        } else {
            rest
        }
    }
}

/// How many rows hang directly under the row `id` of table `kind`.
pub open spec fn count_links<T: Record>(rows: Seq<T>, kind: EntityType, id: Seq<char>) -> nat
    decreases rows.len(),
{
    if rows.len() == 0 {
        0
    } else {
        count_links(rows.drop_last(), kind, id) + if rows.last().link(kind) == Some(id) {
            1nat
        } else {
            0nat
        }
    }
}

proof fn count_links_bounded<T: Record>(rows: Seq<T>, kind: EntityType, id: Seq<char>)
    ensures
        count_links(rows, kind, id) <= rows.len(),
    decreases rows.len(),
{
    if rows.len() > 0 {
        count_links_bounded(rows.drop_last(), kind, id);
    }
}

/// Stamping rows changes no identity, so identities stay unique.
pub proof fn archiving_keeps_keys<T: Record>(before: Seq<T>, after: Seq<T>, picked: Seq<bool>, now: i64)
    requires
        archived_rows(before, after, picked, now),
    ensures
        forall|i: int| 0 <= i < before.len() ==> #[trigger] after[i].key() == before[i].key(),
        unique_keys(before) ==> unique_keys(after),
{
    assert forall|i: int| 0 <= i < before.len() implies #[trigger] after[i].key() == before[i].key() by {
        before[i].stamped_keeps_shape(Some(now), now);
    }
}

/// Restoring rows changes no identity, so identities stay unique.
pub proof fn restoring_keeps_keys<T: Record>(
    before: Seq<T>,
    after: Seq<T>,
    on: bool,
    id: Seq<char>,
    now: i64,
)
    requires
        restored_rows(before, after, on, id, now),
    ensures
        forall|i: int| 0 <= i < before.len() ==> #[trigger] after[i].key() == before[i].key(),
        unique_keys(before) ==> unique_keys(after),
{
    assert forall|i: int| 0 <= i < before.len() implies #[trigger] after[i].key() == before[i].key() by {
        before[i].stamped_keeps_shape(None, now);
    }
}

/// A restore leaves the restored record in its table.
pub proof fn restored_row_is_there(before: Store, after: Store, kind: EntityType, id: Seq<char>, now: i64)
    requires
        before.has_archived_root(kind, id),
        Store::restored(before, after, kind, id, now),
    ensures
        after.has_row(kind, id),
{
    match kind {
        EntityType::LifeArea => {
            let i = choose|i: int|
                0 <= i < before.life_areas@.len() && #[trigger] before.life_areas@[i].key() == id
                    && before.life_areas@[i].archived() is Some;
            before.life_areas@[i].stamped_keeps_shape(None, now);
            assert(after.life_areas@[i].key() == id);
        },
        EntityType::Goal => {
            let i = choose|i: int|
                0 <= i < before.goals@.len() && #[trigger] before.goals@[i].key() == id
                    && before.goals@[i].archived() is Some;
            before.goals@[i].stamped_keeps_shape(None, now);
            assert(after.goals@[i].key() == id);
        },
        EntityType::Project => {
            let i = choose|i: int|
                0 <= i < before.projects@.len() && #[trigger] before.projects@[i].key() == id
                    && before.projects@[i].archived() is Some;
            before.projects@[i].stamped_keeps_shape(None, now);
            assert(after.projects@[i].key() == id);
        },
        EntityType::Task => {
            let i = choose|i: int|
                0 <= i < before.tasks@.len() && #[trigger] before.tasks@[i].key() == id
                    && before.tasks@[i].archived() is Some;
            before.tasks@[i].stamped_keeps_shape(None, now);
            assert(after.tasks@[i].key() == id);
        },
        EntityType::Note => {
            let i = choose|i: int|
                0 <= i < before.notes@.len() && #[trigger] before.notes@[i].key() == id
                    && before.notes@[i].archived() is Some;
            before.notes@[i].stamped_keeps_shape(None, now);
            assert(after.notes@[i].key() == id);
        },
    }
}

/// The position of the first row with identity `id`.
pub fn position_of<T: Record>(rows: &Vec<T>, id: &str) -> (at: Option<usize>)
    ensures
        match at {
            Some(i) => i < rows.len() && rows@[i as int].key() == id@ && forall|k: int|
                0 <= k < i ==> rows@[k].key() != id@,
            None => !has_key(rows@, id@),
        },
{
    let mut i: usize = 0;
    while i < rows.len()
        invariant
            i <= rows.len(),
            forall|k: int| 0 <= k < i ==> rows@[k].key() != id@,
        decreases rows.len() - i,
    {
        if str_eq(rows[i].id().as_str(), id) {
            return Some(i);
        }
        i += 1;
    }
    None
}

/// Whether some row has the identity `id` and, as `archived` says, an
/// archive stamp or none.
fn find_by_state<T: Record>(rows: &Vec<T>, id: &str, archived: bool) -> (r: bool)
    ensures
        r == if archived {
            has_archived(rows@, id@)
        } else {
            has_live(rows@, id@)
        },
{
    let mut i: usize = 0;
    while i < rows.len()
        invariant
            i <= rows.len(),
            forall|k: int|
                0 <= k < i ==> !(#[trigger] rows@[k].key() == id@ && rows@[k].archived() is Some
                    == archived),
        decreases rows.len() - i,
    {
        if str_eq(rows[i].id().as_str(), id) && rows[i].archived_at().is_some() == archived {
            return true;
        }
        i += 1;
    }
    false
}

/// Gives every picked row that is not archived the stamp `now`.
fn archive_picked<T: Record>(rows: &mut Vec<T>, picked: &Vec<bool>, now: i64)
    requires
        picked.len() == old(rows).len(),
    ensures
        archived_rows(old(rows)@, final(rows)@, picked@, now),
{
    let mut i: usize = 0;
    while i < rows.len()
        invariant
            i <= rows.len(),
            rows@.len() == old(rows)@.len(),
            picked.len() == rows.len(),
            forall|k: int| 0 <= k < i ==> rows@[k] == archive_row(old(rows)@[k], picked@[k], now),
            forall|k: int| i <= k < rows@.len() ==> rows@[k] == old(rows)@[k],
        decreases rows.len() - i,
    {
        if picked[i] && rows[i].archived_at().is_none() {
            rows[i].stamp(Some(now), now);
        }
        i += 1;
    }
}

/// Takes the stamp from every archived row with identity `id`.
fn restore_by_id<T: Record>(rows: &mut Vec<T>, id: &str, now: i64)
    ensures
        restored_rows(old(rows)@, final(rows)@, true, id@, now),
{
    let mut i: usize = 0;
    while i < rows.len()
        invariant
            i <= rows.len(),
            rows@.len() == old(rows)@.len(),
            forall|k: int| 0 <= k < i ==> rows@[k] == restore_row(old(rows)@[k], true, id@, now),
            forall|k: int| i <= k < rows@.len() ==> rows@[k] == old(rows)@[k],
        decreases rows.len() - i,
    {
        if str_eq(rows[i].id().as_str(), id) && rows[i].archived_at().is_some() {
            rows[i].stamp(None, now);
        }
        i += 1;
    }
}

/// The identities of the picked rows that are not archived.
fn collect_live_picks<T: Record>(rows: &Vec<T>, picked: &Vec<bool>) -> (ids: Vec<String>)
    requires
        picked.len() == rows.len(),
    ensures
        crate::text::views(ids@) == live_picks(rows@, picked@),
{
    let mut ids: Vec<String> = Vec::new();
    let mut i: usize = 0;
    assert(crate::text::views(ids@) =~= live_picks(rows@.take(0), picked@.take(0)));
    while i < rows.len()
        invariant
            i <= rows.len(),
            picked.len() == rows.len(),
            crate::text::views(ids@) == live_picks(rows@.take(i as int), picked@.take(i as int)),
        decreases rows.len() - i,
    {
        let ghost before = crate::text::views(ids@);
        assert(rows@.take(i + 1).drop_last() =~= rows@.take(i as int));
        assert(picked@.take(i + 1).drop_last() =~= picked@.take(i as int));
        if picked[i] && rows[i].archived_at().is_none() {
            ids.push(rows[i].id().clone());
            assert(crate::text::views(ids@) =~= before.push(rows@[i as int].key()));
        }
        i += 1;
    }
    assert(rows@.take(rows.len() as int) =~= rows@);
    assert(picked@.take(rows.len() as int) =~= picked@);
    ids
}

/// How many rows hang directly under the row `id` of table `kind`.
fn count_linked<T: Record>(rows: &Vec<T>, kind: EntityType, id: &str) -> (n: usize)
    ensures
        n == count_links(rows@, kind, id@),
{
    let mut n: usize = 0;
    let mut i: usize = 0;
    while i < rows.len()
        invariant
            i <= rows.len(),
            n <= i,
            n == count_links(rows@.take(i as int), kind, id@),
        decreases rows.len() - i,
    {
        assert(rows@.take(i + 1).drop_last() =~= rows@.take(i as int));
        if rows[i].links_to(kind, id) {
            n += 1;
        }
        i += 1;
    }
    assert(rows@.take(rows.len() as int) =~= rows@);
    n
}

impl Selection {
    /// Whether this selection is what a cascade from the record `id` of table
    /// `kind` reaches in `store`.
    pub open spec fn is_subtree(&self, store: &Store, kind: EntityType, id: Seq<char>) -> bool {
        &&& self.life_areas@ == store.picked_life_areas(kind, id)
        &&& self.goals@ == store.picked_goals(kind, id)
        &&& self.projects@ == store.picked_projects(kind, id)
        &&& self.tasks@ == store.picked_tasks(kind, id)
        &&& self.notes@ == store.picked_notes(kind, id)
    }
}

impl Store {
    /// Whether identities are unique in each table and the rows of all tables
    /// can be counted in a `usize`.
    pub open spec fn wf(&self) -> bool {
        &&& unique_keys(self.life_areas@)
        &&& unique_keys(self.goals@)
        &&& unique_keys(self.projects@)
        &&& unique_keys(self.tasks@)
        &&& unique_keys(self.notes@)
        &&& self.rows() <= usize::MAX
    }

    /// The number of rows in all tables.
    pub open spec fn rows(&self) -> nat {
        self.life_areas@.len() + self.goals@.len() + self.projects@.len() + self.tasks@.len()
            + self.notes@.len()
    }

    /// The life areas that a cascade from the record `id` of table `kind`
    /// reaches: the root itself where it is a life area.
    pub open spec fn picked_life_areas(&self, kind: EntityType, id: Seq<char>) -> Seq<bool> {
        picked_by_id(self.life_areas@, kind == EntityType::LifeArea, id)
    }

    /// The goals that the cascade reaches: the root itself where it is a
    /// goal, and the goals of a life area reached.
    pub open spec fn picked_goals(&self, kind: EntityType, id: Seq<char>) -> Seq<bool> {
        with_children(
            self.life_areas@,
            self.picked_life_areas(kind, id),
            EntityType::LifeArea,
            self.goals@,
            picked_by_id(self.goals@, kind == EntityType::Goal, id),
        )
    }

    /// The projects that the cascade reaches: the root itself where it is a
    /// project, and the projects of a goal reached.
    pub open spec fn picked_projects(&self, kind: EntityType, id: Seq<char>) -> Seq<bool> {
        with_children(
            self.goals@,
            self.picked_goals(kind, id),
            EntityType::Goal,
            self.projects@,
            picked_by_id(self.projects@, kind == EntityType::Project, id),
        )
    }

    /// The tasks that the cascade reaches: the root itself where it is a
    /// task, the tasks of a project reached, and the tasks that hang under
    /// one of these through any number of parent links.
    pub open spec fn picked_tasks(&self, kind: EntityType, id: Seq<char>) -> Seq<bool> {
        with_descendants(
            self.tasks@,
            EntityType::Task,
            with_children(
                self.projects@,
                self.picked_projects(kind, id),
                EntityType::Project,
                self.tasks@,
                picked_by_id(self.tasks@, kind == EntityType::Task, id),
            ),
        )
    }

    /// The notes that the cascade reaches: the root itself where it is a
    /// note, and the notes attached to a life area, goal, project or task
    /// reached.
    pub open spec fn picked_notes(&self, kind: EntityType, id: Seq<char>) -> Seq<bool> {
        with_children(
            self.tasks@,
            self.picked_tasks(kind, id),
            EntityType::Task,
            self.notes@,
            with_children(
                self.projects@,
                self.picked_projects(kind, id),
                EntityType::Project,
                self.notes@,
                with_children(
                    self.goals@,
                    self.picked_goals(kind, id),
                    EntityType::Goal,
                    self.notes@,
                    with_children(
                        self.life_areas@,
                        self.picked_life_areas(kind, id),
                        EntityType::LifeArea,
                        self.notes@,
                        picked_by_id(self.notes@, kind == EntityType::Note, id),
                    ),
                ),
            ),
        )
    }

    /// Whether table `kind` holds a row `id` that is not archived.
    pub open spec fn has_live_root(&self, kind: EntityType, id: Seq<char>) -> bool {
        match kind {
            EntityType::LifeArea => has_live(self.life_areas@, id),
            EntityType::Goal => has_live(self.goals@, id),
            EntityType::Project => has_live(self.projects@, id),
            EntityType::Task => has_live(self.tasks@, id),
            EntityType::Note => has_live(self.notes@, id),
        }
    }

    /// Whether table `kind` holds a row `id` that is archived.
    pub open spec fn has_archived_root(&self, kind: EntityType, id: Seq<char>) -> bool {
        match kind {
            EntityType::LifeArea => has_archived(self.life_areas@, id),
            EntityType::Goal => has_archived(self.goals@, id),
            EntityType::Project => has_archived(self.projects@, id),
            EntityType::Task => has_archived(self.tasks@, id),
            EntityType::Note => has_archived(self.notes@, id),
        }
    }

    /// Whether table `kind` holds a row `id`.
    pub open spec fn has_row(&self, kind: EntityType, id: Seq<char>) -> bool {
        match kind {
            EntityType::LifeArea => has_key(self.life_areas@, id),
            EntityType::Goal => has_key(self.goals@, id),
            EntityType::Project => has_key(self.projects@, id),
            EntityType::Task => has_key(self.tasks@, id),
            EntityType::Note => has_key(self.notes@, id),
        }
    }

    /// How many rows hang directly under the row `id` of table `kind`: its
    /// goals, projects, tasks or subtasks, and the notes attached to it.
    pub open spec fn dependents(&self, kind: EntityType, id: Seq<char>) -> nat {
        count_links(self.life_areas@, kind, id) + count_links(self.goals@, kind, id) + count_links(
            self.projects@,
            kind,
            id,
        ) + count_links(self.tasks@, kind, id) + count_links(self.notes@, kind, id)
    }

    /// Whether `after` is `before` once the cascade from the record `id` of
    /// table `kind` has run at the time `now`.
    pub open spec fn cascaded(before: Store, after: Store, kind: EntityType, id: Seq<char>, now: i64) -> bool {
        &&& archived_rows(before.life_areas@, after.life_areas@, before.picked_life_areas(kind, id), now)
        &&& archived_rows(before.goals@, after.goals@, before.picked_goals(kind, id), now)
        &&& archived_rows(before.projects@, after.projects@, before.picked_projects(kind, id), now)
        &&& archived_rows(before.tasks@, after.tasks@, before.picked_tasks(kind, id), now)
        &&& archived_rows(before.notes@, after.notes@, before.picked_notes(kind, id), now)
    }

    /// Whether `after` is `before` once the archived record `id` of table
    /// `kind`, and no other, has lost its stamp at the time `now`.
    pub open spec fn restored(before: Store, after: Store, kind: EntityType, id: Seq<char>, now: i64) -> bool {
        &&& restored_rows(before.life_areas@, after.life_areas@, kind == EntityType::LifeArea, id, now)
        &&& restored_rows(before.goals@, after.goals@, kind == EntityType::Goal, id, now)
        &&& restored_rows(before.projects@, after.projects@, kind == EntityType::Project, id, now)
        &&& restored_rows(before.tasks@, after.tasks@, kind == EntityType::Task, id, now)
        &&& restored_rows(before.notes@, after.notes@, kind == EntityType::Note, id, now)
    }

    /// Whether `after` is `before` without the row `id` of table `kind`.
    pub open spec fn deleted(before: Store, after: Store, kind: EntityType, id: Seq<char>) -> bool {
        exists|i: int|
            {
                &&& 0 <= i
                &&& #[trigger] before.row_key(kind, i) == Some(id)
                &&& after.life_areas@ == if kind == EntityType::LifeArea {
                    before.life_areas@.remove(i)
                } else {
                    before.life_areas@
                }
                &&& after.goals@ == if kind == EntityType::Goal {
                    before.goals@.remove(i)
                } else {
                    before.goals@
                }
                &&& after.projects@ == if kind == EntityType::Project {
                    before.projects@.remove(i)
                } else {
                    before.projects@
                }
                &&& after.tasks@ == if kind == EntityType::Task {
                    before.tasks@.remove(i)
                } else {
                    before.tasks@
                }
                &&& after.notes@ == if kind == EntityType::Note {
                    before.notes@.remove(i)
                } else {
                    before.notes@
                }
            }
    }

    /// The identity of row `i` of table `kind`, if there is such a row.
    pub open spec fn row_key(&self, kind: EntityType, i: int) -> Option<Seq<char>> {
        match kind {
            EntityType::LifeArea => if 0 <= i < self.life_areas@.len() {
                Some(self.life_areas@[i].key())
            } else {
                None
            },
            EntityType::Goal => if 0 <= i < self.goals@.len() {
                Some(self.goals@[i].key())
            } else {
                None
            },
            EntityType::Project => if 0 <= i < self.projects@.len() {
                Some(self.projects@[i].key())
            } else {
                None
            },
            EntityType::Task => if 0 <= i < self.tasks@.len() {
                Some(self.tasks@[i].key())
            } else {
                None
            },
            EntityType::Note => if 0 <= i < self.notes@.len() {
                Some(self.notes@[i].key())
            } else {
                None
            },
        }
    }

    /// A store without rows.
    pub fn new() -> (s: Store)
        ensures
            s.wf(),
            s.rows() == 0,
    {
        Store {
            life_areas: Vec::new(),
            goals: Vec::new(),
            projects: Vec::new(),
            tasks: Vec::new(),
            notes: Vec::new(),
        }
    }

    /// What a cascade from the record `id` of table `kind` reaches.
    pub fn select(&self, kind: EntityType, id: &str) -> (sel: Selection)
        ensures
            sel.is_subtree(self, kind, id@),
    {
        let life_areas = pick_by_id(&self.life_areas, kind == EntityType::LifeArea, id);
        let goal_seed = pick_by_id(&self.goals, kind == EntityType::Goal, id);
        let goals = pick_children(
            &self.life_areas,
            &life_areas,
            EntityType::LifeArea,
            &self.goals,
            &goal_seed,
        );
        let project_seed = pick_by_id(&self.projects, kind == EntityType::Project, id);
        let projects = pick_children(&self.goals, &goals, EntityType::Goal, &self.projects, &project_seed);
        let task_root = pick_by_id(&self.tasks, kind == EntityType::Task, id);
        let task_seed = pick_children(
            &self.projects,
            &projects,
            EntityType::Project,
            &self.tasks,
            &task_root,
        );
        let tasks = pick_descendants(&self.tasks, EntityType::Task, &task_seed);
        let note_root = pick_by_id(&self.notes, kind == EntityType::Note, id);
        let notes_of_areas = pick_children(
            &self.life_areas,
            &life_areas,
            EntityType::LifeArea,
            &self.notes,
            &note_root,
        );
        let notes_of_goals = pick_children(
            &self.goals,
            &goals,
            EntityType::Goal,
            &self.notes,
            &notes_of_areas,
        );
        let notes_of_projects = pick_children(
            &self.projects,
            &projects,
            EntityType::Project,
            &self.notes,
            &notes_of_goals,
        );
        let notes = pick_children(&self.tasks, &tasks, EntityType::Task, &self.notes, &notes_of_projects);
        Selection { life_areas, goals, projects, tasks, notes }
    }

    /// Whether table `kind` holds a row `id` that is not archived.
    pub fn is_live(&self, kind: EntityType, id: &str) -> (r: bool)
        ensures
            r == self.has_live_root(kind, id@),
    {
        match kind {
            EntityType::LifeArea => find_by_state(&self.life_areas, id, false),
            EntityType::Goal => find_by_state(&self.goals, id, false),
            EntityType::Project => find_by_state(&self.projects, id, false),
            EntityType::Task => find_by_state(&self.tasks, id, false),
            EntityType::Note => find_by_state(&self.notes, id, false),
        }
    }

    /// Whether table `kind` holds a row `id` that is archived.
    pub fn is_archived(&self, kind: EntityType, id: &str) -> (r: bool)
        ensures
            r == self.has_archived_root(kind, id@),
    {
        match kind {
            EntityType::LifeArea => find_by_state(&self.life_areas, id, true),
            EntityType::Goal => find_by_state(&self.goals, id, true),
            EntityType::Project => find_by_state(&self.projects, id, true),
            EntityType::Task => find_by_state(&self.tasks, id, true),
            EntityType::Note => find_by_state(&self.notes, id, true),
        }
    }

    /// The identities of the rows that the cascade from the record `id` of
    /// table `kind` would archive: the rows it reaches that are not archived.
    /// Without a root that is not archived there are none.
    pub fn cascade_targets(&self, kind: EntityType, id: &str) -> (targets: Option<CascadeTargets>)
        ensures
            targets is Some == self.has_live_root(kind, id@),
            targets matches Some(t) ==> {
                &&& crate::text::views(t.life_areas@) == live_picks(
                    self.life_areas@,
                    self.picked_life_areas(kind, id@),
                )
                &&& crate::text::views(t.goals@) == live_picks(self.goals@, self.picked_goals(kind, id@))
                &&& crate::text::views(t.projects@) == live_picks(
                    self.projects@,
                    self.picked_projects(kind, id@),
                )
                &&& crate::text::views(t.tasks@) == live_picks(self.tasks@, self.picked_tasks(kind, id@))
                &&& crate::text::views(t.notes@) == live_picks(self.notes@, self.picked_notes(kind, id@))
            },
    {
        if !self.is_live(kind, id) {
            return None;
        }
        let sel = self.select(kind, id);
        Some(
            CascadeTargets {
                life_areas: collect_live_picks(&self.life_areas, &sel.life_areas),
                goals: collect_live_picks(&self.goals, &sel.goals),
                projects: collect_live_picks(&self.projects, &sel.projects),
                tasks: collect_live_picks(&self.tasks, &sel.tasks),
                notes: collect_live_picks(&self.notes, &sel.notes),
            },
        )
    }

    /// Archives the record `id` of table `kind` and everything that hangs
    /// under it, with the one stamp `now`. Returns whether the root was there
    /// and not archived; where it was not, nothing changes.
    pub fn archive_cascade(&mut self, kind: EntityType, id: &str, now: i64) -> (done: bool)
        ensures
            done == old(self).has_live_root(kind, id@),
            done ==> Store::cascaded(*old(self), *final(self), kind, id@, now),
            !done ==> *final(self) == *old(self),
            old(self).wf() ==> final(self).wf(),
    {
        if !self.is_live(kind, id) {
            return false;
        }
        let sel = self.select(kind, id);
        archive_picked(&mut self.life_areas, &sel.life_areas, now);
        archive_picked(&mut self.goals, &sel.goals, now);
        archive_picked(&mut self.projects, &sel.projects, now);
        archive_picked(&mut self.tasks, &sel.tasks, now);
        archive_picked(&mut self.notes, &sel.notes, now);
        proof {
            archiving_keeps_keys(old(self).life_areas@, self.life_areas@, sel.life_areas@, now);
            archiving_keeps_keys(old(self).goals@, self.goals@, sel.goals@, now);
            archiving_keeps_keys(old(self).projects@, self.projects@, sel.projects@, now);
            archiving_keeps_keys(old(self).tasks@, self.tasks@, sel.tasks@, now);
            archiving_keeps_keys(old(self).notes@, self.notes@, sel.notes@, now);
        }
        true
    }

    /// Takes the archive stamp from the record `id` of table `kind`, and from
    /// no other record. Returns whether the record was there and archived;
    /// where it was not, nothing changes.
    pub fn restore(&mut self, kind: EntityType, id: &str, now: i64) -> (done: bool)
        ensures
            done == old(self).has_archived_root(kind, id@),
            done ==> Store::restored(*old(self), *final(self), kind, id@, now),
            !done ==> *final(self) == *old(self),
            old(self).wf() ==> final(self).wf(),
    {
        if !self.is_archived(kind, id) {
            return false;
        }
        match kind {
            EntityType::LifeArea => {
                restore_by_id(&mut self.life_areas, id, now);
                proof {
                    restoring_keeps_keys(old(self).life_areas@, self.life_areas@, true, id@, now);
                }
            },
            EntityType::Goal => {
                restore_by_id(&mut self.goals, id, now);
                proof {
                    restoring_keeps_keys(old(self).goals@, self.goals@, true, id@, now);
                }
            },
            EntityType::Project => {
                restore_by_id(&mut self.projects, id, now);
                proof {
                    restoring_keeps_keys(old(self).projects@, self.projects@, true, id@, now);
                }
            },
            EntityType::Task => {
                restore_by_id(&mut self.tasks, id, now);
                proof {
                    restoring_keeps_keys(old(self).tasks@, self.tasks@, true, id@, now);
                }
            },
            EntityType::Note => {
                restore_by_id(&mut self.notes, id, now);
                proof {
                    restoring_keeps_keys(old(self).notes@, self.notes@, true, id@, now);
                }
            },
        }
        true
    }

    /// How many rows hang directly under the row `id` of table `kind`.
    pub fn count_dependents(&self, kind: EntityType, id: &str) -> (n: usize)
        requires
            self.rows() <= usize::MAX,
        ensures
            n == self.dependents(kind, id@),
    {
        proof {
            count_links_bounded(self.life_areas@, kind, id@);
            count_links_bounded(self.goals@, kind, id@);
            count_links_bounded(self.projects@, kind, id@);
            count_links_bounded(self.tasks@, kind, id@);
            count_links_bounded(self.notes@, kind, id@);
        }
        count_linked(&self.life_areas, kind, id) + count_linked(&self.goals, kind, id) + count_linked(
            &self.projects,
            kind,
            id,
        ) + count_linked(&self.tasks, kind, id) + count_linked(&self.notes, kind, id)
    }

    /// Removes the row `id` of table `kind` for good, unless rows hang under
    /// it. Where the row is missing or rows hang under it, nothing changes.
    pub fn hard_delete(&mut self, kind: EntityType, id: &str) -> (outcome: DeleteOutcome)
        requires
            old(self).wf(),
        ensures
            final(self).wf(),
            match outcome {
                DeleteOutcome::NotFound => !old(self).has_row(kind, id@),
                DeleteOutcome::Blocked(n) => old(self).has_row(kind, id@) && n > 0 && n == old(self).dependents(
                    kind,
                    id@,
                ),
                DeleteOutcome::Deleted => old(self).has_row(kind, id@) && old(self).dependents(kind, id@)
                    == 0,
            },
            outcome == DeleteOutcome::Deleted ==> Store::deleted(*old(self), *final(self), kind, id@),
            outcome != DeleteOutcome::Deleted ==> *final(self) == *old(self),
    {
        let at = match kind {
            EntityType::LifeArea => position_of(&self.life_areas, id),
            EntityType::Goal => position_of(&self.goals, id),
            EntityType::Project => position_of(&self.projects, id),
            EntityType::Task => position_of(&self.tasks, id),
            EntityType::Note => position_of(&self.notes, id),
        };
        match at {
            None => DeleteOutcome::NotFound,
            Some(i) => {
                let n = self.count_dependents(kind, id);
                if n > 0 {
                    DeleteOutcome::Blocked(n)
                } else {
                    match kind {
                        EntityType::LifeArea => {
                            self.life_areas.remove(i);
                        },
                        EntityType::Goal => {
                            self.goals.remove(i);
                        },
                        EntityType::Project => {
                            self.projects.remove(i);
                        },
                        EntityType::Task => {
                            self.tasks.remove(i);
                        },
                        EntityType::Note => {
                            self.notes.remove(i);
                        },
                    }
                    assert(old(self).row_key(kind, i as int) == Some(id@));
                    DeleteOutcome::Deleted
                }
            },
        }
    }
}

} // verus!
