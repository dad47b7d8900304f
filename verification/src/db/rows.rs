//! Work on single rows of the store: adding, finding, changing and listing.

use vstd::prelude::*;
use vstd::seq_lib::{to_multiset_build, to_multiset_insert};
use crate::commands::repository::EntityType;
use crate::db::models::{Goal, LifeArea, Note, Project, Task};
use crate::db::record::Record;
use crate::db::store::{has_key, position_of, unique_keys, Store};
use crate::text::{clone_opt, opt_view, str_eq};

verus! {

/// How the adding of a row ended.
#[derive(Debug, Clone, Copy, PartialEq, Eq, Structural)]
pub enum InsertOutcome {
    /// The row stands at the end of its table.
    Inserted,
    /// The table holds a row with that identity already.
    Duplicate,
    /// The store holds as many rows as can be counted.
    Full,
}

/// The rows that are not archived, in table order.
pub open spec fn live_rows<T: Record>(rows: Seq<T>) -> Seq<T>
    decreases rows.len(),
{
    if rows.len() == 0 {
        Seq::empty()
    } else if rows.last().archived() is None {
        live_rows(rows.drop_last()).push(rows.last())
    } else {
        live_rows(rows.drop_last())
    }
}

/// Whether the life areas stand newest first.
pub open spec fn newest_first(areas: Seq<LifeArea>) -> bool {
    forall|i: int, j: int| 0 <= i <= j < areas.len() ==> areas[i].created_at >= areas[j].created_at
}

/// What an update makes of a life area: one that is not archived and has the
/// identity `id` gets the new name, description, colour and icon and `now` as
/// its time of last change; any other stays as it is.
pub open spec fn updated_area(
    area: LifeArea,
    id: Seq<char>,
    name: String,
    description: Option<String>,
    color: Option<String>,
    icon: Option<String>,
    now: i64,
) -> LifeArea {
    if area.id@ == id && area.archived_at is None {
        LifeArea { name, description, color, icon, updated_at: now, ..area }
    } else {
        area
    }
}

/// Whether `after` is `before` with `updated_area` applied to every row.
pub open spec fn areas_updated(
    before: Seq<LifeArea>,
    after: Seq<LifeArea>,
    id: Seq<char>,
    name: String,
    description: Option<String>,
    color: Option<String>,
    icon: Option<String>,
    now: i64,
) -> bool {
    &&& after.len() == before.len()
    &&& forall|i: int|
        0 <= i < before.len() ==> after[i] == updated_area(
            before[i],
            id,
            name,
            description,
            color,
            icon,
            now,
        )
}

/// What completing makes of a task: the one with identity `id` gets `now` as
/// its time of completion and of last change; any other stays as it is.
pub open spec fn completed_task(task: Task, id: Seq<char>, now: i64) -> Task {
    if task.id@ == id {
        Task { completed_at: Some(now), updated_at: now, ..task }
    } else {
        task
    }
}

/// Whether `after` is `before` with `completed_task` applied to every row.
pub open spec fn tasks_completed(before: Seq<Task>, after: Seq<Task>, id: Seq<char>, now: i64) -> bool {
    &&& after.len() == before.len()
    &&& forall|i: int| 0 <= i < before.len() ==> after[i] == completed_task(before[i], id, now)
}

/// `task` as it is stored when it is new: neither completed nor archived.
pub open spec fn stored_task(task: Task) -> Task {
    Task { completed_at: None, archived_at: None, ..task }
}

/// `subtask` as it is stored when it is new, under the task `parent`.
pub open spec fn stored_subtask(subtask: Task, parent: String) -> Task {
    Task { parent_task_id: Some(parent), completed_at: None, archived_at: None, ..subtask }
}

/// `task` and, after it, `subtasks` under it, as they are stored.
pub open spec fn stored_family(task: Task, subtasks: Seq<Task>) -> Seq<Task> {
    seq![stored_task(task)] + Seq::new(subtasks.len(), |i: int| stored_subtask(subtasks[i], task.id))
}

/// Whether the identities of `task` and `subtasks` are pairwise distinct and
/// none of them is taken in `rows`.
pub open spec fn fresh_family(rows: Seq<Task>, task: Task, subtasks: Seq<Task>) -> bool {
    &&& !has_key(rows, task.id@)
    &&& forall|i: int| 0 <= i < subtasks.len() ==> !has_key(rows, #[trigger] subtasks[i].id@)
    &&& forall|i: int| 0 <= i < subtasks.len() ==> #[trigger] subtasks[i].id@ != task.id@
    &&& forall|i: int, j: int| 0 <= i < j < subtasks.len() ==> subtasks[i].id@ != subtasks[j].id@
}

/// A copy of the first row with identity `id`.
pub fn find_row<T: Record>(rows: &Vec<T>, id: &str) -> (found: Option<T>)
    ensures
        found is Some == has_key(rows@, id@),
        found matches Some(row) ==> row.key() == id@ && rows@.contains(row),
{
    match position_of(rows, id) {
        Some(i) => Some(rows[i].duplicate()),
        None => None,
    }
}

/// How many rows are archived, or how many are not.
pub open spec fn count_by_state<T: Record>(rows: Seq<T>, archived: bool) -> nat
    decreases rows.len(),
{
    if rows.len() == 0 {
        0
    } else {
        count_by_state(rows.drop_last(), archived) + if rows.last().archived() is Some == archived {
            1nat
        } else {
            0nat
        }
    }
}

/// How many rows are archived, or how many are not.
pub fn count_rows_by_state<T: Record>(rows: &Vec<T>, archived: bool) -> (n: usize)
    ensures
        n == count_by_state(rows@, archived),
        n <= rows@.len(),
{
    let mut n: usize = 0;
    let mut i: usize = 0;
    while i < rows.len()
        invariant
            i <= rows.len(),
            n <= i,
            n == count_by_state(rows@.take(i as int), archived),
        decreases rows.len() - i,
    {
        assert(rows@.take(i + 1).drop_last() =~= rows@.take(i as int));
        if rows[i].archived_at().is_some() == archived {
            n += 1;
        }
        i += 1;
    }
    assert(rows@.take(rows.len() as int) =~= rows@);
    n
}

/// Whether a row was archived before the time `cutoff`.
pub open spec fn is_stale<T: Record>(row: T, cutoff: i64) -> bool {
    row.archived() matches Some(at) && at < cutoff
}

/// The rows that were not archived before the time `cutoff`, in order.
pub open spec fn fresh_rows<T: Record>(rows: Seq<T>, cutoff: i64) -> Seq<T>
    decreases rows.len(),
{
    if rows.len() == 0 {
        Seq::empty()
    } else if is_stale(rows.last(), cutoff) {
        fresh_rows(rows.drop_last(), cutoff)
    } else {
        fresh_rows(rows.drop_last(), cutoff).push(rows.last())
    }
}

/// The rows of `fresh_rows` are rows of the table, in the order of the
/// table, so their identities are unique where those of the table are.
pub proof fn fresh_rows_are_rows<T: Record>(rows: Seq<T>, cutoff: i64)
    ensures
        fresh_rows(rows, cutoff).len() <= rows.len(),
        forall|k: int|
            0 <= k < fresh_rows(rows, cutoff).len() ==> exists|i: int|
                k <= i < rows.len() && rows[i] == #[trigger] fresh_rows(rows, cutoff)[k],
        unique_keys(rows) ==> unique_keys(fresh_rows(rows, cutoff)),
    decreases rows.len(),
{
    if rows.len() > 0 {
        let rest = rows.drop_last();
        fresh_rows_are_rows(rest, cutoff);
        let kept = fresh_rows(rows, cutoff);
        let before = fresh_rows(rest, cutoff);
        assert forall|k: int| 0 <= k < kept.len() implies exists|i: int|
            k <= i < rows.len() && rows[i] == #[trigger] kept[k] by {
            if k < before.len() {
                let i = choose|i: int| k <= i < rest.len() && rest[i] == before[k];
                assert(rows[i] == kept[k]);
            } else {
                assert(rows[rows.len() - 1] == kept[k]);
            }
        }
        if unique_keys(rows) {
            assert(unique_keys(rest));
            assert forall|a: int, b: int| 0 <= a < b < kept.len() implies kept[a].key()
                != kept[b].key() by {
                if b == before.len() {
                    let i = choose|i: int| a <= i < rest.len() && rest[i] == before[a];
                    assert(rows[i].key() != rows[rows.len() - 1].key());
                }
            }
        }
    }
}

/// Removes the rows that were archived before the time `cutoff` and returns
/// how many they were.
pub fn remove_stale<T: Record>(rows: &mut Vec<T>, cutoff: i64) -> (removed: usize)
    ensures
        final(rows)@ == fresh_rows(old(rows)@, cutoff),
        removed == old(rows)@.len() - final(rows)@.len(),
        unique_keys(old(rows)@) ==> unique_keys(final(rows)@),
{
    let mut kept: Vec<T> = Vec::new();
    let mut i: usize = 0;
    assert(rows@.take(0) =~= Seq::<T>::empty());
    while i < rows.len()
        invariant
            i <= rows.len(),
            *rows == *old(rows),
            kept@ == fresh_rows(rows@.take(i as int), cutoff),
            kept@.len() <= i,
        decreases rows.len() - i,
    {
        assert(rows@.take(i + 1).drop_last() =~= rows@.take(i as int));
        let stale = match rows[i].archived_at() {
            Some(at) => at < cutoff,
            None => false,
        };
        if !stale {
            kept.push(rows[i].duplicate());
        }
        i += 1;
    }
    assert(rows@.take(rows.len() as int) =~= rows@);
    proof {
        fresh_rows_are_rows(rows@, cutoff);
    }
    let removed = rows.len() - kept.len();
    *rows = kept;
    removed
}

/// Adds `row` at the end of `rows` unless its identity is taken.
fn insert_row<T: Record>(rows: &mut Vec<T>, row: T) -> (done: bool)
    ensures
        done == !has_key(old(rows)@, row.key()),
        done ==> final(rows)@ == old(rows)@.push(row),
        !done ==> *final(rows) == *old(rows),
        unique_keys(old(rows)@) ==> unique_keys(final(rows)@),
{
    match position_of(rows, row.id().as_str()) {
        Some(_) => false,
        None => {
            rows.push(row);
            true
        },
    }
}

impl Store {
    /// The number of rows in all tables.
    pub fn count_rows(&self) -> (n: usize)
        requires
            self.rows() <= usize::MAX,
        ensures
            n == self.rows(),
    {
        self.life_areas.len() + self.goals.len() + self.projects.len() + self.tasks.len()
            + self.notes.len()
    }

    /// Adds a life area, unless its identity is taken or the store is full.
    pub fn insert_life_area(&mut self, row: LifeArea) -> (outcome: InsertOutcome)
        requires
            old(self).wf(),
        ensures
            final(self).wf(),
            outcome == if old(self).rows() == usize::MAX {
                InsertOutcome::Full
            } else if has_key(old(self).life_areas@, row.id@) {
                InsertOutcome::Duplicate
            } else {
                InsertOutcome::Inserted
            },
            outcome == InsertOutcome::Inserted ==> *final(self) == (Store {
                life_areas: final(self).life_areas,
                ..*old(self)
            }) && final(self).life_areas@ == old(self).life_areas@.push(row),
            outcome != InsertOutcome::Inserted ==> *final(self) == *old(self),
    {
        if self.count_rows() == usize::MAX {
            InsertOutcome::Full
        } else if insert_row(&mut self.life_areas, row) {
            InsertOutcome::Inserted
        } else {
            InsertOutcome::Duplicate
        }
    }

    /// Adds a goal, unless its identity is taken or the store is full.
    pub fn insert_goal(&mut self, row: Goal) -> (outcome: InsertOutcome)
        requires
            old(self).wf(),
        ensures
            final(self).wf(),
            outcome == if old(self).rows() == usize::MAX {
                InsertOutcome::Full
            } else if has_key(old(self).goals@, row.id@) {
                InsertOutcome::Duplicate
            } else {
                InsertOutcome::Inserted
            },
            outcome == InsertOutcome::Inserted ==> *final(self) == (Store {
                goals: final(self).goals,
                ..*old(self)
            }) && final(self).goals@ == old(self).goals@.push(row),
            outcome != InsertOutcome::Inserted ==> *final(self) == *old(self),
    {
        if self.count_rows() == usize::MAX {
            InsertOutcome::Full
        } else if insert_row(&mut self.goals, row) {
            InsertOutcome::Inserted
        } else {
            InsertOutcome::Duplicate
        }
    }

    /// Adds a project, unless its identity is taken or the store is full.
    pub fn insert_project(&mut self, row: Project) -> (outcome: InsertOutcome)
        requires
            old(self).wf(),
        ensures
            final(self).wf(),
            outcome == if old(self).rows() == usize::MAX {
                InsertOutcome::Full
            } else if has_key(old(self).projects@, row.id@) {
                InsertOutcome::Duplicate
            } else {
                InsertOutcome::Inserted
            },
            outcome == InsertOutcome::Inserted ==> *final(self) == (Store {
                projects: final(self).projects,
                ..*old(self)
            }) && final(self).projects@ == old(self).projects@.push(row),
            outcome != InsertOutcome::Inserted ==> *final(self) == *old(self),
    {
        if self.count_rows() == usize::MAX {
            InsertOutcome::Full
        } else if insert_row(&mut self.projects, row) {
            InsertOutcome::Inserted
        } else {
            InsertOutcome::Duplicate
        }
    }

    /// Adds a task, unless its identity is taken or the store is full.
    pub fn insert_task(&mut self, row: Task) -> (outcome: InsertOutcome)
        requires
            old(self).wf(),
        ensures
            final(self).wf(),
            outcome == if old(self).rows() == usize::MAX {
                InsertOutcome::Full
            } else if has_key(old(self).tasks@, row.id@) {
                InsertOutcome::Duplicate
            } else {
                InsertOutcome::Inserted
            },
            outcome == InsertOutcome::Inserted ==> *final(self) == (Store {
                tasks: final(self).tasks,
                ..*old(self)
            }) && final(self).tasks@ == old(self).tasks@.push(row),
            outcome != InsertOutcome::Inserted ==> *final(self) == *old(self),
    {
        if self.count_rows() == usize::MAX {
            InsertOutcome::Full
        } else if insert_row(&mut self.tasks, row) {
            InsertOutcome::Inserted
        } else {
            InsertOutcome::Duplicate
        }
    }

    /// Adds a note, unless its identity is taken or the store is full.
    pub fn insert_note(&mut self, row: Note) -> (outcome: InsertOutcome)
        requires
            old(self).wf(),
        ensures
            final(self).wf(),
            outcome == if old(self).rows() == usize::MAX {
                InsertOutcome::Full
            } else if has_key(old(self).notes@, row.id@) {
                InsertOutcome::Duplicate
            } else {
                InsertOutcome::Inserted
            },
            outcome == InsertOutcome::Inserted ==> *final(self) == (Store {
                notes: final(self).notes,
                ..*old(self)
            }) && final(self).notes@ == old(self).notes@.push(row),
            outcome != InsertOutcome::Inserted ==> *final(self) == *old(self),
    {
        if self.count_rows() == usize::MAX {
            InsertOutcome::Full
        } else if insert_row(&mut self.notes, row) {
            InsertOutcome::Inserted
        } else {
            InsertOutcome::Duplicate
        }
    }

    /// Adds `task` and, under it, `subtasks`, all of them or none: nothing is
    /// added where the store has no room for them or an identity among them
    /// is taken or occurs twice.
    #[verifier::loop_isolation(false)]
    pub fn insert_task_family(&mut self, task: &Task, subtasks: &Vec<Task>) -> (outcome: InsertOutcome)
        requires
            old(self).wf(),
        ensures
            final(self).wf(),
            outcome == if old(self).rows() + 1 + subtasks@.len() > usize::MAX {
                InsertOutcome::Full
            } else if !fresh_family(old(self).tasks@, *task, subtasks@) {
                InsertOutcome::Duplicate
            } else {
                InsertOutcome::Inserted
            },
            outcome == InsertOutcome::Inserted ==> *final(self) == (Store {
                tasks: final(self).tasks,
                ..*old(self)
            }) && final(self).tasks@ == old(self).tasks@ + stored_family(*task, subtasks@),
            outcome != InsertOutcome::Inserted ==> *final(self) == *old(self),
    {
        let room: usize = usize::MAX - self.count_rows();
        if room == 0 || subtasks.len() > room - 1 {
            return InsertOutcome::Full;
        }
        if position_of(&self.tasks, task.id.as_str()).is_some() {
            return InsertOutcome::Duplicate;
        }
        let mut j: usize = 0;
        while j < subtasks.len()
            invariant
                j <= subtasks.len(),
                *self == *old(self),
                forall|i: int| 0 <= i < j ==> !has_key(self.tasks@, #[trigger] subtasks@[i].id@),
                forall|i: int| 0 <= i < j ==> #[trigger] subtasks@[i].id@ != task.id@,
                forall|a: int, b: int| 0 <= a < b < j ==> subtasks@[a].id@ != subtasks@[b].id@,
            decreases subtasks.len() - j,
        {
            if position_of(&self.tasks, subtasks[j].id.as_str()).is_some() {
                return InsertOutcome::Duplicate;
            }
            if str_eq(subtasks[j].id.as_str(), task.id.as_str()) {
                return InsertOutcome::Duplicate;
            }
            let mut k: usize = 0;
            while k < j
                invariant
                    k <= j < subtasks.len(),
                    *self == *old(self),
                    forall|a: int| 0 <= a < k ==> subtasks@[a].id@ != subtasks@[j as int].id@,
                decreases j - k,
            {
                if str_eq(subtasks[k].id.as_str(), subtasks[j].id.as_str()) {
                    return InsertOutcome::Duplicate;
                }
                k += 1;
            }
            j += 1;
        }
        let ghost family = stored_family(*task, subtasks@);
        let mut main = task.clone();
        main.completed_at = None;
        main.archived_at = None;
        self.tasks.push(main);
        assert(self.tasks@ =~= old(self).tasks@ + family.take(1));
        let mut j: usize = 0;
        while j < subtasks.len()
            invariant
                j <= subtasks.len(),
                *self == (Store { tasks: self.tasks, ..*old(self) }),
                family == stored_family(*task, subtasks@),
                self.tasks@ == old(self).tasks@ + family.take(j + 1),
            decreases subtasks.len() - j,
        {
            let mut sub = subtasks[j].clone();
            sub.parent_task_id = Some(task.id.clone());
            sub.completed_at = None;
            sub.archived_at = None;
            self.tasks.push(sub);
            assert(family[j + 1] == stored_subtask(subtasks@[j as int], task.id));
            assert(self.tasks@ =~= old(self).tasks@ + family.take(j + 2));
            j += 1;
        }
        assert(family.take(subtasks.len() + 1) =~= family);
        assert(unique_keys(self.tasks@)) by {
            assert forall|a: int, b: int| 0 <= a < b < self.tasks@.len() implies self.tasks@[a].key()
                != self.tasks@[b].key() by {
                let n = old(self).tasks@.len() as int;
                if b >= n {
                    let kb = b - n;
                    if kb > 0 {
                        assert(self.tasks@[b].key() == subtasks@[kb - 1].id@);
                    } else {
                        assert(self.tasks@[b].key() == task.id@);
                    }
                    if a >= n {
                        let ka = a - n;
                        if ka > 0 {
                            assert(self.tasks@[a].key() == subtasks@[ka - 1].id@);
                        } else {
                            assert(self.tasks@[a].key() == task.id@);
                        }
                    } else {
                        assert(self.tasks@[a] == old(self).tasks@[a]);
                    }
                }
            }
        }
        InsertOutcome::Inserted
    }

    /// Removes for good, from every table, the rows that were archived before
    /// the time `at`, and returns how many went from each table, in the order
    /// of the hierarchy. Links are not followed.
    pub fn remove_archived_before(&mut self, at: i64) -> (removed: Vec<usize>)
        requires
            old(self).wf(),
        ensures
            final(self).wf(),
            final(self).life_areas@ == fresh_rows(old(self).life_areas@, at),
            final(self).goals@ == fresh_rows(old(self).goals@, at),
            final(self).projects@ == fresh_rows(old(self).projects@, at),
            final(self).tasks@ == fresh_rows(old(self).tasks@, at),
            final(self).notes@ == fresh_rows(old(self).notes@, at),
            removed@.len() == 5,
            removed@[0] == old(self).life_areas@.len() - final(self).life_areas@.len(),
            removed@[1] == old(self).goals@.len() - final(self).goals@.len(),
            removed@[2] == old(self).projects@.len() - final(self).projects@.len(),
            removed@[3] == old(self).tasks@.len() - final(self).tasks@.len(),
            removed@[4] == old(self).notes@.len() - final(self).notes@.len(),
    {
        let mut removed: Vec<usize> = Vec::new();
        removed.push(remove_stale(&mut self.life_areas, at));
        removed.push(remove_stale(&mut self.goals, at));
        removed.push(remove_stale(&mut self.projects, at));
        removed.push(remove_stale(&mut self.tasks, at));
        removed.push(remove_stale(&mut self.notes, at));
        removed
    }

    /// A copy of the life area `id`, archived or not.
    pub fn find_life_area(&self, id: &str) -> (found: Option<LifeArea>)
        ensures
            found is Some == has_key(self.life_areas@, id@),
            found matches Some(area) ==> area.id@ == id@ && self.life_areas@.contains(area),
    {
        find_row(&self.life_areas, id)
    }

    /// Copies of the life areas that are not archived, newest first.
    pub fn live_life_areas(&self) -> (areas: Vec<LifeArea>)
        ensures
            areas@.to_multiset() == live_rows(self.life_areas@).to_multiset(),
            newest_first(areas@),
    {
        let mut areas: Vec<LifeArea> = Vec::new();
        let mut i: usize = 0;
        assert(self.life_areas@.take(0) =~= Seq::<LifeArea>::empty());
        while i < self.life_areas.len()
            invariant
                i <= self.life_areas.len(),
                areas@.to_multiset() == live_rows(self.life_areas@.take(i as int)).to_multiset(),
                newest_first(areas@),
            decreases self.life_areas.len() - i,
        {
            assert(self.life_areas@.take(i + 1).drop_last() =~= self.life_areas@.take(i as int));
            if self.life_areas[i].archived_at.is_none() {
                let row = self.life_areas[i].clone();
                let mut at: usize = 0;
                while at < areas.len() && areas[at].created_at >= row.created_at
                    invariant
                        at <= areas.len(),
                        forall|k: int| 0 <= k < at ==> areas@[k].created_at >= row.created_at,
                    decreases areas.len() - at,
                {
                    at += 1;
                }
                proof {
                    to_multiset_insert(areas@, at as int, row);
                    to_multiset_build(live_rows(self.life_areas@.take(i as int)), row);
                }
                areas.insert(at, row);
            }
            i += 1;
        }
        assert(self.life_areas@.take(self.life_areas.len() as int) =~= self.life_areas@);
        areas
    }

    /// Gives the life area `id`, if it is not archived, a new name,
    /// description, colour and icon. Returns whether such a life area was
    /// there.
    pub fn update_life_area(
        &mut self,
        id: &str,
        name: &String,
        description: &Option<String>,
        color: &Option<String>,
        icon: &Option<String>,
        now: i64,
    ) -> (done: bool)
        ensures
            done == old(self).has_live_root(EntityType::LifeArea, id@),
            *final(self) == (Store { life_areas: final(self).life_areas, ..*old(self) }),
            areas_updated(
                old(self).life_areas@,
                final(self).life_areas@,
                id@,
                *name,
                *description,
                *color,
                *icon,
                now,
            ),
            old(self).wf() ==> final(self).wf(),
    {
        let done = self.is_live(EntityType::LifeArea, id);
        let mut i: usize = 0;
        while i < self.life_areas.len()
            invariant
                i <= self.life_areas.len(),
                *self == (Store { life_areas: self.life_areas, ..*old(self) }),
                self.life_areas@.len() == old(self).life_areas@.len(),
                forall|k: int|
                    0 <= k < i ==> self.life_areas@[k] == updated_area(
                        old(self).life_areas@[k],
                        id@,
                        *name,
                        *description,
                        *color,
                        *icon,
                        now,
                    ),
                forall|k: int|
                    i <= k < self.life_areas@.len() ==> self.life_areas@[k] == old(self).life_areas@[k],
            decreases self.life_areas.len() - i,
        {
            if str_eq(self.life_areas[i].id.as_str(), id) && self.life_areas[i].archived_at.is_none() {
                self.life_areas[i].name = name.clone();
                self.life_areas[i].description = clone_opt(description);
                self.life_areas[i].color = clone_opt(color);
                self.life_areas[i].icon = clone_opt(icon);
                self.life_areas[i].updated_at = now;
            }
            i += 1;
        }
        done
    }

    /// Marks the task `id` as completed at the time `now`.
    pub fn complete_task(&mut self, id: &str, now: i64)
        ensures
            *final(self) == (Store { tasks: final(self).tasks, ..*old(self) }),
            tasks_completed(old(self).tasks@, final(self).tasks@, id@, now),
            old(self).wf() ==> final(self).wf(),
    {
        let mut i: usize = 0;
        while i < self.tasks.len()
            invariant
                i <= self.tasks.len(),
                *self == (Store { tasks: self.tasks, ..*old(self) }),
                self.tasks@.len() == old(self).tasks@.len(),
                forall|k: int|
                    0 <= k < i ==> self.tasks@[k] == completed_task(old(self).tasks@[k], id@, now),
                forall|k: int| i <= k < self.tasks@.len() ==> self.tasks@[k] == old(self).tasks@[k],
            decreases self.tasks.len() - i,
        {
            if str_eq(self.tasks[i].id.as_str(), id) {
                self.tasks[i].completed_at = Some(now);
                self.tasks[i].updated_at = now;
            }
            i += 1;
        }
    }
}

} // verus!
