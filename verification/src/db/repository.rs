//! The repository: the operations of the backend on the hierarchy. Each
//! works on the store in memory and reports failure as an [`AppError`].
//!
//! An operation that stamps rows reads the clock once and uses that one time
//! for every row it touches.

use vstd::prelude::*;
use vstd::string::StringExecFns;
use crate::clock::now_micros;
use crate::commands::repository::EntityType;
use crate::db::models::{LifeArea, Task};
use crate::db::record::Record;
use crate::db::rows::{
    areas_updated, fresh_family, fresh_rows, live_rows, newest_first, stored_family, tasks_completed, InsertOutcome,
};
use crate::db::store::{has_key, DeleteOutcome, Store};
use crate::error::{not_found_message, AppError, AppResult, ErrorCode};
use crate::ids::random_uuid;
use crate::text::{decimal, push_decimal};

verus! {

/// The repository: the store and the operations on it.
pub struct Repository {
    store: Store,
}

/// The name under which errors speak of a table's records.
pub open spec fn entity_name(kind: EntityType) -> Seq<char> {
    match kind {
        EntityType::LifeArea => "Life area"@,
        EntityType::Goal => "Goal"@,
        EntityType::Project => "Project"@,
        EntityType::Task => "Task"@,
        EntityType::Note => "Note"@,
    }
}

/// The name under which errors speak of a table's archived records.
pub open spec fn archived_entity_name(kind: EntityType) -> Seq<char> {
    match kind {
        EntityType::LifeArea => "Archived life area"@,
        EntityType::Goal => "Archived goal"@,
        EntityType::Project => "Archived project"@,
        EntityType::Task => "Archived task"@,
        EntityType::Note => "Archived note"@,
    }
}

/// The message of the conflict that blocks a physical deletion: it names the
/// record and the number of records that hang under it.
pub open spec fn blocked_message(kind: EntityType, id: Seq<char>, dependents: nat) -> Seq<char> {
    entity_name(kind) + " with id '"@ + id + "' cannot be deleted: "@ + decimal(dependents)
        + " dependent record(s) exist"@
}

/// What a cascade from the record `id` of table `kind` leaves: where the
/// root was there and not archived, the store with the subtree archived at
/// one time; where it was not, the store as it was and the error that says
/// so.
pub open spec fn archive_outcome(
    before: Store,
    after: Store,
    kind: EntityType,
    id: Seq<char>,
    r: AppResult<()>,
) -> bool {
    &&& r is Ok == before.has_live_root(kind, id)
    &&& r is Ok ==> exists|now: i64| Store::cascaded(before, after, kind, id, now)
    &&& r matches Err(e) ==> {
        &&& after == before
        &&& e.is(ErrorCode::NotFound, not_found_message(entity_name(kind), id), None)
    }
}

/// What a restore of the record `id` of table `kind` leaves: where the
/// record was there and archived, the store with that record, and no other,
/// restored; where it was not, the store as it was and the error that says
/// so.
pub open spec fn restore_outcome(
    before: Store,
    after: Store,
    kind: EntityType,
    id: Seq<char>,
    ok: bool,
    failure: Option<AppError>,
) -> bool {
    &&& ok == before.has_archived_root(kind, id)
    &&& ok ==> exists|now: i64| Store::restored(before, after, kind, id, now)
    &&& failure matches Some(e) ==> {
        &&& after == before
        &&& e.is(ErrorCode::NotFound, not_found_message(archived_entity_name(kind), id), None)
    }
}

/// The failure that a result holds, if it holds one.
pub open spec fn failure_of<T>(r: AppResult<T>) -> Option<AppError> {
    match r {
        Ok(_) => None,
        Err(e) => Some(e),
    }
}

/// The error for a row whose identity is taken.
pub open spec fn is_duplicate_error(e: AppError) -> bool {
    e.is(ErrorCode::AlreadyExists, "Resource already exists"@, None)
}

/// The error for a store that has no room.
pub open spec fn is_full_error(e: AppError) -> bool {
    e.is(ErrorCode::InternalError, "Storage is full"@, None)
}

/// The name under which errors speak of a table's records.
pub fn name_of(kind: EntityType) -> (name: &'static str)
    ensures
        name@ == entity_name(kind),
{
    match kind {
        EntityType::LifeArea => "Life area",
        EntityType::Goal => "Goal",
        EntityType::Project => "Project",
        EntityType::Task => "Task",
        EntityType::Note => "Note",
    }
}

/// The name under which errors speak of a table's archived records.
pub fn archived_name_of(kind: EntityType) -> (name: &'static str)
    ensures
        name@ == archived_entity_name(kind),
{
    match kind {
        EntityType::LifeArea => "Archived life area",
        EntityType::Goal => "Archived goal",
        EntityType::Project => "Archived project",
        EntityType::Task => "Archived task",
        EntityType::Note => "Archived note",
    }
}

/// The conflict that blocks the physical deletion of the record `id` of
/// table `kind` while `dependents` records hang under it.
pub fn blocked_error(kind: EntityType, id: &str, dependents: usize) -> (e: AppError)
    ensures
        e.is(ErrorCode::CannotDelete, blocked_message(kind, id@, dependents as nat), None),
{
    let mut m = name_of(kind).to_owned();
    m.append(" with id '");
    m.append(id);
    m.append("' cannot be deleted: ");
    push_decimal(&mut m, dependents as u64);
    m.append(" dependent record(s) exist");
    AppError { code: ErrorCode::CannotDelete, message: m, details: None }
}

/// The error that reports why a row was not added.
fn insert_error(outcome: InsertOutcome) -> (e: AppError)
    requires
        outcome != InsertOutcome::Inserted,
    ensures
        outcome == InsertOutcome::Duplicate ==> is_duplicate_error(e),
        outcome == InsertOutcome::Full ==> is_full_error(e),
{
    match outcome {
        InsertOutcome::Full => AppError::new(ErrorCode::InternalError, "Storage is full"),
        _ => AppError::new(ErrorCode::AlreadyExists, "Resource already exists"),
    }
}

impl Repository {
    /// The store that the repository works on.
    pub closed spec fn state(&self) -> Store {
        self.store
    }

    /// Whether the store is well formed.
    pub open spec fn wf(&self) -> bool {
        self.state().wf()
    }

    /// The repository on `store`.
    pub fn new(store: Store) -> (r: Self)
        requires
            store.wf(),
        ensures
            r.state() == store,
            r.wf(),
    {
        Repository { store }
    }

    /// The store as it stands.
    pub fn store(&self) -> (s: &Store)
        ensures
            *s == self.state(),
    {
        &self.store
    }

    /// Gives the store back.
    pub fn into_store(self) -> (s: Store)
        ensures
            s == self.state(),
    {
        self.store
    }

    /// Adds the life area `id`, created at the time `now`.
    pub fn create_life_area_with(
        &mut self,
        id: String,
        now: i64,
        name: String,
        description: Option<String>,
        color: Option<String>,
        icon: Option<String>,
    ) -> (r: AppResult<LifeArea>)
        requires
            old(self).wf(),
        ensures
            final(self).wf(),
            r is Ok == (old(self).state().rows() < usize::MAX && !has_key(
                old(self).state().life_areas@,
                id@,
            )),
            r matches Ok(area) ==> {
                &&& area == (LifeArea {
                    id,
                    name,
                    description,
                    color,
                    icon,
                    created_at: now,
                    updated_at: now,
                    archived_at: None,
                })
                &&& final(self).state() == (Store {
                    life_areas: final(self).state().life_areas,
                    ..old(self).state()
                })
                &&& final(self).state().life_areas@ == old(self).state().life_areas@.push(area)
            },
            r matches Err(e) ==> {
                &&& final(self).state() == old(self).state()
                &&& if old(self).state().rows() == usize::MAX {
                    is_full_error(e)
                } else {
                    is_duplicate_error(e)
                }
            },
    {
        let area = LifeArea {
            id,
            name,
            description,
            color,
            icon,
            created_at: now,
            updated_at: now,
            archived_at: None,
        };
        let outcome = self.store.insert_life_area(area.clone());
        match outcome {
            InsertOutcome::Inserted => Ok(area),
            _ => Err(insert_error(outcome)),
        }
    }

    /// Adds a new life area with a random identity, created now.
    pub fn create_life_area(
        &mut self,
        name: String,
        description: Option<String>,
        color: Option<String>,
        icon: Option<String>,
    ) -> (r: AppResult<LifeArea>)
        requires
            old(self).wf(),
        ensures
            final(self).wf(),
            old(self).state().rows() == usize::MAX ==> r is Err,
            r matches Ok(area) ==> {
                &&& area == (LifeArea {
                    id: area.id,
                    name,
                    description,
                    color,
                    icon,
                    created_at: area.created_at,
                    updated_at: area.created_at,
                    archived_at: None,
                })
                &&& !has_key(old(self).state().life_areas@, area.id@)
                &&& final(self).state() == (Store {
                    life_areas: final(self).state().life_areas,
                    ..old(self).state()
                })
                &&& final(self).state().life_areas@ == old(self).state().life_areas@.push(area)
            },
            r matches Err(e) ==> {
                &&& final(self).state() == old(self).state()
                &&& if old(self).state().rows() == usize::MAX {
                    is_full_error(e)
                } else {
                    is_duplicate_error(e)
                }
            },
    {
        let id = random_uuid();
        let now = now_micros();
        self.create_life_area_with(id, now, name, description, color, icon)
    }

    /// The life areas that are not archived, newest first.
    pub fn get_life_areas(&self) -> (r: AppResult<Vec<LifeArea>>)
        ensures
            r matches Ok(areas) && areas@.to_multiset() == live_rows(
                self.state().life_areas@,
            ).to_multiset() && newest_first(areas@),
    {
        Ok(self.store.live_life_areas())
    }

    /// The life area `id`, archived or not.
    pub fn get_life_area(&self, id: &str) -> (r: AppResult<LifeArea>)
        ensures
            r is Ok == has_key(self.state().life_areas@, id@),
            r matches Ok(area) ==> area.id@ == id@ && self.state().life_areas@.contains(area),
            r matches Err(e) ==> e.is(
                ErrorCode::NotFound,
                not_found_message("Life area"@, id@),
                None,
            ),
    {
        match self.store.find_life_area(id) {
            Some(area) => Ok(area),
            None => Err(AppError::not_found("Life area", id)),
        }
    }

    /// Gives the life area `id` a new name, description, colour and icon at
    /// the time `now`, if it is not archived, and then reads it back.
    pub fn update_life_area_at(
        &mut self,
        id: &str,
        name: String,
        description: Option<String>,
        color: Option<String>,
        icon: Option<String>,
        now: i64,
    ) -> (r: AppResult<LifeArea>)
        requires
            old(self).wf(),
        ensures
            final(self).wf(),
            final(self).state() == (Store {
                life_areas: final(self).state().life_areas,
                ..old(self).state()
            }),
            areas_updated(
                old(self).state().life_areas@,
                final(self).state().life_areas@,
                id@,
                name,
                description,
                color,
                icon,
                now,
            ),
            r is Ok == has_key(old(self).state().life_areas@, id@),
            r matches Ok(area) ==> area.id@ == id@ && final(self).state().life_areas@.contains(area),
            r matches Err(e) ==> e.is(
                ErrorCode::NotFound,
                not_found_message("Life area"@, id@),
                None,
            ),
    {
        self.store.update_life_area(id, &name, &description, &color, &icon, now);
        proof {
            let before = old(self).state().life_areas@;
            let after = self.store.life_areas@;
            assert forall|i: int| 0 <= i < before.len() implies #[trigger] after[i].key()
                == before[i].key() by {}
            if has_key(before, id@) {
                let i = choose|i: int| 0 <= i < before.len() && #[trigger] before[i].key() == id@;
                assert(after[i].key() == id@);
            }
            if has_key(after, id@) {
                let i = choose|i: int| 0 <= i < after.len() && #[trigger] after[i].key() == id@;
                assert(before[i].key() == id@);
            }
        }
        self.get_life_area(id)
    }

    /// Gives the life area `id` a new name, description, colour and icon, if
    /// it is not archived, and then reads it back.
    pub fn update_life_area(
        &mut self,
        id: &str,
        name: String,
        description: Option<String>,
        color: Option<String>,
        icon: Option<String>,
    ) -> (r: AppResult<LifeArea>)
        requires
            old(self).wf(),
        ensures
            final(self).wf(),
            final(self).state() == (Store {
                life_areas: final(self).state().life_areas,
                ..old(self).state()
            }),
            exists|now: i64|
                areas_updated(
                    old(self).state().life_areas@,
                    final(self).state().life_areas@,
                    id@,
                    name,
                    description,
                    color,
                    icon,
                    now,
                ),
            r is Ok == has_key(old(self).state().life_areas@, id@),
            r matches Ok(area) ==> area.id@ == id@ && final(self).state().life_areas@.contains(area),
            r matches Err(e) ==> e.is(
                ErrorCode::NotFound,
                not_found_message("Life area"@, id@),
                None,
            ),
    {
        let now = now_micros();
        self.update_life_area_at(id, name, description, color, icon, now)
    }

    /// Archives the record `id` of table `kind` and everything that hangs
    /// under it with the one stamp `now`. A root that is missing or archived
    /// already is not found, and nothing changes.
    pub fn archive_cascade_at(&mut self, kind: EntityType, id: &str, now: i64) -> (r: AppResult<()>)
        ensures
            r is Ok == old(self).state().has_live_root(kind, id@),
            r is Ok ==> Store::cascaded(old(self).state(), final(self).state(), kind, id@, now),
            r matches Err(e) ==> {
                &&& final(self).state() == old(self).state()
                &&& e.is(ErrorCode::NotFound, not_found_message(entity_name(kind), id@), None)
            },
            old(self).wf() ==> final(self).wf(),
    {
        if self.store.archive_cascade(kind, id, now) {
            Ok(())
        } else {
            Err(AppError::not_found(name_of(kind), id))
        }
    }

    /// Archives the record `id` of table `kind` and everything that hangs
    /// under it, all with the time of the call.
    pub fn archive_cascade(&mut self, kind: EntityType, id: &str) -> (r: AppResult<()>)
        ensures
            archive_outcome(old(self).state(), final(self).state(), kind, id@, r),
            r is Ok == old(self).state().has_live_root(kind, id@),
            r is Ok ==> exists|now: i64|
                Store::cascaded(old(self).state(), final(self).state(), kind, id@, now),
            r matches Err(e) ==> {
                &&& final(self).state() == old(self).state()
                &&& e.is(ErrorCode::NotFound, not_found_message(entity_name(kind), id@), None)
            },
            old(self).wf() ==> final(self).wf(),
    {
        let now = now_micros();
        self.archive_cascade_at(kind, id, now)
    }

    /// Archives a life area with its goals, their projects, the tasks of
    /// these and the notes attached to any of them.
    pub fn delete_life_area(&mut self, id: &str) -> (r: AppResult<()>)
        ensures
            r is Ok == old(self).state().has_live_root(EntityType::LifeArea, id@),
            r is Ok ==> exists|now: i64|
                Store::cascaded(old(self).state(), final(self).state(), EntityType::LifeArea, id@, now),
            r matches Err(e) ==> {
                &&& final(self).state() == old(self).state()
                &&& e.is(ErrorCode::NotFound, not_found_message("Life area"@, id@), None)
            },
            old(self).wf() ==> final(self).wf(),
    {
        self.archive_cascade(EntityType::LifeArea, id)
    }

    /// Archives a goal with its projects, their tasks and the notes attached
    /// to any of them.
    pub fn archive_goal_cascade(&mut self, goal_id: &str) -> (r: AppResult<()>)
        ensures
            r is Ok == old(self).state().has_live_root(EntityType::Goal, goal_id@),
            r is Ok ==> exists|now: i64|
                Store::cascaded(old(self).state(), final(self).state(), EntityType::Goal, goal_id@, now),
            r matches Err(e) ==> {
                &&& final(self).state() == old(self).state()
                &&& e.is(ErrorCode::NotFound, not_found_message("Goal"@, goal_id@), None)
            },
            old(self).wf() ==> final(self).wf(),
    {
        self.archive_cascade(EntityType::Goal, goal_id)
    }

    /// Archives a project with its tasks and the notes attached to any of
    /// them.
    pub fn archive_project_cascade(&mut self, project_id: &str) -> (r: AppResult<()>)
        ensures
            r is Ok == old(self).state().has_live_root(EntityType::Project, project_id@),
            r is Ok ==> exists|now: i64|
                Store::cascaded(
                    old(self).state(),
                    final(self).state(),
                    EntityType::Project,
                    project_id@,
                    now,
                ),
            r matches Err(e) ==> {
                &&& final(self).state() == old(self).state()
                &&& e.is(ErrorCode::NotFound, not_found_message("Project"@, project_id@), None)
            },
            old(self).wf() ==> final(self).wf(),
    {
        self.archive_cascade(EntityType::Project, project_id)
    }

    /// Archives a task with the tasks under it and the notes attached to any
    /// of them.
    pub fn archive_task_cascade(&mut self, task_id: &str) -> (r: AppResult<()>)
        ensures
            r is Ok == old(self).state().has_live_root(EntityType::Task, task_id@),
            r is Ok ==> exists|now: i64|
                Store::cascaded(old(self).state(), final(self).state(), EntityType::Task, task_id@, now),
            r matches Err(e) ==> {
                &&& final(self).state() == old(self).state()
                &&& e.is(ErrorCode::NotFound, not_found_message("Task"@, task_id@), None)
            },
            old(self).wf() ==> final(self).wf(),
    {
        self.archive_cascade(EntityType::Task, task_id)
    }

    /// Archives a note.
    pub fn archive_note(&mut self, note_id: &str) -> (r: AppResult<()>)
        ensures
            r is Ok == old(self).state().has_live_root(EntityType::Note, note_id@),
            r is Ok ==> exists|now: i64|
                Store::cascaded(old(self).state(), final(self).state(), EntityType::Note, note_id@, now),
            r matches Err(e) ==> {
                &&& final(self).state() == old(self).state()
                &&& e.is(ErrorCode::NotFound, not_found_message("Note"@, note_id@), None)
            },
            old(self).wf() ==> final(self).wf(),
    {
        self.archive_cascade(EntityType::Note, note_id)
    }

    /// Takes the archive stamp from the record `id` of table `kind` at the
    /// time `now`, and from no other record: what hangs under it stays
    /// archived. A record that is missing or not archived is not found.
    pub fn restore_at(&mut self, kind: EntityType, id: &str, now: i64) -> (r: AppResult<()>)
        ensures
            r is Ok == old(self).state().has_archived_root(kind, id@),
            r is Ok ==> Store::restored(old(self).state(), final(self).state(), kind, id@, now),
            r matches Err(e) ==> {
                &&& final(self).state() == old(self).state()
                &&& e.is(ErrorCode::NotFound, not_found_message(archived_entity_name(kind), id@), None)
            },
            old(self).wf() ==> final(self).wf(),
    {
        if self.store.restore(kind, id, now) {
            Ok(())
        } else {
            Err(AppError::not_found(archived_name_of(kind), id))
        }
    }

    /// Takes the archive stamp from the record `id` of table `kind`, and from
    /// no other record.
    pub fn restore(&mut self, kind: EntityType, id: &str) -> (r: AppResult<()>)
        ensures
            restore_outcome(old(self).state(), final(self).state(), kind, id@, r is Ok, failure_of(r)),
            r is Ok == old(self).state().has_archived_root(kind, id@),
            r is Ok ==> exists|now: i64|
                Store::restored(old(self).state(), final(self).state(), kind, id@, now),
            r matches Err(e) ==> {
                &&& final(self).state() == old(self).state()
                &&& e.is(ErrorCode::NotFound, not_found_message(archived_entity_name(kind), id@), None)
            },
            old(self).wf() ==> final(self).wf(),
    {
        let now = now_micros();
        self.restore_at(kind, id, now)
    }

    /// Takes the archive stamp from the life area `id`, and from nothing
    /// under it, and reads the life area back.
    pub fn restore_life_area(&mut self, id: &str) -> (r: AppResult<LifeArea>)
        ensures
            r is Ok == old(self).state().has_archived_root(EntityType::LifeArea, id@),
            r is Ok ==> exists|now: i64|
                Store::restored(old(self).state(), final(self).state(), EntityType::LifeArea, id@, now),
            r matches Ok(area) ==> area.id@ == id@ && final(self).state().life_areas@.contains(area),
            r matches Err(e) ==> {
                &&& final(self).state() == old(self).state()
                &&& e.is(ErrorCode::NotFound, not_found_message("Archived life area"@, id@), None)
            },
            old(self).wf() ==> final(self).wf(),
    {
        match self.restore(EntityType::LifeArea, id) {
            Ok(()) => {
                proof {
                    let now = choose|now: i64|
                        Store::restored(
                            old(self).state(),
                            self.state(),
                            EntityType::LifeArea,
                            id@,
                            now,
                        );
                    let before = old(self).state().life_areas@;
                    let i = choose|i: int|
                        0 <= i < before.len() && #[trigger] before[i].key() == id@
                            && before[i].archived() is Some;
                    before[i].stamped_keeps_shape(None, now);
                    assert(self.state().life_areas@[i].id@ == id@);
                }
                self.get_life_area(id)
            },
            Err(e) => Err(e),
        }
    }

    /// Adds `task` and, under it, `subtasks`, all of them or none, and
    /// returns the identity of `task`.
    pub fn create_task_with_subtasks(&mut self, task: Task, subtasks: Vec<Task>) -> (r: AppResult<String>)
        requires
            old(self).wf(),
        ensures
            final(self).wf(),
            r is Ok == (old(self).state().rows() + 1 + subtasks@.len() <= usize::MAX && fresh_family(
                old(self).state().tasks@,
                task,
                subtasks@,
            )),
            r matches Ok(id) ==> {
                &&& id@ == task.id@
                &&& final(self).state() == (Store { tasks: final(self).state().tasks, ..old(self).state() })
                &&& final(self).state().tasks@ == old(self).state().tasks@ + stored_family(
                    task,
                    subtasks@,
                )
            },
            r matches Err(e) ==> {
                &&& final(self).state() == old(self).state()
                &&& if old(self).state().rows() + 1 + subtasks@.len() > usize::MAX {
                    is_full_error(e)
                } else {
                    is_duplicate_error(e)
                }
            },
    {
        let outcome = self.store.insert_task_family(&task, &subtasks);
        match outcome {
            InsertOutcome::Inserted => Ok(task.id),
            _ => Err(insert_error(outcome)),
        }
    }

    /// Marks the task `task_id` as completed at the time `now`. Where there
    /// is no such task, nothing changes.
    pub fn complete_task_at(&mut self, task_id: &str, now: i64) -> (r: AppResult<()>)
        ensures
            r is Ok,
            final(self).state() == (Store { tasks: final(self).state().tasks, ..old(self).state() }),
            tasks_completed(old(self).state().tasks@, final(self).state().tasks@, task_id@, now),
            old(self).wf() ==> final(self).wf(),
    {
        self.store.complete_task(task_id, now);
        Ok(())
    }

    /// Marks the task `task_id` as completed at the time of the call.
    pub fn complete_task(&mut self, task_id: &str) -> (r: AppResult<()>)
        ensures
            r is Ok,
            final(self).state() == (Store { tasks: final(self).state().tasks, ..old(self).state() }),
            exists|now: i64|
                tasks_completed(old(self).state().tasks@, final(self).state().tasks@, task_id@, now),
            old(self).wf() ==> final(self).wf(),
    {
        let now = now_micros();
        self.complete_task_at(task_id, now)
    }

    /// Removes for good, from every table, the records that were archived
    /// before the time `at`, and returns how many went from each table, in
    /// the order of the hierarchy. Links are not followed.
    pub fn remove_archived_before(&mut self, at: i64) -> (removed: Vec<usize>)
        requires
            old(self).wf(),
        ensures
            final(self).wf(),
            final(self).state().life_areas@ == fresh_rows(old(self).state().life_areas@, at),
            final(self).state().goals@ == fresh_rows(old(self).state().goals@, at),
            final(self).state().projects@ == fresh_rows(old(self).state().projects@, at),
            final(self).state().tasks@ == fresh_rows(old(self).state().tasks@, at),
            final(self).state().notes@ == fresh_rows(old(self).state().notes@, at),
            removed@.len() == 5,
            removed@[0] == old(self).state().life_areas@.len() - final(self).state().life_areas@.len(),
            removed@[1] == old(self).state().goals@.len() - final(self).state().goals@.len(),
            removed@[2] == old(self).state().projects@.len() - final(self).state().projects@.len(),
            removed@[3] == old(self).state().tasks@.len() - final(self).state().tasks@.len(),
            removed@[4] == old(self).state().notes@.len() - final(self).state().notes@.len(),
    {
        self.store.remove_archived_before(at)
    }

    /// Removes the record `id` of table `kind` for good, unless records hang
    /// under it: then it fails with a conflict that reports how many, and
    /// nothing is deleted.
    pub fn hard_delete(&mut self, kind: EntityType, id: &str) -> (r: AppResult<()>)
        requires
            old(self).wf(),
        ensures
            final(self).wf(),
            r is Ok == (old(self).state().has_row(kind, id@) && old(self).state().dependents(kind, id@)
                == 0),
            r is Ok ==> Store::deleted(old(self).state(), final(self).state(), kind, id@),
            r matches Err(e) ==> {
                &&& final(self).state() == old(self).state()
                &&& if !old(self).state().has_row(kind, id@) {
                    e.is(ErrorCode::NotFound, not_found_message(entity_name(kind), id@), None)
                } else {
                    e.is(
                        ErrorCode::CannotDelete,
                        blocked_message(kind, id@, old(self).state().dependents(kind, id@)),
                        None,
                    )
                }
            },
    {
        match self.store.hard_delete(kind, id) {
            DeleteOutcome::Deleted => Ok(()),
            DeleteOutcome::NotFound => Err(AppError::not_found(name_of(kind), id)),
            DeleteOutcome::Blocked(n) => Err(blocked_error(kind, id, n)),
        }
    }
}

} // verus!
