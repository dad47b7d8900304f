//! What the user interface asks about tasks.

use vstd::prelude::*;
use crate::clock::{now_micros, MICROS_PER_DAY};
use crate::commands::repository::EntityType;
use crate::db::models::{Task, TaskPriority};
use crate::db::record::Record;
use crate::db::repository::{
    archive_outcome, failure_of, is_duplicate_error, is_full_error, restore_outcome, Repository,
};
use crate::db::rows::{find_row, fresh_family, stored_family, tasks_completed};
use crate::db::store::{restored_row_is_there, Store};
use crate::error::{AppError, AppResult};
use crate::ids::random_uuid;
use crate::text::clone_opt;

verus! {

/// The request to create a task.
#[derive(Debug)]
pub struct CreateTaskRequest {
    pub project_id: Option<String>,
    pub parent_task_id: Option<String>,
    pub title: String,
    pub description: Option<String>,
    pub priority: Option<TaskPriority>,
    pub due_date: Option<i64>,
}

/// The request to create a task with tasks under it.
#[derive(Debug)]
pub struct CreateTaskWithSubtasksRequest {
    pub task: CreateTaskRequest,
    pub subtasks: Vec<CreateTaskRequest>,
}

/// The request to change a task.
#[derive(Debug)]
pub struct UpdateTaskRequest {
    pub id: String,
    pub project_id: Option<String>,
    pub parent_task_id: Option<String>,
    pub title: String,
    pub description: Option<String>,
    pub priority: TaskPriority,
    pub due_date: Option<i64>,
}

/// The priority that a request asks for: medium where it names none.
pub open spec fn priority_or_default(priority: Option<TaskPriority>) -> TaskPriority {
    match priority {
        Some(p) => p,
        None => TaskPriority::Medium,
    }
}

/// The task that `request` describes, with the identity `id`, created at
/// `now`.
pub open spec fn requested_task(request: CreateTaskRequest, id: String, now: i64) -> Task {
    Task {
        id,
        project_id: request.project_id,
        parent_task_id: request.parent_task_id,
        title: request.title,
        description: request.description,
        priority: priority_or_default(request.priority),
        due_date: request.due_date,
        created_at: now,
        updated_at: now,
        completed_at: None,
        archived_at: None,
    }
}

/// The task that `request` describes as a task under `main`: it is in the
/// project that the request names or, where it names none, in that of
/// `main`.
pub open spec fn requested_subtask(request: CreateTaskRequest, id: String, now: i64, main: Task) -> Task {
    Task {
        id,
        project_id: if request.project_id is Some {
            request.project_id
        } else {
            main.project_id
        },
        parent_task_id: Some(main.id),
        title: request.title,
        description: request.description,
        priority: priority_or_default(request.priority),
        due_date: request.due_date,
        created_at: now,
        updated_at: now,
        completed_at: None,
        archived_at: None,
    }
}

/// The task that `request` describes, with the identity `id`, created at
/// `now`.
pub fn task_from_request(request: &CreateTaskRequest, id: String, now: i64) -> (task: Task)
    ensures
        task == requested_task(*request, id, now),
{
    Task {
        id,
        project_id: clone_opt(&request.project_id),
        parent_task_id: clone_opt(&request.parent_task_id),
        title: request.title.clone(),
        description: clone_opt(&request.description),
        priority: match request.priority {
            Some(p) => p,
            None => TaskPriority::Medium,
        },
        due_date: request.due_date,
        created_at: now,
        updated_at: now,
        completed_at: None,
        archived_at: None,
    }
}

/// The task that `request` describes as a task under `main`.
pub fn subtask_from_request(request: &CreateTaskRequest, id: String, now: i64, main: &Task) -> (task: Task)
    ensures
        task == requested_subtask(*request, id, now, *main),
{
    Task {
        id,
        project_id: if request.project_id.is_some() {
            clone_opt(&request.project_id)
        } else {
            clone_opt(&main.project_id)
        },
        parent_task_id: Some(main.id.clone()),
        title: request.title.clone(),
        description: clone_opt(&request.description),
        priority: match request.priority {
            Some(p) => p,
            None => TaskPriority::Medium,
        },
        due_date: request.due_date,
        created_at: now,
        updated_at: now,
        completed_at: None,
        archived_at: None,
    }
}

/// Whether `tasks` are what `requests` describe as tasks under `main`, one
/// for one, all created at `now`.
pub open spec fn are_requested_subtasks(
    tasks: Seq<Task>,
    requests: Seq<CreateTaskRequest>,
    now: i64,
    main: Task,
) -> bool {
    &&& tasks.len() == requests.len()
    &&& forall|i: int|
        0 <= i < tasks.len() ==> #[trigger] tasks[i] == requested_subtask(
            requests[i],
            tasks[i].id,
            now,
            main,
        )
}

/// Creates the task that the request describes and, under it, its subtasks,
/// all of them or none, each with a random identity and the time of the
/// call, and reads the task back.
pub fn create_task_with_subtasks(repo: &mut Repository, request: CreateTaskWithSubtasksRequest) -> (r:
    AppResult<Task>)
    requires
        old(repo).wf(),
    ensures
        final(repo).wf(),
        r matches Ok(task) ==> exists|now: i64, subtasks: Seq<Task>|
            {
                &&& task == requested_task(request.task, task.id, now)
                &&& #[trigger] are_requested_subtasks(subtasks, request.subtasks@, now, task)
                &&& fresh_family(old(repo).state().tasks@, task, subtasks)
                &&& final(repo).state() == (Store {
                    tasks: final(repo).state().tasks,
                    ..old(repo).state()
                })
                &&& final(repo).state().tasks@ == old(repo).state().tasks@ + stored_family(
                    task,
                    subtasks,
                )
            },
        r matches Err(e) ==> {
            &&& final(repo).state() == old(repo).state()
            &&& if old(repo).state().rows() + 1 + request.subtasks@.len() > usize::MAX {
                is_full_error(e)
            } else {
                is_duplicate_error(e)
            }
        },
{
    let now = now_micros();
    let main = task_from_request(&request.task, random_uuid(), now);
    let mut subtasks: Vec<Task> = Vec::new();
    let mut i: usize = 0;
    while i < request.subtasks.len()
        invariant
            i <= request.subtasks@.len(),
            are_requested_subtasks(subtasks@, request.subtasks@.take(i as int), now, main),
        decreases request.subtasks.len() - i,
    {
        let sub = subtask_from_request(&request.subtasks[i], random_uuid(), now, &main);
        subtasks.push(sub);
        i += 1;
    }
    assert(request.subtasks@.take(request.subtasks@.len() as int) =~= request.subtasks@);
    let copy = main.clone();
    let ghost family = subtasks@;
    match repo.create_task_with_subtasks(main, subtasks) {
        Ok(_) => {
            assert(are_requested_subtasks(family, request.subtasks@, now, copy));
            Ok(copy)
        },
        Err(e) => Err(e),
    }
}

/// Marks the task `id` as completed at the time of the call.
pub fn complete_task(repo: &mut Repository, id: String) -> (r: AppResult<()>)
    ensures
        r is Ok,
        final(repo).state() == (Store { tasks: final(repo).state().tasks, ..old(repo).state() }),
        exists|now: i64|
            tasks_completed(old(repo).state().tasks@, final(repo).state().tasks@, id@, now),
        old(repo).wf() ==> final(repo).wf(),
{
    repo.complete_task(id.as_str())
}

/// Archives the task `id` with the tasks under it and the notes attached to
/// any of them.
pub fn delete_task(repo: &mut Repository, id: String) -> (r: AppResult<()>)
    ensures
        old(repo).wf() ==> final(repo).wf(),
        archive_outcome(old(repo).state(), final(repo).state(), EntityType::Task, id@, r),
{
    repo.archive_cascade(EntityType::Task, id.as_str())
}

/// Takes the archive stamp from the task `id`, and from nothing under it,
/// and reads the task back.
pub fn restore_task(repo: &mut Repository, id: String) -> (r: AppResult<Task>)
    ensures
        old(repo).wf() ==> final(repo).wf(),
        restore_outcome(
            old(repo).state(),
            final(repo).state(),
            EntityType::Task,
            id@,
            r is Ok,
            failure_of(r),
        ),
        r matches Ok(task) ==> task.id@ == id@ && final(repo).state().tasks@.contains(task),
{
    match repo.restore(EntityType::Task, id.as_str()) {
        Ok(()) => {
            proof {
                let now = choose|now: i64|
                    Store::restored(old(repo).state(), repo.state(), EntityType::Task, id@, now);
                restored_row_is_there(old(repo).state(), repo.state(), EntityType::Task, id@, now);
            }
            match find_row(&repo.store().tasks, id.as_str()) {
                Some(task) => Ok(task),
                None => Err(AppError::not_found("Archived task", id.as_str())),
            }
        },
        Err(e) => Err(e),
    }
}

/// The first and the last moment of the day, in UTC, in which `now` lies:
/// midnight, and one second before the next midnight.
pub open spec fn day_of(now: i64) -> (int, int) {
    let start = now - now % MICROS_PER_DAY;
    (start, start + MICROS_PER_DAY - 1_000_000)
}

/// The first and the last moment of the day in which `now` lies, unless the
/// day begins before the first or ends after the last moment that can be
/// told.
pub fn todays_bounds(now: i64) -> (bounds: Option<(i64, i64)>)
    ensures
        bounds is Some == (i64::MIN <= day_of(now).0 && day_of(now).1 <= i64::MAX),
        bounds matches Some(b) ==> b.0 == day_of(now).0 && b.1 == day_of(now).1,
{
    match now.checked_rem_euclid(MICROS_PER_DAY) {
        Some(into_day) => match now.checked_sub(into_day) {
            Some(start) => match start.checked_add(MICROS_PER_DAY - 1_000_000) {
                Some(end) => Some((start, end)),
                None => None,
            },
            None => None,
        },
        None => None,
    }
}

} // verus!
