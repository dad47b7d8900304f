//! What the user interface asks about projects.

use vstd::prelude::*;
use crate::commands::repository::EntityType;
use crate::db::models::Project;
use crate::db::record::Record;
use crate::db::repository::{archive_outcome, failure_of, restore_outcome, Repository};
use crate::db::rows::find_row;
use crate::db::store::{restored_row_is_there, Store};
use crate::error::{AppError, AppResult};

verus! {

/// The request to create a project.
#[derive(Debug)]
pub struct CreateProjectRequest {
    pub goal_id: String,
    pub title: String,
    pub description: Option<String>,
}

/// The request to change a project.
#[derive(Debug)]
pub struct UpdateProjectRequest {
    pub id: String,
    pub goal_id: String,
    pub title: String,
    pub description: Option<String>,
}

/// Archives the project `id` with its tasks and the notes attached to any of
/// them.
pub fn delete_project(repo: &mut Repository, id: String) -> (r: AppResult<()>)
    ensures
        old(repo).wf() ==> final(repo).wf(),
        archive_outcome(old(repo).state(), final(repo).state(), EntityType::Project, id@, r),
{
    repo.archive_cascade(EntityType::Project, id.as_str())
}

/// Takes the archive stamp from the project `id`, and from nothing under it,
/// and reads the project back.
pub fn restore_project(repo: &mut Repository, id: String) -> (r: AppResult<Project>)
    ensures
        old(repo).wf() ==> final(repo).wf(),
        restore_outcome(
            old(repo).state(),
            final(repo).state(),
            EntityType::Project,
            id@,
            r is Ok,
            failure_of(r),
        ),
        r matches Ok(project) ==> project.id@ == id@ && final(repo).state().projects@.contains(project),
{
    match repo.restore(EntityType::Project, id.as_str()) {
        Ok(()) => {
            proof {
                let now = choose|now: i64|
                    Store::restored(old(repo).state(), repo.state(), EntityType::Project, id@, now);
                restored_row_is_there(old(repo).state(), repo.state(), EntityType::Project, id@, now);
            }
            match find_row(&repo.store().projects, id.as_str()) {
                Some(project) => Ok(project),
                None => Err(AppError::not_found("Archived project", id.as_str())),
            }
        },
        Err(e) => Err(e),
    }
}

} // verus!
