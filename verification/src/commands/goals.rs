//! What the user interface asks about goals.

use vstd::prelude::*;
use crate::commands::repository::EntityType;
use crate::db::models::Goal;
use crate::db::record::Record;
use crate::db::repository::{archive_outcome, failure_of, restore_outcome, Repository};
use crate::db::rows::find_row;
use crate::db::store::{restored_row_is_there, Store};
use crate::error::{AppError, AppResult};

verus! {

/// The request to create a goal.
#[derive(Debug)]
pub struct CreateGoalRequest {
    pub life_area_id: String,
    pub title: String,
    pub description: Option<String>,
    pub target_date: Option<i64>,
}

/// The request to change a goal.
#[derive(Debug)]
pub struct UpdateGoalRequest {
    pub id: String,
    pub life_area_id: String,
    pub title: String,
    pub description: Option<String>,
    pub target_date: Option<i64>,
}

/// Archives the goal `id` with its projects, their tasks and the notes
/// attached to any of them.
pub fn delete_goal(repo: &mut Repository, id: String) -> (r: AppResult<()>)
    ensures
        old(repo).wf() ==> final(repo).wf(),
        archive_outcome(old(repo).state(), final(repo).state(), EntityType::Goal, id@, r),
{
    repo.archive_cascade(EntityType::Goal, id.as_str())
}

/// Takes the archive stamp from the goal `id`, and from nothing under it,
/// and reads the goal back.
pub fn restore_goal(repo: &mut Repository, id: String) -> (r: AppResult<Goal>)
    ensures
        old(repo).wf() ==> final(repo).wf(),
        restore_outcome(
            old(repo).state(),
            final(repo).state(),
            EntityType::Goal,
            id@,
            r is Ok,
            failure_of(r),
        ),
        r matches Ok(goal) ==> goal.id@ == id@ && final(repo).state().goals@.contains(goal),
{
    match repo.restore(EntityType::Goal, id.as_str()) {
        Ok(()) => {
            proof {
                let now = choose|now: i64|
                    Store::restored(old(repo).state(), repo.state(), EntityType::Goal, id@, now);
                restored_row_is_there(old(repo).state(), repo.state(), EntityType::Goal, id@, now);
            }
            match find_row(&repo.store().goals, id.as_str()) {
                Some(goal) => Ok(goal),
                None => Err(AppError::not_found("Archived goal", id.as_str())),
            }
        },
        Err(e) => Err(e),
    }
}

} // verus!
