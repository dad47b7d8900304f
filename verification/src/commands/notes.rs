//! What the user interface asks about notes.

use vstd::prelude::*;
use vstd::string::StringExecFns;
use crate::commands::repository::EntityType;
use crate::db::models::Note;
use crate::db::record::Record;
use crate::db::repository::{archive_outcome, failure_of, restore_outcome, Repository};
use crate::db::rows::find_row;
use crate::db::store::{restored_row_is_there, Store};
use crate::error::{AppError, AppResult};

verus! {

/// The request to create a note.
#[derive(Debug)]
pub struct CreateNoteRequest {
    pub task_id: Option<String>,
    pub project_id: Option<String>,
    pub goal_id: Option<String>,
    pub life_area_id: Option<String>,
    pub title: String,
    pub content: String,
}

/// The request to change a note.
#[derive(Debug)]
pub struct UpdateNoteRequest {
    pub id: String,
    pub task_id: Option<String>,
    pub project_id: Option<String>,
    pub goal_id: Option<String>,
    pub life_area_id: Option<String>,
    pub title: String,
    pub content: String,
}

/// Archives the note `id`.
pub fn delete_note(repo: &mut Repository, id: String) -> (r: AppResult<()>)
    ensures
        old(repo).wf() ==> final(repo).wf(),
        archive_outcome(old(repo).state(), final(repo).state(), EntityType::Note, id@, r),
{
    repo.archive_cascade(EntityType::Note, id.as_str())
}

/// Takes the archive stamp from the note `id` and reads the note back.
pub fn restore_note(repo: &mut Repository, id: String) -> (r: AppResult<Note>)
    ensures
        old(repo).wf() ==> final(repo).wf(),
        restore_outcome(
            old(repo).state(),
            final(repo).state(),
            EntityType::Note,
            id@,
            r is Ok,
            failure_of(r),
        ),
        r matches Ok(note) ==> note.id@ == id@ && final(repo).state().notes@.contains(note),
{
    match repo.restore(EntityType::Note, id.as_str()) {
        Ok(()) => {
            proof {
                let now = choose|now: i64|
                    Store::restored(old(repo).state(), repo.state(), EntityType::Note, id@, now);
                restored_row_is_there(old(repo).state(), repo.state(), EntityType::Note, id@, now);
            }
            match find_row(&repo.store().notes, id.as_str()) {
                Some(note) => Ok(note),
                None => Err(AppError::not_found("Archived note", id.as_str())),
            }
        },
        Err(e) => Err(e),
    }
}

/// The pattern that finds `query` anywhere in a text: `query` between two
/// signs `%`.
pub fn search_pattern(query: &str) -> (pattern: String)
    ensures
        pattern@ == "%"@ + query@ + "%"@,
{
    let mut pattern = "%".to_owned();
    pattern.append(query);
    pattern.append("%");
    pattern
}

} // verus!
