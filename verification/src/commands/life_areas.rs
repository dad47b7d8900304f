//! What the user interface asks about life areas.

use vstd::prelude::*;
use crate::commands::repository::EntityType;
use crate::db::models::LifeArea;
use crate::db::repository::{
    archive_outcome, failure_of, is_duplicate_error, is_full_error, restore_outcome, Repository,
};
use crate::db::rows::{areas_updated, live_rows, newest_first};
use crate::db::store::{has_key, Store};
use crate::error::{invalid_id_message, not_found_message, AppError, AppResult, ErrorCode};
use crate::ids::{parses_as_uuid, uuid_parses};

verus! {

/// The request to create a life area.
#[derive(Debug)]
pub struct CreateLifeAreaRequest {
    pub name: String,
    pub description: Option<String>,
    pub color: Option<String>,
    pub icon: Option<String>,
}

/// The request to change a life area.
#[derive(Debug)]
pub struct UpdateLifeAreaRequest {
    pub id: String,
    pub name: String,
    pub description: Option<String>,
    pub color: Option<String>,
    pub icon: Option<String>,
}

/// Whether `e` is the error for the identifier `id` that is not a UUID.
pub open spec fn is_invalid_id(e: AppError, id: Seq<char>) -> bool {
    e.is(ErrorCode::InvalidId, invalid_id_message(id), None)
}

/// What a command leaves that refuses an identifier: the store as it was,
/// and the error that says that the identifier is not a UUID.
pub open spec fn refuses_id(before: Store, after: Store, id: Seq<char>, failure: Option<AppError>) -> bool {
    &&& after == before
    &&& failure matches Some(e)
    &&& is_invalid_id(e, id)
}

/// What the check of an identifier reports once it is known whether the
/// identifier parses as a UUID.
pub fn id_verdict(parses: bool, id: &str) -> (r: AppResult<()>)
    ensures
        r is Ok == parses,
        r matches Err(e) ==> is_invalid_id(e, id@),
{
    if parses {
        Ok(())
    } else {
        Err(AppError::invalid_id(id))
    }
}

/// Accepts an identifier that parses as a UUID.
pub fn check_id(id: &str) -> (r: AppResult<()>)
    ensures
        r is Ok == uuid_parses(id@),
        r matches Err(e) ==> is_invalid_id(e, id@),
{
    id_verdict(parses_as_uuid(id), id)
}

/// Creates a life area with a random identity.
pub fn create_life_area(repo: &mut Repository, request: CreateLifeAreaRequest) -> (r: AppResult<LifeArea>)
    requires
        old(repo).wf(),
    ensures
        final(repo).wf(),
        old(repo).state().rows() == usize::MAX ==> r is Err,
        r matches Ok(area) ==> {
            &&& area.name == request.name
            &&& area.description == request.description
            &&& area.color == request.color
            &&& area.icon == request.icon
            &&& area.archived_at is None
            &&& area.updated_at == area.created_at
            &&& !has_key(old(repo).state().life_areas@, area.id@)
            &&& final(repo).state() == (Store {
                life_areas: final(repo).state().life_areas,
                ..old(repo).state()
            })
            &&& final(repo).state().life_areas@ == old(repo).state().life_areas@.push(area)
        },
        r matches Err(e) ==> {
            &&& final(repo).state() == old(repo).state()
            &&& if old(repo).state().rows() == usize::MAX {
                is_full_error(e)
            } else {
                is_duplicate_error(e)
            }
        },
{
    repo.create_life_area(request.name, request.description, request.color, request.icon)
}

/// The life areas that are not archived, newest first.
pub fn get_life_areas(repo: &Repository) -> (r: AppResult<Vec<LifeArea>>)
    ensures
        r matches Ok(areas) && areas@.to_multiset() == live_rows(
            repo.state().life_areas@,
        ).to_multiset() && newest_first(areas@),
{
    repo.get_life_areas()
}

/// The life area `id`.
pub fn get_life_area(repo: &Repository, id: String) -> (r: AppResult<LifeArea>)
    ensures
        r is Ok == (uuid_parses(id@) && has_key(repo.state().life_areas@, id@)),
        r matches Ok(area) ==> area.id@ == id@ && repo.state().life_areas@.contains(area),
        r matches Err(e) ==> if !uuid_parses(id@) {
            is_invalid_id(e, id@)
        } else {
            e.is(ErrorCode::NotFound, not_found_message("Life area"@, id@), None)
        },
{
    check_id(id.as_str())?;
    repo.get_life_area(id.as_str())
}

/// Changes the life area that the request names, if it is not archived, and
/// reads it back.
pub fn update_life_area(repo: &mut Repository, request: UpdateLifeAreaRequest) -> (r: AppResult<LifeArea>)
    requires
        old(repo).wf(),
    ensures
        final(repo).wf(),
        !uuid_parses(request.id@) ==> final(repo).state() == old(repo).state(),
        uuid_parses(request.id@) ==> final(repo).state() == (Store {
            life_areas: final(repo).state().life_areas,
            ..old(repo).state()
        }) && exists|now: i64|
            areas_updated(
                old(repo).state().life_areas@,
                final(repo).state().life_areas@,
                request.id@,
                request.name,
                request.description,
                request.color,
                request.icon,
                now,
            ),
        r is Ok == (uuid_parses(request.id@) && has_key(old(repo).state().life_areas@, request.id@)),
        r matches Ok(area) ==> area.id@ == request.id@ && final(repo).state().life_areas@.contains(
            area,
        ),
        r matches Err(e) ==> if !uuid_parses(request.id@) {
            is_invalid_id(e, request.id@)
        } else {
            e.is(ErrorCode::NotFound, not_found_message("Life area"@, request.id@), None)
        },
{
    check_id(request.id.as_str())?;
    repo.update_life_area(
        request.id.as_str(),
        request.name,
        request.description,
        request.color,
        request.icon,
    )
}

/// Archives the life area `id` with everything that hangs under it.
pub fn delete_life_area(repo: &mut Repository, id: String) -> (r: AppResult<()>)
    ensures
        old(repo).wf() ==> final(repo).wf(),
        !uuid_parses(id@) ==> refuses_id(old(repo).state(), final(repo).state(), id@, failure_of(r)),
        uuid_parses(id@) ==> archive_outcome(
            old(repo).state(),
            final(repo).state(),
            EntityType::LifeArea,
            id@,
            r,
        ),
{
    check_id(id.as_str())?;
    repo.archive_cascade(EntityType::LifeArea, id.as_str())
}

/// Takes the archive stamp from the life area `id`, and from nothing under
/// it, and reads the life area back.
pub fn restore_life_area(repo: &mut Repository, id: String) -> (r: AppResult<LifeArea>)
    ensures
        old(repo).wf() ==> final(repo).wf(),
        !uuid_parses(id@) ==> refuses_id(old(repo).state(), final(repo).state(), id@, failure_of(r)),
        uuid_parses(id@) ==> restore_outcome(
            old(repo).state(),
            final(repo).state(),
            EntityType::LifeArea,
            id@,
            r is Ok,
            failure_of(r),
        ),
        r matches Ok(area) ==> area.id@ == id@ && final(repo).state().life_areas@.contains(area),
{
    check_id(id.as_str())?;
    repo.restore_life_area(id.as_str())
}

} // verus!
