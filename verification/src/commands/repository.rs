//! Maintenance of the whole repository: batch deletion, statistics and
//! cleanup.

use vstd::prelude::*;
use vstd::string::StringExecFns;
use crate::clock::{now_micros, MICROS_PER_DAY};
use crate::db::repository::{entity_name, Repository};
use crate::db::rows::{count_by_state, count_rows_by_state, fresh_rows, remove_stale};
use crate::db::store::Store;
use crate::error::{not_found_message, AppError, AppResult, ErrorCode};
use crate::text::{decimal, join, joined, push_decimal, views};

verus! {

/// The five tables of the hierarchy.
#[derive(Debug, Clone, Copy, PartialEq, Eq, Structural)]
pub enum EntityType {
    LifeArea,
    Goal,
    Project,
    Task,
    Note,
}

/// What a maintenance operation reports.
#[derive(Debug)]
pub struct TransactionResult {
    pub success: bool,
    pub message: String,
    pub affected_rows: Option<usize>,
}

/// The request to delete several records of one table.
#[derive(Debug)]
pub struct BatchDeleteRequest {
    pub entity_type: EntityType,
    pub ids: Vec<String>,
}

/// How many records each table holds that are not archived, and how many
/// archived records there are in all.
#[derive(Debug, Clone, Copy, PartialEq, Eq, Structural)]
pub struct DatabaseStats {
    pub life_areas_count: u64,
    pub goals_count: u64,
    pub projects_count: u64,
    pub tasks_count: u64,
    pub notes_count: u64,
    pub archived_items_count: u64,
}

/// What a cleanup is to do.
#[derive(Debug, Clone, Copy, PartialEq, Eq, Structural)]
pub struct CleanupOptions {
    pub delete_archived_older_than_days: Option<u32>,
    pub vacuum_database: bool,
}

/// The request to export the data.
#[derive(Debug, Clone, Copy, PartialEq, Eq, Structural)]
pub struct ExportRequest {
    pub include_archived: bool,
    pub format: ExportFormat,
}

/// The formats of an export.
#[derive(Debug, Clone, Copy, PartialEq, Eq, Structural)]
pub enum ExportFormat {
    Json,
}

impl TransactionResult {
    /// Whether this is the report of a success with the given message and
    /// number of rows.
    pub open spec fn succeeded(self, message: Seq<char>, affected_rows: Option<usize>) -> bool {
        &&& self.success
        &&& self.message@ == message
        &&& self.affected_rows == affected_rows
    }
}

/// Reports that the repository can be worked on.
pub fn check_repository_health(repo: &Repository) -> (r: AppResult<TransactionResult>)
    ensures
        r matches Ok(report) && report.succeeded("Repository is healthy"@, None),
{
    Ok(
        TransactionResult {
            success: true,
            message: "Repository is healthy".to_owned(),
            affected_rows: None,
        },
    )
}

/// Whether `after` is `before` once the first `n` of the records `ids` of
/// table `kind` have been archived one after the other, each with what hangs
/// under it and each at a time of its own.
pub open spec fn batch_archived(before: Store, after: Store, kind: EntityType, ids: Seq<String>, n: nat) -> bool
    decreases n,
{
    if n == 0 {
        after == before
    } else {
        let id = ids[n - 1]@;
        let m = (n - 1) as nat;
        exists|mid: Store, now: i64|
            batch_archived(before, mid, kind, ids, m) && mid.has_live_root(kind, id)
                && #[trigger] Store::cascaded(mid, after, kind, id, now)
    }
}

/// The message of a batch deletion that went through.
pub open spec fn batch_message(count: nat) -> Seq<char> {
    "Successfully deleted "@ + decimal(count) + " items"@
}

/// The message of a batch deletion for a table that has none.
pub open spec fn batch_unsupported(kind: EntityType) -> Seq<char> {
    match kind {
        EntityType::Task => "Task batch delete not yet implemented"@,
        EntityType::Goal => "Batch delete not implemented for Goal"@,
        EntityType::Note => "Batch delete not implemented for Note"@,
        EntityType::LifeArea => "Batch delete not implemented for LifeArea"@,
        EntityType::Project => "Batch delete not implemented for Project"@,
    }
}

/// Whether a batch deletion works on table `kind`: it does on life areas
/// and on projects.
pub open spec fn batch_supported(kind: EntityType) -> bool {
    kind == EntityType::LifeArea || kind == EntityType::Project
}

/// What a batch deletion leaves: for life areas and projects, the records
/// archived in the order of the request up to the first that is not found,
/// which ends the batch with its error and leaves the earlier ones archived;
/// for any other table, the store as it was and an error.
pub open spec fn batch_outcome(
    before: Store,
    after: Store,
    request: BatchDeleteRequest,
    r: AppResult<TransactionResult>,
) -> bool {
    let kind = request.entity_type;
    let ids = request.ids@;
    if batch_supported(kind) {
        match r {
            Ok(report) => batch_archived(before, after, kind, ids, ids.len()) && report.succeeded(
                batch_message(ids.len()),
                Some(ids.len() as usize),
            ),
            Err(e) => exists|k: nat|
                k < ids.len() && #[trigger] batch_archived(before, after, kind, ids, k)
                    && !after.has_live_root(kind, ids[k as int]@) && e.is(
                    ErrorCode::NotFound,
                    not_found_message(entity_name(kind), ids[k as int]@),
                    None,
                ),
        }
    } else {
        &&& after == before
        &&& r matches Err(e)
        &&& e.is(ErrorCode::InternalError, batch_unsupported(kind), None)
    }
}

/// Accepts the tables on which a batch deletion works.
pub fn check_batch_supported(kind: EntityType) -> (r: AppResult<()>)
    ensures
        r is Ok == batch_supported(kind),
        r matches Err(e) ==> e.is(ErrorCode::InternalError, batch_unsupported(kind), None),
{
    match kind {
        EntityType::LifeArea | EntityType::Project => Ok(()),
        EntityType::Task => Err(
            AppError::new(ErrorCode::InternalError, "Task batch delete not yet implemented"),
        ),
        EntityType::Goal => Err(
            AppError::new(ErrorCode::InternalError, "Batch delete not implemented for Goal"),
        ),
        EntityType::Note => Err(
            AppError::new(ErrorCode::InternalError, "Batch delete not implemented for Note"),
        ),
    }
}

/// The report of a batch deletion that archived `affected` records.
pub fn batch_report(affected: usize) -> (report: TransactionResult)
    ensures
        report.succeeded(batch_message(affected as nat), Some(affected)),
{
    let mut message = "Successfully deleted ".to_owned();
    push_decimal(&mut message, affected as u64);
    message.append(" items");
    TransactionResult { success: true, message, affected_rows: Some(affected) }
}

/// Archives the records that the request names, one after the other, each
/// with what hangs under it.
pub fn batch_delete(repo: &mut Repository, request: BatchDeleteRequest) -> (r: AppResult<TransactionResult>)
    ensures
        batch_outcome(old(repo).state(), final(repo).state(), request, r),
        old(repo).wf() ==> final(repo).wf(),
{
    let kind = request.entity_type;
    check_batch_supported(kind)?;
    let mut affected: usize = 0;
    while affected < request.ids.len()
        invariant
            affected <= request.ids@.len(),
            kind == request.entity_type,
            batch_supported(kind),
            batch_archived(old(repo).state(), repo.state(), kind, request.ids@, affected as nat),
            old(repo).wf() ==> repo.wf(),
        decreases request.ids.len() - affected,
    {
        let ghost mid = repo.state();
        match repo.archive_cascade(kind, request.ids[affected].as_str()) {
            Ok(()) => {
                proof {
                    let id = request.ids@[affected as int]@;
                    let now = choose|now: i64| Store::cascaded(mid, repo.state(), kind, id, now);
                    let n = (affected + 1) as nat;
                    assert(request.ids@[n - 1]@ == id && (n - 1) as nat == affected as nat);
                    assert(batch_archived(old(repo).state(), mid, kind, request.ids@, affected as nat)
                        && mid.has_live_root(kind, id) && Store::cascaded(
                        mid,
                        repo.state(),
                        kind,
                        id,
                        now,
                    ));
                    assert(batch_archived(old(repo).state(), repo.state(), kind, request.ids@, n));
                }
            },
            Err(e) => {
                return Err(e);
            },
        }
        affected += 1;
    }
    Ok(batch_report(affected))
}

/// The statistics of a store.
pub open spec fn stats_of(store: Store) -> DatabaseStats {
    DatabaseStats {
        life_areas_count: count_by_state(store.life_areas@, false) as u64,
        goals_count: count_by_state(store.goals@, false) as u64,
        projects_count: count_by_state(store.projects@, false) as u64,
        tasks_count: count_by_state(store.tasks@, false) as u64,
        notes_count: count_by_state(store.notes@, false) as u64,
        archived_items_count: (count_by_state(store.life_areas@, true) + count_by_state(
            store.goals@,
            true,
        ) + count_by_state(store.projects@, true) + count_by_state(store.tasks@, true)
            + count_by_state(store.notes@, true)) as u64,
    }
}

/// How many records each table holds that are not archived, and how many
/// archived records there are in all.
pub fn get_database_stats(repo: &Repository) -> (r: AppResult<DatabaseStats>)
    requires
        repo.wf(),
    ensures
        r == Ok::<DatabaseStats, AppError>(stats_of(repo.state())),
{
    let store = repo.store();
    let archived: usize = count_rows_by_state(&store.life_areas, true) + count_rows_by_state(
        &store.goals,
        true,
    ) + count_rows_by_state(&store.projects, true) + count_rows_by_state(&store.tasks, true)
        + count_rows_by_state(&store.notes, true);
    Ok(
        DatabaseStats {
            life_areas_count: count_rows_by_state(&store.life_areas, false) as u64,
            goals_count: count_rows_by_state(&store.goals, false) as u64,
            projects_count: count_rows_by_state(&store.projects, false) as u64,
            tasks_count: count_rows_by_state(&store.tasks, false) as u64,
            notes_count: count_rows_by_state(&store.notes, false) as u64,
            archived_items_count: archived as u64,
        },
    )
}

/// The time before which an archived record is stale when records archived
/// more than `days` days before `now` are: `now` less that many days, or the
/// first moment that can be told where that lies before it.
pub open spec fn cutoff_of(now: i64, days: u32) -> i64 {
    if now - days * MICROS_PER_DAY < i64::MIN {
        i64::MIN
    } else {
        (now - days * MICROS_PER_DAY) as i64
    }
}

/// The time before which an archived record is stale.
pub fn cutoff(now: i64, days: u32) -> (at: i64)
    ensures
        at == cutoff_of(now, days),
{
    let wide: i128 = now as i128 - (days as i128) * (MICROS_PER_DAY as i128);
    if wide < i64::MIN as i128 {
        i64::MIN
    } else {
        wide as i64
    }
}

/// The line of a cleanup's report for a table of which `deleted` records
/// went, if any went.
pub open spec fn deleted_line(deleted: nat, name: Seq<char>) -> Seq<Seq<char>> {
    if deleted > 0 {
        seq!["Deleted "@ + decimal(deleted) + " archived "@ + name]
    } else {
        Seq::empty()
    }
}

/// The lines of a cleanup's report: one for each table of which records
/// went, in the order of the hierarchy, and one for the vacuum where it was
/// asked for.
pub open spec fn cleanup_lines(deleted: Seq<nat>, vacuum: bool) -> Seq<Seq<char>> {
    deleted_line(deleted[0], "life areas"@) + deleted_line(deleted[1], "goals"@) + deleted_line(
        deleted[2],
        "projects"@,
    ) + deleted_line(deleted[3], "tasks"@) + deleted_line(deleted[4], "notes"@) + if vacuum {
        seq!["Database vacuumed successfully"@]
    } else {
        Seq::empty()
    }
}

/// The message of a cleanup's report.
pub open spec fn cleanup_message(deleted: Seq<nat>, vacuum: bool) -> Seq<char> {
    if cleanup_lines(deleted, vacuum).len() == 0 {
        "No cleanup operations performed"@
    } else {
        joined(cleanup_lines(deleted, vacuum), ", "@)
    }
}

/// How many records a cleanup removed in all.
pub open spec fn total_deleted(deleted: Seq<nat>) -> nat {
    deleted[0] + deleted[1] + deleted[2] + deleted[3] + deleted[4]
}

fn push_deleted_line(lines: &mut Vec<String>, deleted: usize, name: &str)
    ensures
        views(final(lines)@) == views(old(lines)@) + deleted_line(deleted as nat, name@),
{
    if deleted > 0 {
        let mut line = "Deleted ".to_owned();
        push_decimal(&mut line, deleted as u64);
        line.append(" archived ");
        line.append(name);
        lines.push(line);
        assert(views(lines@) =~= views(old(lines)@) + deleted_line(deleted as nat, name@));
    } else {
        assert(views(lines@) =~= views(old(lines)@) + deleted_line(deleted as nat, name@));
    }
}

/// The report of a cleanup that removed `deleted` records from the five
/// tables, in the order of the hierarchy, and vacuumed where `vacuum` says
/// so.
pub fn cleanup_report(deleted: &Vec<usize>, vacuum: bool) -> (report: TransactionResult)
    requires
        deleted@.len() == 5,
        deleted@[0] + deleted@[1] + deleted@[2] + deleted@[3] + deleted@[4] <= usize::MAX,
    ensures
        report.succeeded(
            cleanup_message(deleted@.map_values(|n: usize| n as nat), vacuum),
            if total_deleted(deleted@.map_values(|n: usize| n as nat)) > 0 {
                Some(total_deleted(deleted@.map_values(|n: usize| n as nat)) as usize)
            } else {
                None
            },
        ),
{
    let ghost counts = deleted@.map_values(|n: usize| n as nat);
    let mut lines: Vec<String> = Vec::new();
    assert(views(lines@) =~= Seq::<Seq<char>>::empty());
    push_deleted_line(&mut lines, deleted[0], "life areas");
    push_deleted_line(&mut lines, deleted[1], "goals");
    push_deleted_line(&mut lines, deleted[2], "projects");
    push_deleted_line(&mut lines, deleted[3], "tasks");
    push_deleted_line(&mut lines, deleted[4], "notes");
    if vacuum {
        let ghost before = views(lines@);
        lines.push("Database vacuumed successfully".to_owned());
        assert(views(lines@) =~= before + seq!["Database vacuumed successfully"@]);
    }
    assert(views(lines@) =~= cleanup_lines(counts, vacuum));
    let message = if lines.len() == 0 {
        "No cleanup operations performed".to_owned()
    } else {
        join(&lines, ", ")
    };
    let total: usize = deleted[0] + deleted[1] + deleted[2] + deleted[3] + deleted[4];
    TransactionResult {
        success: true,
        message,
        affected_rows: if total > 0 {
            Some(total)
        } else {
            None
        },
    }
}

/// Whether `after` is `before` without the records that were archived before
/// the time `at`. Links are not followed: what hangs under a record that
/// goes stays.
pub open spec fn cleaned(before: Store, after: Store, at: i64) -> bool {
    &&& after.life_areas@ == fresh_rows(before.life_areas@, at)
    &&& after.goals@ == fresh_rows(before.goals@, at)
    &&& after.projects@ == fresh_rows(before.projects@, at)
    &&& after.tasks@ == fresh_rows(before.tasks@, at)
    &&& after.notes@ == fresh_rows(before.notes@, at)
}

/// How many records a cleanup took from each table.
pub open spec fn removed_counts(before: Store, after: Store) -> Seq<nat> {
    seq![
        (before.life_areas@.len() - after.life_areas@.len()) as nat,
        (before.goals@.len() - after.goals@.len()) as nat,
        (before.projects@.len() - after.projects@.len()) as nat,
        (before.tasks@.len() - after.tasks@.len()) as nat,
        (before.notes@.len() - after.notes@.len()) as nat,
    ]
}

/// What a cleanup at the time `now` leaves: the store without the records
/// that the options call stale, or as it was where they name no age, and the
/// report of what went.
pub open spec fn cleanup_outcome(
    before: Store,
    after: Store,
    options: CleanupOptions,
    now: i64,
    report: TransactionResult,
) -> bool {
    &&& match options.delete_archived_older_than_days {
        Some(days) => cleaned(before, after, cutoff_of(now, days)),
        None => after == before,
    }
    &&& report.succeeded(
        cleanup_message(removed_counts(before, after), options.vacuum_database),
        if total_deleted(removed_counts(before, after)) > 0 {
            Some(total_deleted(removed_counts(before, after)) as usize)
        } else {
            None
        },
    )
}

/// Removes for good the archived records that the options call stale, as
/// seen from the time `now`, and reports what went. Whether the database is
/// vacuumed is for the caller to see to; the report says that it was where
/// the options ask for it.
pub fn cleanup_database_at(repo: &mut Repository, options: CleanupOptions, now: i64) -> (r: AppResult<
    TransactionResult,
>)
    requires
        old(repo).wf(),
    ensures
        final(repo).wf(),
        r matches Ok(report) && cleanup_outcome(
            old(repo).state(),
            final(repo).state(),
            options,
            now,
            report,
        ),
{
    let removed = match options.delete_archived_older_than_days {
        Some(days) => repo.remove_archived_before(cutoff(now, days)),
        None => {
            let mut none: Vec<usize> = Vec::new();
            none.push(0);
            none.push(0);
            none.push(0);
            none.push(0);
            none.push(0);
            none
        },
    };
    assert(removed@.map_values(|n: usize| n as nat) =~= removed_counts(
        old(repo).state(),
        repo.state(),
    ));
    Ok(cleanup_report(&removed, options.vacuum_database))
}

/// Removes for good the archived records that the options call stale, as
/// seen from the time of the call, and reports what went.
pub fn cleanup_database(repo: &mut Repository, options: CleanupOptions) -> (r: AppResult<
    TransactionResult,
>)
    requires
        old(repo).wf(),
    ensures
        final(repo).wf(),
        r matches Ok(report) && exists|now: i64|
            cleanup_outcome(old(repo).state(), final(repo).state(), options, now, report),
{
    let now = now_micros();
    cleanup_database_at(repo, options, now)
}

} // verus!
