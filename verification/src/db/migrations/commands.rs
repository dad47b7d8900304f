//! What the user interface asks about the schema: the status of the
//! migrations, and to run them, to roll them back and to start over.

use vstd::prelude::*;
use vstd::string::StringExecFns;
use crate::db::migrations::all::{get_migrations, is_schema};
use crate::db::migrations::{
    batch_is_sound, is_batch_error, latest_of, migrated, rolled_back, target_or_zero, Migration,
    MigrationRunner, RecordView,
};
use crate::error::AppResult;
use crate::text::{decimal, push_decimal, push_signed_decimal, signed_decimal};

verus! {

/// The line of the status for one migration.
pub open spec fn status_line(migration: Migration, applied: bool) -> Seq<char> {
    (if applied {
        "\u{2713}"@
    } else {
        "\u{2717}"@
    }) + " Version "@ + signed_decimal(migration.version as int) + ": "@ + migration.description@
        + " "@ + (if applied {
        "(applied)"@
    } else {
        "(pending)"@
    }) + "\n"@
}

/// The lines of the status for the migrations `list`, in list order.
pub open spec fn status_lines(ledger: Map<i64, RecordView>, list: Seq<Migration>) -> Seq<char>
    decreases list.len(),
{
    if list.len() == 0 {
        Seq::empty()
    } else {
        status_lines(ledger, list.drop_last()) + status_line(
            list.last(),
            ledger.contains_key(list.last().version),
        )
    }
}

/// The last line of the status.
pub open spec fn status_footer(latest: Option<i64>) -> Seq<char> {
    match latest {
        Some(v) => "\nLatest applied version: "@ + signed_decimal(v as int),
        None => "\nNo migrations applied yet."@,
    }
}

/// The status of the migrations `list` against the ledger.
pub open spec fn status_text(ledger: Map<i64, RecordView>, list: Seq<Migration>) -> Seq<char> {
    "Migration Status:\n\n"@ + status_lines(ledger, list) + status_footer(latest_of(ledger))
}

/// The status of the migrations `list`: for each, whether it is applied or
/// pending, and at the end the latest version that is applied.
pub fn migration_status(runner: &MigrationRunner, list: &[Migration]) -> (r: AppResult<String>)
    requires
        runner.wf(),
    ensures
        r matches Ok(status) && status@ == status_text(runner.applied(), list@),
{
    let mut status = "Migration Status:\n\n".to_owned();
    let ghost head = status@;
    let mut i: usize = 0;
    assert(list@.take(0) =~= Seq::<Migration>::empty());
    assert(status@ =~= head + status_lines(runner.applied(), list@.take(0)));
    while i < list.len()
        invariant
            i <= list@.len(),
            runner.wf(),
            head == "Migration Status:\n\n"@,
            status@ == head + status_lines(runner.applied(), list@.take(i as int)),
        decreases list.len() - i,
    {
        assert(list@.take(i + 1).drop_last() =~= list@.take(i as int));
        let ghost before = status@;
        let is_applied = runner.is_applied(list[i].version)?;
        status.append(if is_applied { "\u{2713}" } else { "\u{2717}" });
        status.append(" Version ");
        push_signed_decimal(&mut status, list[i].version);
        status.append(": ");
        status.append(list[i].description.as_str());
        status.append(" ");
        status.append(if is_applied { "(applied)" } else { "(pending)" });
        status.append("\n");
        assert(status@ =~= before + status_line(list@[i as int], is_applied));
        assert(status@ =~= head + status_lines(runner.applied(), list@.take(i + 1)));
        i += 1;
    }
    assert(list@.take(list@.len() as int) =~= list@);
    let ghost body = status@;
    match runner.get_latest_version()? {
        Some(latest) => {
            status.append("\nLatest applied version: ");
            push_signed_decimal(&mut status, latest);
        },
        None => {
            status.append("\nNo migrations applied yet.");
        },
    }
    assert(status@ =~= body + status_footer(latest_of(runner.applied())));
    Ok(status)
}

/// The status of the migrations of the schema.
pub fn get_migration_status(runner: &MigrationRunner) -> (r: AppResult<String>)
    requires
        runner.wf(),
    ensures
        r matches Ok(status) && exists|list: Seq<Migration>|
            is_schema(list) && status@ == #[trigger] status_text(runner.applied(), list),
{
    let all = get_migrations();
    let r = migration_status(runner, all.as_slice());
    assert(is_schema(all@));
    r
}

/// What a run reports that found `before` versions applied and left `after`.
pub open spec fn run_summary(before: nat, after: nat) -> Seq<char> {
    if after > before {
        "Successfully applied "@ + decimal((after - before) as nat) + " migration(s)"@
    } else {
        "All migrations are already up to date"@
    }
}

/// What a run reports that found `before` versions applied and left `after`.
pub fn migration_summary(before: usize, after: usize) -> (summary: String)
    ensures
        summary@ == run_summary(before as nat, after as nat),
{
    if after > before {
        let mut summary = "Successfully applied ".to_owned();
        push_decimal(&mut summary, (after - before) as u64);
        summary.append(" migration(s)");
        summary
    } else {
        "All migrations are already up to date".to_owned()
    }
}

/// Applies the batch `list` and reports how many versions it added.
pub fn run_batch(runner: &mut MigrationRunner, list: &[Migration]) -> (r: AppResult<String>)
    requires
        old(runner).wf(),
    ensures
        final(runner).wf(),
        r is Ok == batch_is_sound(old(runner).applied(), list@),
        r matches Ok(summary) ==> {
            &&& exists|now: i64| final(runner).applied() == migrated(old(runner).applied(), list@, now)
            &&& summary@ == run_summary(
                old(runner).applied().dom().len(),
                final(runner).applied().dom().len(),
            )
        },
        r matches Err(e) ==> final(runner).applied() == old(runner).applied() && is_batch_error(e),
{
    let before = runner.applied_count();
    runner.migrate(list)?;
    let after = runner.applied_count();
    Ok(migration_summary(before, after))
}

/// Applies the migrations of the schema that are pending.
pub fn run_migrations(runner: &mut MigrationRunner) -> (r: AppResult<String>)
    requires
        old(runner).wf(),
    ensures
        final(runner).wf(),
        r matches Ok(summary) && summary@ == run_summary(
            old(runner).applied().dom().len(),
            final(runner).applied().dom().len(),
        ),
        exists|list: Seq<Migration>, now: i64|
            is_schema(list) && final(runner).applied() == #[trigger] migrated(
                old(runner).applied(),
                list,
                now,
            ),
{
    let all = get_migrations();
    let r = run_batch(runner, all.as_slice());
    proof {
        assert(batch_is_sound(old(runner).applied(), all@));
        let now = choose|now: i64| runner.applied() == migrated(old(runner).applied(), all@, now);
        assert(is_schema(all@) && runner.applied() == migrated(old(runner).applied(), all@, now));
    }
    r
}

/// What a rollback reports that found `before` as the latest version and
/// left `after`.
pub open spec fn rollback_text(before: Option<i64>, after: Option<i64>) -> Seq<char> {
    match (before, after) {
        (Some(b), Some(a)) => if b != a {
            "Rolled back from version "@ + signed_decimal(b as int) + " to "@ + signed_decimal(
                a as int,
            )
        } else {
            "No migrations to roll back"@
        },
        (Some(b), None) => "Rolled back all migrations from version "@ + signed_decimal(b as int),
        _ => "No migrations to roll back"@,
    }
}

/// What a rollback reports that found `before` as the latest version and
/// left `after`.
pub fn rollback_summary(before: Option<i64>, after: Option<i64>) -> (summary: String)
    ensures
        summary@ == rollback_text(before, after),
{
    match (before, after) {
        (Some(b), Some(a)) => {
            if b != a {
                let mut summary = "Rolled back from version ".to_owned();
                push_signed_decimal(&mut summary, b);
                summary.append(" to ");
                push_signed_decimal(&mut summary, a);
                summary
            } else {
                "No migrations to roll back".to_owned()
            }
        },
        (Some(b), None) => {
            let mut summary = "Rolled back all migrations from version ".to_owned();
            push_signed_decimal(&mut summary, b);
            summary
        },
        _ => "No migrations to roll back".to_owned(),
    }
}

/// Rolls the ledger back to the target and reports from which version to
/// which.
pub fn rollback_migration(runner: &mut MigrationRunner, target_version: Option<i64>) -> (r: AppResult<
    String,
>)
    requires
        old(runner).wf(),
    ensures
        final(runner).wf(),
        final(runner).applied() == rolled_back(old(runner).applied(), target_or_zero(target_version)),
        r matches Ok(summary) && summary@ == rollback_text(
            latest_of(old(runner).applied()),
            latest_of(final(runner).applied()),
        ),
{
    let before = runner.get_latest_version()?;
    runner.rollback(target_version)?;
    let after = runner.get_latest_version()?;
    Ok(rollback_summary(before, after))
}

/// Starts over: rolls everything back, forgets the ledger and applies the
/// migrations of the schema anew.
pub fn reset_database(runner: &mut MigrationRunner) -> (r: AppResult<String>)
    requires
        old(runner).wf(),
    ensures
        final(runner).wf(),
        r matches Ok(message) && message@ == "Database reset successfully"@,
        exists|list: Seq<Migration>, now: i64|
            is_schema(list) && final(runner).applied() == #[trigger] migrated(
                Map::<i64, RecordView>::empty(),
                list,
                now,
            ),
{
    runner.rollback(Some(0))?;
    runner.clear();
    let all = get_migrations();
    let ghost cleared = runner.applied();
    runner.migrate(all.as_slice())?;
    proof {
        assert(batch_is_sound(cleared, all@));
        let now = choose|now: i64| runner.applied() == migrated(cleared, all@, now);
        assert(is_schema(all@) && runner.applied() == migrated(
            Map::<i64, RecordView>::empty(),
            all@,
            now,
        ));
    }
    Ok("Database reset successfully".to_owned())
}

} // verus!
