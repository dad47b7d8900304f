//! The migration ledger: which versions of the schema have been applied, and
//! the runner that brings the ledger forward through a list of migrations or
//! back to an earlier version.
//!
//! The ledger is a map from a version to its record. A batch of migrations is
//! applied whole or not at all. Rolling back removes, newest first, every
//! version above the target.

pub mod all;
pub mod commands;

use vstd::prelude::*;
use std::collections::hash_map::DefaultHasher;
use std::hash::Hasher;
use vstd::std_specs::hash::DefaultHasherAdditionalSpecFns;
use vstd::utf8::encode_utf8;
use crate::clock::now_micros;
use crate::error::{AppError, AppResult, ErrorCode};
use crate::text::{lower_hex, push_lower_hex};

verus! {

/// One step of the schema: how to take it, and how to take it back.
#[derive(Debug)]
pub struct Migration {
    pub version: i64,
    pub description: String,
    pub up: String,
    pub down: String,
}

/// One row of the ledger: a version that has been applied.
#[derive(Debug)]
pub struct MigrationRecord {
    pub version: i64,
    pub description: String,
    pub applied_at: i64,
    pub checksum: String,
}

/// What a row of the ledger holds.
pub struct RecordView {
    pub version: i64,
    pub description: Seq<char>,
    pub applied_at: i64,
    pub checksum: Seq<char>,
}

/// One script that a batch is about to run, with what the ledger will record
/// of it.
#[derive(Debug)]
pub struct MigrationStep {
    pub version: i64,
    pub description: String,
    pub up: String,
    pub checksum: String,
}

/// One version that a rollback is about to remove, with the script that takes
/// it back, where the list of migrations holds one.
#[derive(Debug)]
pub struct RollbackStep {
    pub version: i64,
    pub down: Option<String>,
}

/// The runner: it holds the ledger and whether its table is set up.
pub struct MigrationRunner {
    ledger: Vec<MigrationRecord>,
    initialized: bool,
}

impl View for MigrationRecord {
    type V = RecordView;

    open spec fn view(&self) -> RecordView {
        RecordView {
            version: self.version,
            description: self.description@,
            applied_at: self.applied_at,
            checksum: self.checksum@,
        }
    }
}

impl Clone for Migration {
    fn clone(&self) -> (r: Self)
        ensures
            r == *self,
    {
        Migration {
            version: self.version,
            description: self.description.clone(),
            up: self.up.clone(),
            down: self.down.clone(),
        }
    }
}

impl Clone for MigrationRecord {
    fn clone(&self) -> (r: Self)
        ensures
            r == *self,
    {
        MigrationRecord {
            version: self.version,
            description: self.description.clone(),
            applied_at: self.applied_at,
            checksum: self.checksum.clone(),
        }
    }
}

impl Migration {
    /// The migration to `version`, with the script that takes the step and
    /// the script that takes it back.
    pub fn new(version: i64, description: &str, up: &str, down: &str) -> (m: Self)
        ensures
            m.version == version,
            m.description@ == description@,
            m.up@ == up@,
            m.down@ == down@,
    {
        Migration {
            version,
            description: description.to_owned(),
            up: up.to_owned(),
            down: down.to_owned(),
        }
    }
}

/// The checksum of a script: the hash that `DefaultHasher` gives to the
/// script as text, in lower-case hexadecimal digits.
pub open spec fn checksum_text(content: Seq<char>) -> Seq<char> {
    lower_hex(DefaultHasher::spec_finish(seq![encode_utf8(content), seq![0xffu8]]) as nat)
}

/// What the ledger records of `migration` when it is applied at `now`.
pub open spec fn record_of(migration: Migration, now: i64) -> RecordView {
    RecordView {
        version: migration.version,
        description: migration.description@,
        applied_at: now,
        checksum: checksum_text(migration.up@),
    }
}

/// Whether the versions stand in strictly ascending order.
pub open spec fn ascending(records: Seq<MigrationRecord>) -> bool {
    forall|i: int, j: int| 0 <= i < j < records.len() ==> records[i].version < records[j].version
}

/// The ledger that the rows `records` make up.
pub open spec fn ledger_of(records: Seq<MigrationRecord>) -> Map<i64, RecordView>
    decreases records.len(),
{
    if records.len() == 0 {
        Map::empty()
    } else {
        ledger_of(records.drop_last()).insert(records.last().version, records.last()@)
    }
}

/// The ledger after the batch `list` has been applied to `ledger` at `now`:
/// every script, in list order, whose version the ledger does not hold yet
/// adds its record.
pub open spec fn migrated(ledger: Map<i64, RecordView>, list: Seq<Migration>, now: i64) -> Map<
    i64,
    RecordView,
>
    decreases list.len(),
{
    if list.len() == 0 {
        ledger
    } else {
        let before = migrated(ledger, list.drop_last(), now);
        if before.contains_key(list.last().version) {
            before
        } else {
            before.insert(list.last().version, record_of(list.last(), now))
        }
    }
}

/// The ledger after a rollback to `target`: the versions above it are gone.
pub open spec fn rolled_back(ledger: Map<i64, RecordView>, target: i64) -> Map<i64, RecordView> {
    ledger.restrict(Set::new(|v: i64| v <= target))
}

/// Whether a batch can be applied: no version that the ledger lacks occurs
/// twice in the list.
pub open spec fn batch_is_sound(ledger: Map<i64, RecordView>, list: Seq<Migration>) -> bool {
    forall|i: int, j: int|
        0 <= i < j < list.len() && list[i].version == list[j].version ==> ledger.contains_key(
            #[trigger] list[i].version,
        ) || ledger.contains_key(#[trigger] list[j].version)
}

/// Whether `version` occurs in `list`.
pub open spec fn lists_version(list: Seq<Migration>, version: i64) -> bool {
    exists|i: int| 0 <= i < list.len() && #[trigger] list[i].version == version
}

/// A ledger holds a version exactly when one of its rows does.
pub proof fn ledger_holds_rows(records: Seq<MigrationRecord>, version: i64)
    ensures
        ledger_of(records).contains_key(version) <==> exists|i: int|
            0 <= i < records.len() && #[trigger] records[i].version == version,
    decreases records.len(),
{
    if records.len() > 0 {
        let rest = records.drop_last();
        ledger_holds_rows(rest, version);
        if ledger_of(records).contains_key(version) {
            if version == records.last().version {
                assert(records[records.len() - 1].version == version);
            } else {
                let i = choose|i: int| 0 <= i < rest.len() && #[trigger] rest[i].version == version;
                assert(records[i].version == version);
            }
        }
        if exists|i: int| 0 <= i < records.len() && #[trigger] records[i].version == version {
            let i = choose|i: int| 0 <= i < records.len() && #[trigger] records[i].version == version;
            if i < records.len() - 1 {
                assert(rest[i].version == version);
            }
        }
    }
}

/// In a ledger with ascending rows, each row stands under its version.
pub proof fn ledger_maps_rows(records: Seq<MigrationRecord>, i: int)
    requires
        ascending(records),
        0 <= i < records.len(),
    ensures
        ledger_of(records).contains_key(records[i].version),
        ledger_of(records)[records[i].version] == records[i]@,
    decreases records.len(),
{
    let rest = records.drop_last();
    if i < records.len() - 1 {
        assert(ascending(rest));
        ledger_maps_rows(rest, i);
        assert(rest[i] == records[i]);
    }
}

/// A ledger with ascending rows holds as many versions as it has rows.
pub proof fn ledger_counts_rows(records: Seq<MigrationRecord>)
    requires
        ascending(records),
    ensures
        ledger_of(records).dom().finite(),
        ledger_of(records).dom().len() == records.len(),
    decreases records.len(),
{
    if records.len() > 0 {
        let rest = records.drop_last();
        assert(ascending(rest));
        ledger_counts_rows(rest);
        ledger_holds_rows(rest, records.last().version);
        assert(!ledger_of(rest).contains_key(records.last().version)) by {
            if ledger_of(rest).contains_key(records.last().version) {
                let i = choose|i: int|
                    0 <= i < rest.len() && #[trigger] rest[i].version == records.last().version;
                assert(records[i].version < records[records.len() - 1].version);
            }
        }
        assert(ledger_of(records).dom() =~= ledger_of(rest).dom().insert(records.last().version));
    }
}

/// Whether `version` is the highest version that `ledger` holds.
pub open spec fn is_latest(ledger: Map<i64, RecordView>, version: i64) -> bool {
    ledger.contains_key(version) && forall|u: i64| ledger.contains_key(u) ==> u <= version
}

/// The highest version that `ledger` holds, if it holds any.
pub open spec fn latest_of(ledger: Map<i64, RecordView>) -> Option<i64> {
    if exists|v: i64| is_latest(ledger, v) {
        Some(choose|v: i64| is_latest(ledger, v))
    } else {
        None
    }
}

/// Adding a row at its place in ascending order adds its record to the
/// ledger.
pub proof fn ledger_of_insert(records: Seq<MigrationRecord>, at: int, row: MigrationRecord)
    requires
        0 <= at <= records.len(),
        ascending(records),
        ascending(records.insert(at, row)),
    ensures
        ledger_of(records.insert(at, row)) == ledger_of(records).insert(row.version, row@),
{
    let after = records.insert(at, row);
    let want = ledger_of(records).insert(row.version, row@);
    assert forall|v: i64| ledger_of(after).contains_key(v) == want.contains_key(v) by {
        ledger_holds_rows(after, v);
        ledger_holds_rows(records, v);
        if ledger_of(after).contains_key(v) {
            let i = choose|i: int| 0 <= i < after.len() && #[trigger] after[i].version == v;
            if i < at {
                assert(records[i].version == v);
            } else if i > at {
                assert(records[i - 1].version == v);
            }
        }
        if want.contains_key(v) {
            if v == row.version {
                assert(after[at].version == v);
            } else {
                let i = choose|i: int| 0 <= i < records.len() && #[trigger] records[i].version == v;
                if i < at {
                    assert(after[i].version == v);
                } else {
                    assert(after[i + 1].version == v);
                }
            }
        }
    }
    assert forall|v: i64| ledger_of(after).contains_key(v) implies ledger_of(after)[v] == want[v] by {
        ledger_holds_rows(after, v);
        let i = choose|i: int| 0 <= i < after.len() && #[trigger] after[i].version == v;
        ledger_maps_rows(after, i);
        if i < at {
            ledger_maps_rows(records, i);
            assert(after[at].version != v);
        } else if i > at {
            ledger_maps_rows(records, i - 1);
            assert(after[at].version != v);
        }
    }
    assert(ledger_of(after) =~= want);
}

/// The rows up to a version make up the ledger rolled back to that version.
pub proof fn ledger_of_prefix(records: Seq<MigrationRecord>, keep: int, target: i64)
    requires
        ascending(records),
        0 <= keep <= records.len(),
        forall|i: int| 0 <= i < keep ==> records[i].version <= target,
        forall|i: int| keep <= i < records.len() ==> records[i].version > target,
    ensures
        ledger_of(records.take(keep)) == rolled_back(ledger_of(records), target),
{
    let kept = records.take(keep);
    let want = rolled_back(ledger_of(records), target);
    assert forall|v: i64| ledger_of(kept).contains_key(v) == want.contains_key(v) by {
        ledger_holds_rows(kept, v);
        ledger_holds_rows(records, v);
        if ledger_of(kept).contains_key(v) {
            let i = choose|i: int| 0 <= i < kept.len() && #[trigger] kept[i].version == v;
            assert(records[i].version == v);
        }
        if want.contains_key(v) {
            let i = choose|i: int| 0 <= i < records.len() && #[trigger] records[i].version == v;
            assert(kept[i].version == v);
        }
    }
    assert forall|v: i64| ledger_of(kept).contains_key(v) implies ledger_of(kept)[v] == want[v] by {
        ledger_holds_rows(kept, v);
        let i = choose|i: int| 0 <= i < kept.len() && #[trigger] kept[i].version == v;
        ledger_maps_rows(kept, i);
        ledger_maps_rows(records, i);
    }
    assert(ledger_of(kept) =~= want);
}

impl MigrationRunner {
    /// The ledger: the record of each version that has been applied.
    pub closed spec fn applied(&self) -> Map<i64, RecordView> {
        ledger_of(self.ledger@)
    }

    /// Whether the ledger's table has been set up.
    pub closed spec fn is_initialized(&self) -> bool {
        self.initialized
    }

    /// Whether the rows of the ledger stand in ascending order of version.
    pub closed spec fn wf(&self) -> bool {
        ascending(self.ledger@)
    }

    /// A runner with an empty ledger whose table is not set up yet.
    pub fn new() -> (r: Self)
        ensures
            r.wf(),
            r.applied() == Map::<i64, RecordView>::empty(),
            !r.is_initialized(),
    {
        MigrationRunner { ledger: Vec::new(), initialized: false }
    }

    /// A runner over the rows `records` of a ledger whose table is set up,
    /// provided that the rows stand in strictly ascending order of version.
    pub fn from_records(records: Vec<MigrationRecord>) -> (r: Option<Self>)
        ensures
            r is Some == ascending(records@),
            r matches Some(runner) ==> runner.wf() && runner.is_initialized() && runner.applied()
                == ledger_of(records@),
    {
        let mut i: usize = 1;
        while i < records.len()
            invariant
                1 <= i,
                forall|a: int, b: int| 0 <= a < b < i && b < records@.len() ==> records@[a].version
                    < records@[b].version,
            decreases records.len() - i,
        {
            if records[i - 1].version >= records[i].version {
                return None;
            }
            assert forall|a: int, b: int| 0 <= a < b < i + 1 && b < records@.len() implies records@[a].version
                < records@[b].version by {
                if b == i && a < i - 1 {
                    assert(records@[a].version < records@[i - 1].version);
                }
            }
            i += 1;
        }
        Some(MigrationRunner { ledger: records, initialized: true })
    }

    /// Sets up the ledger's table if it is not there. Calling it again
    /// changes nothing.
    pub fn init(&mut self) -> (r: AppResult<()>)
        ensures
            r is Ok,
            final(self).is_initialized(),
            final(self).applied() == old(self).applied(),
            old(self).wf() ==> final(self).wf(),
            old(self).is_initialized() ==> *final(self) == *old(self),
    {
        self.initialized = true;
        Ok(())
    }

    /// The position of the first row whose version is not below `version`.
    fn lower_bound(&self, version: i64) -> (at: usize)
        requires
            self.wf(),
        ensures
            at <= self.ledger@.len(),
            forall|i: int| 0 <= i < at ==> self.ledger@[i].version < version,
            forall|i: int| at <= i < self.ledger@.len() ==> self.ledger@[i].version >= version,
    {
        let mut at: usize = 0;
        while at < self.ledger.len() && self.ledger[at].version < version
            invariant
                at <= self.ledger@.len(),
                self.wf(),
                forall|i: int| 0 <= i < at ==> self.ledger@[i].version < version,
            decreases self.ledger.len() - at,
        {
            at += 1;
        }
        at
    }

    /// Whether `version` has been applied.
    pub fn is_applied(&self, version: i64) -> (r: AppResult<bool>)
        requires
            self.wf(),
        ensures
            r == Ok::<bool, AppError>(self.applied().contains_key(version)),
    {
        let at = self.lower_bound(version);
        proof {
            ledger_holds_rows(self.ledger@, version);
        }
        Ok(at < self.ledger.len() && self.ledger[at].version == version)
    }

    /// The versions that have been applied, in ascending order.
    pub fn get_applied_migrations(&self) -> (r: AppResult<Vec<i64>>)
        requires
            self.wf(),
        ensures
            r matches Ok(versions) && {
                &&& forall|i: int, j: int| 0 <= i < j < versions@.len() ==> versions@[i] < versions@[j]
                &&& forall|v: i64| versions@.contains(v) <==> self.applied().contains_key(v)
            },
    {
        let mut versions: Vec<i64> = Vec::new();
        let mut i: usize = 0;
        while i < self.ledger.len()
            invariant
                i <= self.ledger@.len(),
                versions@.len() == i,
                forall|k: int| 0 <= k < i ==> versions@[k] == self.ledger@[k].version,
            decreases self.ledger.len() - i,
        {
            versions.push(self.ledger[i].version);
            i += 1;
        }
        proof {
            assert forall|v: i64| versions@.contains(v) <==> self.applied().contains_key(v) by {
                ledger_holds_rows(self.ledger@, v);
                if versions@.contains(v) {
                    let k = choose|k: int| 0 <= k < versions@.len() && versions@[k] == v;
                    assert(self.ledger@[k].version == v);
                }
                if self.applied().contains_key(v) {
                    let k = choose|k: int|
                        0 <= k < self.ledger@.len() && #[trigger] self.ledger@[k].version == v;
                    assert(versions@[k] == v);
                }
            }
        }
        Ok(versions)
    }

    /// The highest version that has been applied, if any has.
    pub fn get_latest_version(&self) -> (r: AppResult<Option<i64>>)
        requires
            self.wf(),
        ensures
            r == Ok::<Option<i64>, AppError>(latest_of(self.applied())),
            latest_of(self.applied()) is None <==> self.applied() == Map::<i64, RecordView>::empty(),
    {
        let n = self.ledger.len();
        if n == 0 {
            assert(self.applied() =~= Map::<i64, RecordView>::empty());
            Ok(None)
        } else {
            let v = self.ledger[n - 1].version;
            proof {
                ledger_holds_rows(self.ledger@, v);
                assert forall|u: i64| self.applied().contains_key(u) implies u <= v by {
                    ledger_holds_rows(self.ledger@, u);
                }
                assert(is_latest(self.applied(), v));
            }
            Ok(Some(v))
        }
    }

    /// How many versions have been applied.
    pub fn applied_count(&self) -> (n: usize)
        requires
            self.wf(),
        ensures
            self.applied().dom().finite(),
            n == self.applied().dom().len(),
    {
        proof {
            ledger_counts_rows(self.ledger@);
        }
        self.ledger.len()
    }

    /// Forgets the ledger and its table, as if neither had ever been set up.
    pub fn clear(&mut self)
        ensures
            final(self).wf(),
            final(self).applied() == Map::<i64, RecordView>::empty(),
            !final(self).is_initialized(),
    {
        self.ledger = Vec::new();
        self.initialized = false;
    }

    /// The rows of the ledger, in ascending order of version.
    pub fn records(&self) -> (r: &Vec<MigrationRecord>)
        requires
            self.wf(),
        ensures
            ascending(r@),
            ledger_of(r@) == self.applied(),
    {
        &self.ledger
    }

    /// The checksum of a script.
    pub fn calculate_checksum(&self, content: &str) -> (r: String)
        ensures
            r@ == checksum_text(content@),
    {
        checksum(content)
    }
}

/// What a step of a batch holds.
pub struct StepView {
    pub version: i64,
    pub description: Seq<char>,
    pub up: Seq<char>,
    pub checksum: Seq<char>,
}

impl View for MigrationStep {
    type V = StepView;

    open spec fn view(&self) -> StepView {
        StepView {
            version: self.version,
            description: self.description@,
            up: self.up@,
            checksum: self.checksum@,
        }
    }
}

/// The step that applies `migration`.
pub open spec fn step_of(migration: Migration) -> StepView {
    StepView {
        version: migration.version,
        description: migration.description@,
        up: migration.up@,
        checksum: checksum_text(migration.up@),
    }
}

/// The steps of a batch: one for each script, in list order, whose version
/// the ledger does not hold.
pub open spec fn pending_steps(ledger: Map<i64, RecordView>, list: Seq<Migration>) -> Seq<StepView>
    decreases list.len(),
{
    if list.len() == 0 {
        Seq::empty()
    } else {
        let before = pending_steps(ledger, list.drop_last());
        if ledger.contains_key(list.last().version) {
            before
        } else {
            before.push(step_of(list.last()))
        }
    }
}

/// The views of a list of steps.
pub open spec fn step_views(steps: Seq<MigrationStep>) -> Seq<StepView> {
    Seq::new(steps.len(), |i: int| steps[i]@)
}

/// The script that takes `version` back: that of the first migration in
/// `list` with this version, if there is one.
pub open spec fn down_script(list: Seq<Migration>, version: i64) -> Option<Seq<char>>
    decreases list.len(),
{
    if list.len() == 0 {
        None
    } else if list[0].version == version {
        Some(list[0].down@)
    } else {
        down_script(list.drop_first(), version)
    }
}

/// The version that a rollback without a target goes back to.
pub open spec fn target_or_zero(target_version: Option<i64>) -> i64 {
    match target_version {
        Some(t) => t,
        None => 0,
    }
}

/// Whether no version occurs twice in `list`.
pub open spec fn distinct_versions(list: Seq<Migration>) -> bool {
    forall|i: int, j: int| 0 <= i < j < list.len() ==> list[i].version != list[j].version
}

/// The error of a batch in which a version that is not applied occurs twice.
pub open spec fn is_batch_error(e: AppError) -> bool {
    e.is(
        ErrorCode::DatabaseMigration,
        "Migration batch names an unapplied version twice"@,
        None,
    )
}

/// A batch keeps what the ledger holds and adds nothing but versions of its
/// list; after it, the ledger holds every version of the list.
pub proof fn migrated_holds(ledger: Map<i64, RecordView>, list: Seq<Migration>, now: i64)
    ensures
        forall|v: i64|
            #[trigger] migrated(ledger, list, now).contains_key(v) <==> ledger.contains_key(v)
                || lists_version(list, v),
        forall|v: i64| ledger.contains_key(v) ==> #[trigger] migrated(ledger, list, now)[v] == ledger[v],
    decreases list.len(),
{
    if list.len() > 0 {
        let rest = list.drop_last();
        let last = list.last();
        let before = migrated(ledger, rest, now);
        let after = migrated(ledger, list, now);
        migrated_holds(ledger, rest, now);
        assert(list[list.len() - 1].version == last.version);
        assert forall|v: i64| #[trigger] after.contains_key(v) <==> ledger.contains_key(v)
            || lists_version(list, v) by {
            assert(before.contains_key(v) <==> ledger.contains_key(v) || lists_version(rest, v));
            if lists_version(list, v) {
                let i = choose|i: int| 0 <= i < list.len() && #[trigger] list[i].version == v;
                if i < list.len() - 1 {
                    assert(rest[i].version == v);
                    assert(lists_version(rest, v));
                }
            }
            if lists_version(rest, v) {
                let i = choose|i: int| 0 <= i < rest.len() && #[trigger] rest[i].version == v;
                assert(list[i].version == v);
            }
            if v == last.version {
                assert(lists_version(list, v));
            }
        }
        assert forall|v: i64| ledger.contains_key(v) implies #[trigger] after[v] == ledger[v] by {
            assert(before.contains_key(v));
            assert(before[v] == ledger[v]);
        }
    }
}

/// A batch changes nothing where the ledger holds every version of its list.
pub proof fn migrated_without_pending(ledger: Map<i64, RecordView>, list: Seq<Migration>, now: i64)
    requires
        forall|i: int| 0 <= i < list.len() ==> ledger.contains_key(#[trigger] list[i].version),
    ensures
        migrated(ledger, list, now) == ledger,
        pending_steps(ledger, list) == Seq::<StepView>::empty(),
    decreases list.len(),
{
    if list.len() > 0 {
        let rest = list.drop_last();
        assert forall|i: int| 0 <= i < rest.len() implies ledger.contains_key(
            #[trigger] rest[i].version,
        ) by {
            assert(rest[i] == list[i]);
        }
        migrated_without_pending(ledger, rest, now);
        assert(ledger.contains_key(list[list.len() - 1].version));
    }
}

/// Applying a batch a second time is a no-op: the second run is sound, finds
/// nothing pending and leaves the ledger, and so the applied versions, as
/// the first run left them.
pub proof fn migrate_twice_is_migrate_once(
    ledger: Map<i64, RecordView>,
    list: Seq<Migration>,
    first: i64,
    second: i64,
)
    ensures
        batch_is_sound(migrated(ledger, list, first), list),
        pending_steps(migrated(ledger, list, first), list) == Seq::<StepView>::empty(),
        migrated(migrated(ledger, list, first), list, second) == migrated(ledger, list, first),
{
    let once = migrated(ledger, list, first);
    migrated_holds(ledger, list, first);
    assert forall|i: int| 0 <= i < list.len() implies once.contains_key(#[trigger] list[i].version) by {
        assert(lists_version(list, list[i].version));
    }
    migrated_without_pending(once, list, second);
}

/// Rolling back to any target and then applying a list of distinct versions
/// is sound and leaves applied: the versions of the list, and what the
/// ledger held up to the target. Where the ledger held only versions of the
/// list, the applied versions are again those of the full list. The records
/// up to the target are the ones the ledger held.
pub proof fn rollback_then_migrate_restores(
    ledger: Map<i64, RecordView>,
    list: Seq<Migration>,
    target: i64,
    now: i64,
)
    requires
        distinct_versions(list),
    ensures
        batch_is_sound(rolled_back(ledger, target), list),
        forall|v: i64|
            #[trigger] migrated(rolled_back(ledger, target), list, now).contains_key(v) <==> (
            ledger.contains_key(v) && v <= target) || lists_version(list, v),
        (forall|v: i64| ledger.contains_key(v) ==> lists_version(list, v)) ==> forall|v: i64|
            #[trigger] migrated(rolled_back(ledger, target), list, now).contains_key(v)
                <==> lists_version(list, v),
        forall|v: i64|
            ledger.contains_key(v) && v <= target ==> #[trigger] migrated(
                rolled_back(ledger, target),
                list,
                now,
            )[v] == ledger[v],
{
    migrated_holds(rolled_back(ledger, target), list, now);
}

impl MigrationRunner {
    /// Whether the batch `migrations` can be applied.
    pub fn batch_sound(&self, migrations: &[Migration]) -> (r: bool)
        requires
            self.wf(),
        ensures
            r == batch_is_sound(self.applied(), migrations@),
    {
        let mut j: usize = 0;
        while j < migrations.len()
            invariant
                j <= migrations@.len(),
                self.wf(),
                forall|a: int, b: int|
                    0 <= a < b < j && migrations@[a].version == migrations@[b].version
                        ==> self.applied().contains_key(#[trigger] migrations@[a].version)
                        || self.applied().contains_key(#[trigger] migrations@[b].version),
            decreases migrations.len() - j,
        {
            let held = self.holds(migrations[j].version);
            if !held {
                let mut i: usize = 0;
                while i < j
                    invariant
                        i <= j < migrations@.len(),
                        !self.applied().contains_key(migrations@[j as int].version),
                        forall|a: int| 0 <= a < i ==> migrations@[a].version != migrations@[j as int].version,
                    decreases j - i,
                {
                    if migrations[i].version == migrations[j].version {
                        assert(!(self.applied().contains_key(migrations@[i as int].version)
                            || self.applied().contains_key(migrations@[j as int].version)));
                        return false;
                    }
                    i += 1;
                }
            }
            j += 1;
        }
        true
    }

    /// Whether `version` has been applied.
    fn holds(&self, version: i64) -> (r: bool)
        requires
            self.wf(),
        ensures
            r == self.applied().contains_key(version),
    {
        let at = self.lower_bound(version);
        proof {
            ledger_holds_rows(self.ledger@, version);
        }
        at < self.ledger.len() && self.ledger[at].version == version
    }

    /// The steps that the batch `migrations` would run, in list order. A
    /// batch that names twice a version that is not applied has no steps: it
    /// is refused.
    pub fn migration_plan(&self, migrations: &[Migration]) -> (r: AppResult<Vec<MigrationStep>>)
        requires
            self.wf(),
        ensures
            r is Ok == batch_is_sound(self.applied(), migrations@),
            r matches Ok(steps) ==> step_views(steps@) == pending_steps(self.applied(), migrations@),
            r matches Err(e) ==> is_batch_error(e),
    {
        if !self.batch_sound(migrations) {
            return Err(
                AppError::new(
                    ErrorCode::DatabaseMigration,
                    "Migration batch names an unapplied version twice",
                ),
            );
        }
        let mut steps: Vec<MigrationStep> = Vec::new();
        let mut i: usize = 0;
        assert(migrations@.take(0) =~= Seq::<Migration>::empty());
        assert(step_views(steps@) =~= Seq::<StepView>::empty());
        while i < migrations.len()
            invariant
                i <= migrations@.len(),
                self.wf(),
                step_views(steps@) == pending_steps(self.applied(), migrations@.take(i as int)),
            decreases migrations.len() - i,
        {
            assert(migrations@.take(i + 1).drop_last() =~= migrations@.take(i as int));
            if !self.holds(migrations[i].version) {
                let ghost before = step_views(steps@);
                let step = MigrationStep {
                    version: migrations[i].version,
                    description: migrations[i].description.clone(),
                    up: migrations[i].up.clone(),
                    checksum: checksum(migrations[i].up.as_str()),
                };
                steps.push(step);
                assert(step_views(steps@) =~= before.push(step_of(migrations@[i as int])));
            }
            i += 1;
        }
        assert(migrations@.take(migrations@.len() as int) =~= migrations@);
        Ok(steps)
    }

    /// Applies the batch `migrations` at the time `now`: each script, in list
    /// order, whose version is not applied yet adds its record. The batch is
    /// applied whole or, where it names twice a version that is not applied,
    /// not at all. The ledger's table is set up either way.
    pub fn migrate_at(&mut self, migrations: &[Migration], now: i64) -> (r: AppResult<()>)
        requires
            old(self).wf(),
        ensures
            final(self).wf(),
            final(self).is_initialized(),
            r is Ok == batch_is_sound(old(self).applied(), migrations@),
            r is Ok ==> final(self).applied() == migrated(old(self).applied(), migrations@, now),
            r matches Err(e) ==> final(self).applied() == old(self).applied() && is_batch_error(e),
    {
        self.initialized = true;
        if !self.batch_sound(migrations) {
            return Err(
                AppError::new(
                    ErrorCode::DatabaseMigration,
                    "Migration batch names an unapplied version twice",
                ),
            );
        }
        let mut i: usize = 0;
        assert(migrations@.take(0) =~= Seq::<Migration>::empty());
        while i < migrations.len()
            invariant
                i <= migrations@.len(),
                self.wf(),
                self.initialized,
                self.applied() == migrated(old(self).applied(), migrations@.take(i as int), now),
            decreases migrations.len() - i,
        {
            assert(migrations@.take(i + 1).drop_last() =~= migrations@.take(i as int));
            let version = migrations[i].version;
            let at = self.lower_bound(version);
            proof {
                ledger_holds_rows(self.ledger@, version);
            }
            if !(at < self.ledger.len() && self.ledger[at].version == version) {
                let row = MigrationRecord {
                    version,
                    description: migrations[i].description.clone(),
                    applied_at: now,
                    checksum: checksum(migrations[i].up.as_str()),
                };
                proof {
                    let after = self.ledger@.insert(at as int, row);
                    assert forall|a: int, b: int| 0 <= a < b < after.len() implies after[a].version
                        < after[b].version by {
                        if a < at && b > at {
                            assert(after[a] == self.ledger@[a]);
                            assert(after[b] == self.ledger@[b - 1]);
                        }
                    }
                    ledger_of_insert(self.ledger@, at as int, row);
                    assert(row@ == record_of(migrations@[i as int], now));
                }
                self.ledger.insert(at, row);
            }
            i += 1;
        }
        assert(migrations@.take(migrations@.len() as int) =~= migrations@);
        Ok(())
    }

    /// Applies the batch `migrations`, recording the time of the call.
    pub fn migrate(&mut self, migrations: &[Migration]) -> (r: AppResult<()>)
        requires
            old(self).wf(),
        ensures
            final(self).wf(),
            final(self).is_initialized(),
            r is Ok == batch_is_sound(old(self).applied(), migrations@),
            r is Ok ==> exists|now: i64|
                final(self).applied() == migrated(old(self).applied(), migrations@, now),
            r matches Err(e) ==> final(self).applied() == old(self).applied() && is_batch_error(e),
    {
        let now = now_micros();
        self.migrate_at(migrations, now)
    }

    /// Removes from the ledger every version above the target, newest first.
    /// Without a target, every version above 0 goes.
    pub fn rollback(&mut self, target_version: Option<i64>) -> (r: AppResult<()>)
        requires
            old(self).wf(),
        ensures
            r is Ok,
            final(self).wf(),
            final(self).is_initialized() == old(self).is_initialized(),
            final(self).applied() == rolled_back(old(self).applied(), target_or_zero(target_version)),
    {
        let target: i64 = match target_version {
            Some(t) => t,
            None => 0,
        };
        assert(self.ledger@.take(self.ledger@.len() as int) =~= self.ledger@);
        while self.ledger.len() > 0 && self.ledger[self.ledger.len() - 1].version > target
            invariant
                self.initialized == old(self).initialized,
                ascending(old(self).ledger@),
                self.ledger@.len() <= old(self).ledger@.len(),
                self.ledger@ == old(self).ledger@.take(self.ledger@.len() as int),
                forall|i: int|
                    self.ledger@.len() <= i < old(self).ledger@.len() ==> old(self).ledger@[i].version
                        > target,
            decreases self.ledger.len(),
        {
            self.ledger.pop();
            assert(self.ledger@ =~= old(self).ledger@.take(self.ledger@.len() as int));
        }
        proof {
            let keep = self.ledger@.len() as int;
            assert forall|i: int| 0 <= i < keep implies old(self).ledger@[i].version <= target by {
                assert(self.ledger@[keep - 1] == old(self).ledger@[keep - 1]);
            }
            ledger_of_prefix(old(self).ledger@, keep, target);
        }
        Ok(())
    }

    /// The steps that a rollback to the target would take: the versions above
    /// the target, newest first, each with the script that takes it back
    /// where `migrations` holds one.
    pub fn rollback_plan(&self, migrations: &[Migration], target_version: Option<i64>) -> (steps: Vec<
        RollbackStep,
    >)
        requires
            self.wf(),
        ensures
            forall|i: int, j: int| 0 <= i < j < steps@.len() ==> steps@[i].version > steps@[j].version,
            forall|v: i64|
                (exists|i: int| 0 <= i < steps@.len() && #[trigger] steps@[i].version == v) <==> (
                self.applied().contains_key(v) && v > target_or_zero(target_version)),
            forall|i: int|
                0 <= i < steps@.len() ==> crate::text::opt_view(#[trigger] steps@[i].down)
                    == down_script(migrations@, steps@[i].version),
    {
        let target: i64 = match target_version {
            Some(t) => t,
            None => 0,
        };
        let n = self.ledger.len();
        let mut steps: Vec<RollbackStep> = Vec::new();
        let mut k: usize = n;
        while k > 0 && self.ledger[k - 1].version > target
            invariant
                k <= n,
                n == self.ledger@.len(),
                self.wf(),
                steps@.len() == n - k,
                forall|i: int| 0 <= i < steps@.len() ==> #[trigger] steps@[i].version == self.ledger@[n - 1
                    - i].version,
                forall|i: int| k <= i < n ==> self.ledger@[i].version > target,
                forall|i: int|
                    0 <= i < steps@.len() ==> crate::text::opt_view(#[trigger] steps@[i].down)
                        == down_script(migrations@, steps@[i].version),
            decreases k,
        {
            let version = self.ledger[k - 1].version;
            steps.push(RollbackStep { version, down: find_down(migrations, version) });
            k -= 1;
        }
        proof {
            assert forall|v: i64|
                (exists|i: int| 0 <= i < steps@.len() && #[trigger] steps@[i].version == v) <==> (
                self.applied().contains_key(v) && v > target) by {
                ledger_holds_rows(self.ledger@, v);
                if exists|i: int| 0 <= i < steps@.len() && #[trigger] steps@[i].version == v {
                    let i = choose|i: int| 0 <= i < steps@.len() && #[trigger] steps@[i].version == v;
                    assert(self.ledger@[n - 1 - i].version == v);
                }
                if self.applied().contains_key(v) && v > target {
                    let i = choose|i: int|
                        0 <= i < self.ledger@.len() && #[trigger] self.ledger@[i].version == v;
                    if i < k {
                        assert(self.ledger@[k - 1].version <= target);
                    }
                    assert(steps@[n - 1 - i].version == v);
                }
            }
        }
        steps
    }
}

/// The script that takes `version` back, if `migrations` holds one.
pub fn find_down(migrations: &[Migration], version: i64) -> (down: Option<String>)
    ensures
        crate::text::opt_view(down) == down_script(migrations@, version),
{
    let mut i: usize = 0;
    assert(migrations@.skip(0) =~= migrations@);
    while i < migrations.len()
        invariant
            i <= migrations@.len(),
            down_script(migrations@, version) == down_script(migrations@.skip(i as int), version),
        decreases migrations.len() - i,
    {
        assert(migrations@.skip(i as int).drop_first() =~= migrations@.skip(i + 1));
        if migrations[i].version == version {
            return Some(migrations[i].down.clone());
        }
        i += 1;
    }
    None
}

/// The checksum of a script.
pub fn checksum(content: &str) -> (r: String)
    ensures
        r@ == checksum_text(content@),
{
    let mut hasher = DefaultHasher::new();
    hasher.write(content.as_bytes());
    let mut end: Vec<u8> = Vec::new();
    end.push(0xff);
    hasher.write(end.as_slice());
    assert(end@ =~= seq![0xffu8]);
    assert(hasher@ =~= seq![encode_utf8(content@), seq![0xffu8]]);
    let h = hasher.finish();
    let mut r = String::new();
    push_lower_hex(&mut r, h);
    r
}

} // verus!
