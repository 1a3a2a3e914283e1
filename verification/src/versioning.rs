//! Version history and data migration of a deployment.
//!
//! The history lists the versions that the deployment has gone through, the
//! status tells how the latest migration ended. Both live in the durable
//! store. What a migration does to the data is for a [`MigrationHandler`]
//! to say.

use vstd::prelude::*;
use crate::ids::{contains_id, id_seq, Id};
use crate::keys::{KeyView, DataKey};
use crate::store::{DurableStore, StoreState};

verus! {

/// Why a versioning operation failed.
#[derive(Clone, Copy, Debug, PartialEq, Eq, Structural)]
pub enum VersioningError {
    /// The version is not well formed.
    InvalidVersion,
    /// The version is not in the history.
    VersionNotFound,
    /// No migration leads from one version to the other.
    MigrationNotCompatible,
    /// The migration has been carried out before.
    MigrationAlreadyCompleted,
    /// The caller may not migrate.
    UnauthorizedMigration,
    /// The migration did not go through.
    MigrationFailed,
}

impl VersioningError {
    /// The number under which the error is reported.
    pub fn code(&self) -> (code: u32)
        ensures
            code == match *self {
                VersioningError::InvalidVersion => 1u32,
                VersioningError::VersionNotFound => 2u32,
                VersioningError::MigrationNotCompatible => 3u32,
                VersioningError::MigrationAlreadyCompleted => 4u32,
                VersioningError::UnauthorizedMigration => 5u32,
                VersioningError::MigrationFailed => 6u32,
            },
    {
        match self {
            VersioningError::InvalidVersion => 1,
            VersioningError::VersionNotFound => 2,
            VersioningError::MigrationNotCompatible => 3,
            VersioningError::MigrationAlreadyCompleted => 4,
            VersioningError::UnauthorizedMigration => 5,
            VersioningError::MigrationFailed => 6,
        }
    }
}

/// What a deployment contributes to a migration.
pub trait MigrationHandler {
    /// Whether `caller` may migrate.
    fn is_authorized_for_migration(&self, caller: &String) -> bool;

    /// Transforms the deployment's data; tells whether that went through.
    fn perform_data_migration(&mut self, from_version: &String, to_version: &String) -> bool;

    /// The prefix under which the deployment announces migrations.
    fn get_migration_event_prefix(&self) -> String;
}

/// The announcement of a migration, for an event sink to publish.
#[derive(Debug, PartialEq, Eq)]
pub struct MigrationEvent {
    pub prefix: String,
    pub kind: String,
    pub from_version: String,
    pub to_version: String,
    pub success: bool,
}

/// The stored version history, oldest first; empty if none was stored.
pub open spec fn version_history(s: StoreState) -> Seq<Id> {
    s.list(KeyView::VersionHistory)
}

/// The stored migration status; a fixed text if none was stored.
pub open spec fn migration_status(s: StoreState) -> Seq<char> {
    if s.list(KeyView::MigrationStatus).len() > 0 {
        s.list(KeyView::MigrationStatus)[0]
    } else {
        "No migrations pending"@
    }
}

/// The store after `status` is recorded.
pub open spec fn with_status(s: StoreState, status: Seq<char>) -> StoreState {
    s.set(KeyView::MigrationStatus, seq![status])
}

/// The store after `version` is appended to the history.
pub open spec fn with_version(s: StoreState, version: Id) -> StoreState {
    s.set(KeyView::VersionHistory, version_history(s).push(version))
}

/// The store after the checks that precede a migration: a refusal is
/// recorded in the status, a go-ahead changes nothing.
pub open spec fn after_begin(s: StoreState, authorized: bool, from_version: Id) -> StoreState {
    if !authorized {
        with_status(s, "Migration failed: Unauthorized"@)
    } else if !version_history(s).contains(from_version) {
        with_status(s, "Migration failed: Source version not found"@)
    } else {
        s
    }
}

/// The store after a migration was attempted: success appends the new
/// version to the history, and either outcome is recorded in the status.
pub open spec fn after_conclude(s: StoreState, migrated: bool, to_version: Id) -> StoreState {
    if migrated {
        with_status(with_version(s, to_version), "Migration completed successfully"@)
    } else {
        with_status(s, "Migration failed: Data transformation error"@)
    }
}

/// What a failed migration leaves behind: the caller was not authorized, or
/// the source version was not in the history, or the data could not be
/// transformed. In each case only the status has changed.
pub open spec fn refused(before: StoreState, now: StoreState, from_version: Id, to_version: Id) -> bool {
    ||| now == after_begin(before, false, from_version)
    ||| !version_history(before).contains(from_version) && now == after_begin(
        before,
        true,
        from_version,
    )
    ||| version_history(before).contains(from_version) && now == after_conclude(
        before,
        false,
        to_version,
    )
}

/// The versions that the deployment has gone through, oldest first.
pub fn get_version_history<S: DurableStore>(store: &S) -> (history: Vec<String>)
    requires
        store.inv(),
    ensures
        id_seq(&history) == version_history(store.state()),
{
    let history = match store.get(&DataKey::VersionHistory) {
        Some(stored) => stored,
        None => Vec::new(),
    };
    history
}

/// Appends `version` to the history.
pub fn store_version_in_history<S: DurableStore>(store: &mut S, version: String)
    requires
        old(store).inv(),
    ensures
        final(store).inv(),
        final(store).state() == with_version(old(store).state(), version@),
{
    let mut history = get_version_history(store);
    let ghost before = id_seq(&history);
    history.push(version);
    assert(id_seq(&history) =~= before.push(version@));
    store.set(&DataKey::VersionHistory, &history);
}

/// Whether `version` is in the history.
pub fn version_exists_in_history<S: DurableStore>(store: &S, version: &String) -> (found: bool)
    requires
        store.inv(),
    ensures
        found == version_history(store.state()).contains(version@),
{
    let history = get_version_history(store);
    contains_id(&history, version)
}

/// How the latest migration ended; a fixed text if none was attempted.
pub fn get_migration_status<S: DurableStore>(store: &S) -> (status: String)
    requires
        store.inv(),
    ensures
        status@ == migration_status(store.state()),
{
    match store.get(&DataKey::MigrationStatus) {
        Some(stored) => {
            if stored.len() > 0 {
                stored[0].clone()
            } else {
                "No migrations pending".to_owned()
            }
        },
        None => "No migrations pending".to_owned(),
    }
}

/// Records `status` as the outcome of the latest migration.
pub fn set_migration_status<S: DurableStore>(store: &mut S, status: String)
    requires
        old(store).inv(),
    ensures
        final(store).inv(),
        final(store).state() == with_status(old(store).state(), status@),
{
    let mut stored: Vec<String> = Vec::new();
    stored.push(status);
    assert(id_seq(&stored) =~= seq![status@]);
    store.set(&DataKey::MigrationStatus, &stored);
}

/// Whether a migration can lead from one version to the other: any can.
pub fn is_version_compatible(from_version: &String, to_version: &String) -> (compatible: bool)
    ensures
        compatible,
{
    true
}

/// The migration from 1.0.0 to 1.1.0 has nothing to transform and succeeds.
pub fn migrate_v1_0_0_to_v1_1_0() -> (migrated: bool)
    ensures
        migrated,
{
    true
}

/// The checks that precede a migration, given whether the caller is
/// authorized. The migration may go ahead if the caller is authorized and
/// the source version is in the history; a refusal is recorded in the status.
pub fn begin_migration<S: DurableStore>(
    store: &mut S,
    authorized: bool,
    from_version: &String,
    to_version: &String,
) -> (proceed: bool)
    requires
        old(store).inv(),
    ensures
        final(store).inv(),
        proceed == (authorized && version_history(old(store).state()).contains(from_version@)),
        final(store).state() == after_begin(old(store).state(), authorized, from_version@),
{
    if !authorized {
        set_migration_status(store, "Migration failed: Unauthorized".to_owned());
        return false;
    }
    if !version_exists_in_history(store, from_version) {
        set_migration_status(store, "Migration failed: Source version not found".to_owned());
        return false;
    }
    if !is_version_compatible(from_version, to_version) {
        set_migration_status(store, "Migration failed: Versions not compatible".to_owned());
        return false;
    }
    true
}

/// The bookkeeping that follows a migration, given whether the data was
/// transformed: on success the new version joins the history; either
/// outcome is recorded in the status and returned.
pub fn conclude_migration<S: DurableStore>(store: &mut S, migrated: bool, to_version: &String) -> (done:
    bool)
    requires
        old(store).inv(),
    ensures
        final(store).inv(),
        done == migrated,
        final(store).state() == after_conclude(old(store).state(), migrated, to_version@),
{
    if migrated {
        store_version_in_history(store, to_version.clone());
        set_migration_status(store, "Migration completed successfully".to_owned());
        true
    } else {
        set_migration_status(store, "Migration failed: Data transformation error".to_owned());
        false
    }
}

/// The announcement of a migration that was attempted.
pub fn emit_migration_event<T: MigrationHandler>(
    handler: &T,
    from_version: &String,
    to_version: &String,
    success: bool,
) -> (event: MigrationEvent)
    ensures
        event.success == success,
        event.from_version@ == from_version@,
        event.to_version@ == to_version@,
        event.kind@ == if success {
            "success"@
        } else {
            "failure"@
        },
{
    let kind = if success {
        "success".to_owned()
    } else {
        "failure".to_owned()
    };
    MigrationEvent {
        prefix: handler.get_migration_event_prefix(),
        kind,
        from_version: from_version.clone(),
        to_version: to_version.clone(),
        success,
    }
}

/// Migrates the deployment from one version to another.
///
/// The handler is asked whether the caller is authorized. If so, and if the
/// source version is in the history, the handler transforms the data. The
/// migration succeeds only if that went through; then the new version has
/// joined the history. Whatever the handler answers, a failed migration
/// leaves the history as it was, and the status tells how the attempt ended.
pub fn migrate_contract_data<T: MigrationHandler, S: DurableStore>(
    store: &mut S,
    handler: &mut T,
    caller: &String,
    from_version: String,
    to_version: String,
) -> (done: bool)
    requires
        old(store).inv(),
    ensures
        final(store).inv(),
        done ==> version_history(old(store).state()).contains(from_version@),
        done ==> final(store).state() == after_conclude(old(store).state(), true, to_version@),
        !done ==> refused(old(store).state(), final(store).state(), from_version@, to_version@),
{
    let authorized = handler.is_authorized_for_migration(caller);
    if !begin_migration(store, authorized, &from_version, &to_version) {
        return false;
    }
    let migrated = handler.perform_data_migration(&from_version, &to_version);
    conclude_migration(store, migrated, &to_version)
}

/// The migration handler of the access records: anyone may migrate, and
/// the records need no transformation.
pub struct AccessMigration;

impl MigrationHandler for AccessMigration {
    fn is_authorized_for_migration(&self, caller: &String) -> (authorized: bool)
        ensures
            authorized,
    {
        true
    }

    fn perform_data_migration(&mut self, from_version: &String, to_version: &String) -> (migrated:
        bool)
        ensures
            migrated,
    {
        migrate_v1_0_0_to_v1_1_0()
    }

    fn get_migration_event_prefix(&self) -> (prefix: String)
        ensures
            prefix@ == "access_migration"@,
    {
        "access_migration".to_owned()
    }
}

/// Migrates the access records from one version to another. This succeeds
/// exactly when the source version is in the history; then the new version
/// joins the history. The status tells how the attempt ended.
pub fn migrate_access_data<S: DurableStore>(
    store: &mut S,
    caller: &String,
    from_version: String,
    to_version: String,
) -> (done: bool)
    requires
        old(store).inv(),
    ensures
        final(store).inv(),
        done == version_history(old(store).state()).contains(from_version@),
        final(store).state() == if done {
            after_conclude(old(store).state(), true, to_version@)
        } else {
            after_begin(old(store).state(), true, from_version@)
        },
{
    let mut handler = AccessMigration;
    let authorized = handler.is_authorized_for_migration(caller);
    if !begin_migration(store, authorized, &from_version, &to_version) {
        return false;
    }
    let migrated = handler.perform_data_migration(&from_version, &to_version);
    conclude_migration(store, migrated, &to_version)
}

} // verus!
