use vstd::prelude::*;

use crate::model::{BackupModel, CorePackage, PackageModel, PackageRow, PhoneBackup, User, UserBackup, UserModel};

verus! {

/// The live tables as plain sequences of rows, one table per user index.
pub open spec fn tables_view(tables: Seq<Vec<PackageRow>>) -> Seq<Seq<PackageRow>> {
    tables.map_values(|t: Vec<PackageRow>| t@)
}

/// The record of user `u`: its persistent id paired with `{name, state}` of
/// every row of its live table, in table order.
pub open spec fn user_record(u: User, tables: Seq<Seq<PackageRow>>) -> UserModel {
    (u.id, tables[u.index as int].map_values(|r: PackageRow| r@))
}

/// Every user addresses an existing live table.
pub open spec fn indexes_in_range(users: Seq<User>, tables: Seq<Seq<PackageRow>>) -> bool {
    forall|i: int| 0 <= i < users.len() ==> (#[trigger] users[i]).index < tables.len()
}

/// The snapshot that a backup of `users` on `device_id` records.
pub open spec fn snapshot_of(
    users: Seq<User>,
    device_id: Seq<char>,
    tables: Seq<Seq<PackageRow>>,
) -> BackupModel {
    BackupModel {
        device_id,
        users: users.map_values(|u: User| user_record(u, tables)),
    }
}

/// The recorded packages of one live table: `{name, state}` of each row.
fn record_rows(rows: &Vec<PackageRow>) -> (r: Vec<CorePackage>)
    ensures
        r@.map_values(|p: CorePackage| p@) == rows@.map_values(|x: PackageRow| x@),
{
    let mut out: Vec<CorePackage> = Vec::new();
    let mut j: usize = 0;
    while j < rows.len()
        invariant
            j <= rows.len(),
            out@.len() == j,
            forall|k: int| 0 <= k < j ==> (#[trigger] out@[k])@ == rows@[k]@,
        decreases rows.len() - j,
    {
        let row = &rows[j];
        out.push(CorePackage { name: row.name.clone(), state: row.state });
        j = j + 1;
    }
    assert(out@.map_values(|p: CorePackage| p@) =~= rows@.map_values(|x: PackageRow| x@));
    out
}

/// Builds the snapshot of `users` on `device_id`: each user's persistent id
/// with `{name, state}` of every row of the live table at its index, users
/// and rows in the given order; all other row fields are dropped.
pub fn build_backup(
    users: &Vec<User>,
    device_id: String,
    phone_packages: &Vec<Vec<PackageRow>>,
) -> (r: PhoneBackup)
    requires
        indexes_in_range(users@, tables_view(phone_packages@)),
    ensures
        r@ == snapshot_of(users@, device_id@, tables_view(phone_packages@)),
{
    let ghost tables = tables_view(phone_packages@);
    let mut records: Vec<UserBackup> = Vec::new();
    let mut i: usize = 0;
    while i < users.len()
        invariant
            i <= users.len(),
            tables == tables_view(phone_packages@),
            indexes_in_range(users@, tables),
            records@.len() == i,
            forall|k: int|
                0 <= k < i ==> (#[trigger] records@[k])@ == user_record(users@[k], tables),
        decreases users.len() - i,
    {
        let u = users[i];
        assert(users@[i as int].index < tables.len());
        let packages = record_rows(&phone_packages[u.index]);
        records.push(UserBackup { id: u.id, packages });
        i = i + 1;
    }
    assert(records@.map_values(|u: UserBackup| u@) =~= users@.map_values(
        |u: User| user_record(u, tables),
    ));
    PhoneBackup { device_id, users: records }
}

/// The users of a snapshot offered for selection: each recorded id, in
/// stored order, with index 0.
pub open spec fn selection_users(backup: PhoneBackup) -> Seq<User> {
    backup.users@.map_values(|u: UserBackup| User { id: u.id, index: 0 })
}

/// The users recorded in a snapshot, for selection: one per recorded user,
/// in stored order, with the recorded id and index reset to 0, to be
/// resolved again against the live device before any lookup.
pub fn backup_users(backup: &PhoneBackup) -> (r: Vec<User>)
    ensures
        r@ == selection_users(*backup),
{
    let mut out: Vec<User> = Vec::new();
    let mut i: usize = 0;
    while i < backup.users.len()
        invariant
            i <= backup.users.len(),
            out@.len() == i,
            forall|k: int|
                0 <= k < i ==> #[trigger] out@[k] == (User { id: backup.users@[k].id, index: 0 }),
        decreases backup.users.len() - i,
    {
        out.push(User { id: backup.users[i].id, index: 0 });
        i = i + 1;
    }
    assert(out@ =~= selection_users(*backup));
    out
}

/// Selecting users from a snapshot just built of `users` offers exactly
/// those users, in order, each by its persistent id with index 0.
pub proof fn lemma_selection_of_built_backup(
    users: Seq<User>,
    device_id: Seq<char>,
    tables: Seq<Seq<PackageRow>>,
    backup: PhoneBackup,
)
    requires
        backup@ == snapshot_of(users, device_id, tables),
    ensures
        selection_users(backup) == users.map_values(|u: User| User { id: u.id, index: 0 }),
{
    assert(backup.users@.len() == backup@.users.len());
    assert forall|i: int| 0 <= i < users.len() implies #[trigger] backup.users@[i].id == users[i].id by {
        assert(backup@.users[i] == backup.users@[i]@);
    }
    assert(selection_users(backup) =~= users.map_values(|u: User| User { id: u.id, index: 0 }));
}

} // verus!
