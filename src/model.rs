use vstd::prelude::*;

verus! {

/// Closed classification of a package's install/enable status.
#[derive(Clone, Copy, Debug, PartialEq, Eq, Structural)]
pub enum PackageState {
    Enabled,
    Uninstalled,
    Disabled,
}

/// An on-device user profile: `id` is the persistent identity, `index` is a
/// session-local position in the caller's live package tables.
#[derive(Clone, Copy, Debug, PartialEq, Eq, Structural)]
pub struct User {
    pub id: u16,
    pub index: usize,
}

/// One package as recorded in a snapshot.
#[derive(Clone, Debug, PartialEq, Eq)]
pub struct CorePackage {
    pub name: String,
    pub state: PackageState,
}

/// One package row of a live table, as the caller shows it; only `name` and
/// `state` are recorded in a snapshot.
#[derive(Clone, Debug, PartialEq, Eq)]
pub struct PackageRow {
    pub name: String,
    pub state: PackageState,
    pub description: String,
    pub selected: bool,
}

/// The recorded packages of one user.
#[derive(Clone, Debug, PartialEq, Eq)]
pub struct UserBackup {
    pub id: u16,
    pub packages: Vec<CorePackage>,
}

/// One point-in-time capture of a device's multi-user package state.
#[derive(Clone, Debug, PartialEq, Eq)]
pub struct PhoneBackup {
    pub device_id: String,
    pub users: Vec<UserBackup>,
}

/// Mathematical value of a recorded package: its name and its state.
pub type PackageModel = (Seq<char>, PackageState);

/// Mathematical value of a user's record: its id and its packages, in order.
pub type UserModel = (u16, Seq<PackageModel>);

/// Mathematical value of a snapshot.
pub struct BackupModel {
    pub device_id: Seq<char>,
    pub users: Seq<UserModel>,
}

impl View for CorePackage {
    type V = PackageModel;

    open spec fn view(&self) -> PackageModel {
        (self.name@, self.state)
    }
}

impl View for PackageRow {
    type V = PackageModel;

    /// A row seen as the package record it contributes to a snapshot.
    open spec fn view(&self) -> PackageModel {
        (self.name@, self.state)
    }
}

impl View for UserBackup {
    type V = UserModel;

    open spec fn view(&self) -> UserModel {
        (self.id, self.packages@.map_values(|p: CorePackage| p@))
    }
}

impl View for PhoneBackup {
    type V = BackupModel;

    open spec fn view(&self) -> BackupModel {
        BackupModel {
            device_id: self.device_id@,
            users: self.users@.map_values(|u: UserBackup| u@),
        }
    }
}

} // verus!
