use std::cell::RefCell;

use uad_backup::listing::{list_available_backup_user, list_available_backups};
use uad_backup::model::{CorePackage, PackageRow, PackageState, PhoneBackup, User, UserBackup};
use uad_backup::naming::{backup_file_name, new_backup_file_name};
use uad_backup::restore::{plan_restore, restore_backup, Action, RestoreSettings};
use uad_backup::snapshot::{backup_users, build_backup};

fn row(name: &str, state: PackageState) -> PackageRow {
    PackageRow {
        name: name.to_string(),
        state,
        description: format!("about {}", name),
        selected: true,
    }
}

fn pkg(name: &str, state: PackageState) -> CorePackage {
    CorePackage { name: name.to_string(), state }
}

fn collapsed(target: User) -> RestoreSettings {
    RestoreSettings { selected_user: target, collapse_users_on_restore: true, live_users: vec![] }
}

fn two_user_backup() -> PhoneBackup {
    PhoneBackup {
        device_id: "dev".to_string(),
        users: vec![
            UserBackup { id: 1, packages: vec![pkg("a.app", PackageState::Disabled)] },
            UserBackup { id: 2, packages: vec![pkg("b.app", PackageState::Uninstalled)] },
        ],
    }
}

#[test]
fn build_backup_pairs_ids_with_rows_of_their_index() {
    let users = vec![User { id: 10, index: 1 }, User { id: 0, index: 0 }];
    let tables = vec![
        vec![row("x.app", PackageState::Enabled)],
        vec![row("y.app", PackageState::Disabled), row("z.app", PackageState::Uninstalled)],
    ];
    let b = build_backup(&users, "serial-1".to_string(), &tables);
    let expected = PhoneBackup {
        device_id: "serial-1".to_string(),
        users: vec![
            UserBackup {
                id: 10,
                packages: vec![
                    pkg("y.app", PackageState::Disabled),
                    pkg("z.app", PackageState::Uninstalled),
                ],
            },
            UserBackup { id: 0, packages: vec![pkg("x.app", PackageState::Enabled)] },
        ],
    };
    assert_eq!(b, expected);
}

#[test]
fn build_backup_of_no_users_is_empty() {
    let b = build_backup(&vec![], "d".to_string(), &vec![vec![row("x", PackageState::Enabled)]]);
    assert_eq!(b.device_id, "d");
    assert!(b.users.is_empty());
}

#[test]
fn build_backup_keeps_empty_tables() {
    let b = build_backup(&vec![User { id: 3, index: 0 }], "d".to_string(), &vec![vec![]]);
    assert_eq!(b.users, vec![UserBackup { id: 3, packages: vec![] }]);
}

#[test]
fn listing_that_cannot_be_opened_is_empty() {
    let listing: Result<Vec<Result<String, String>>, String> = Err("no such directory".to_string());
    assert!(list_available_backups(listing).is_empty());
}

#[test]
fn listing_skips_unresolved_entries() {
    let entries: Vec<Result<String, String>> = vec![
        Ok("2024-01-01-10-00.json".to_string()),
        Err("permission denied".to_string()),
        Ok("2024-01-02-10-00.json".to_string()),
        Err("vanished".to_string()),
        Ok("2024-01-03-10-00.json".to_string()),
    ];
    let kept = list_available_backups(Ok(entries));
    assert_eq!(
        kept,
        vec![
            "2024-01-01-10-00.json".to_string(),
            "2024-01-02-10-00.json".to_string(),
            "2024-01-03-10-00.json".to_string(),
        ]
    );
}

#[test]
fn listing_of_only_unresolved_entries_is_empty() {
    let entries: Vec<Result<u32, ()>> = vec![Err(()), Err(())];
    assert!(list_available_backups(Ok(entries)).is_empty());
}

#[test]
fn selection_users_have_recorded_ids_and_index_zero() {
    let b = PhoneBackup {
        device_id: "dev".to_string(),
        users: vec![
            UserBackup { id: 1, packages: vec![] },
            UserBackup { id: 7, packages: vec![pkg("c.app", PackageState::Enabled)] },
        ],
    };
    let users = list_available_backup_user::<String>(Ok(b));
    assert_eq!(users, vec![User { id: 1, index: 0 }, User { id: 7, index: 0 }]);
}

#[test]
fn selection_users_of_unreadable_file_are_empty() {
    let users = list_available_backup_user(Err("file not found".to_string()));
    assert!(users.is_empty());
}

#[test]
fn selection_resets_index_of_a_built_backup() {
    let users = vec![User { id: 5, index: 1 }, User { id: 9, index: 0 }];
    let b = build_backup(&users, "d".to_string(), &vec![vec![], vec![]]);
    assert_eq!(backup_users(&b), vec![User { id: 5, index: 0 }, User { id: 9, index: 0 }]);
}

#[test]
fn restore_asks_for_each_package_in_order_with_the_target_user() {
    let calls: RefCell<Vec<(User, String, PackageState, Action)>> = RefCell::new(vec![]);
    let target = User { id: 0, index: 2 };
    let resolve = |u: &User, p: &CorePackage, a: &Action| -> Vec<String> {
        calls.borrow_mut().push((*u, p.name.clone(), p.state, *a));
        vec![format!("cmd1 {}", p.name), format!("cmd2 {}", p.name)]
    };
    let r = restore_backup(Ok(two_user_backup()), &collapsed(target), &resolve);
    assert_eq!(
        r,
        Ok(vec![
            "cmd1 a.app".to_string(),
            "cmd2 a.app".to_string(),
            "cmd1 b.app".to_string(),
            "cmd2 b.app".to_string(),
        ])
    );
    assert_eq!(
        calls.into_inner(),
        vec![
            (target, "a.app".to_string(), PackageState::Disabled, Action::RestoreDevice),
            (target, "b.app".to_string(), PackageState::Uninstalled, Action::RestoreDevice),
        ]
    );
}

#[test]
fn restore_of_unloadable_snapshot_fails_without_asking() {
    let count = RefCell::new(0u32);
    let resolve = |_: &User, _: &CorePackage, _: &Action| -> Vec<String> {
        *count.borrow_mut() += 1;
        vec!["cmd".to_string()]
    };
    let r = restore_backup(
        Err("No such file".to_string()),
        &collapsed(User { id: 0, index: 0 }),
        &resolve,
    );
    assert_eq!(r, Err("[BACKUP]: No such file".to_string()));
    assert_eq!(count.into_inner(), 0);
}

#[test]
fn restore_plan_skips_packages_with_no_commands() {
    let resolve = |_: &User, p: &CorePackage, _: &Action| -> Vec<String> {
        if p.state == PackageState::Disabled { vec![] } else { vec![p.name.clone()] }
    };
    let plan = plan_restore(&two_user_backup(), &collapsed(User { id: 4, index: 0 }), &resolve);
    assert_eq!(plan, vec!["b.app".to_string()]);
}

#[test]
fn restore_of_empty_snapshot_is_empty_plan() {
    let b = PhoneBackup { device_id: "d".to_string(), users: vec![] };
    let resolve = |_: &User, _: &CorePackage, _: &Action| -> Vec<String> { vec!["x".to_string()] };
    assert_eq!(restore_backup(Ok(b), &collapsed(User { id: 0, index: 0 }), &resolve), Ok(vec![]));
}

#[test]
fn file_name_appends_extension_to_stamp() {
    assert_eq!(backup_file_name("2024-03-05-09-07"), "2024-03-05-09-07.json");
}

#[test]
fn new_file_name_is_minute_stamp_with_extension() {
    let name = new_backup_file_name();
    assert!(name.ends_with(".json"));
    let stamp = &name[..name.len() - 5];
    assert_eq!(stamp.len(), 16);
    let parts: Vec<&str> = stamp.split('-').collect();
    assert_eq!(parts.len(), 5);
    assert!(parts.iter().all(|p| p.chars().all(|c| c.is_ascii_digit())));
}

#[test]
fn restore_per_user_sends_packages_to_live_user_of_same_id() {
    let calls: RefCell<Vec<(User, String)>> = RefCell::new(vec![]);
    let resolve = |u: &User, p: &CorePackage, _: &Action| -> Vec<String> {
        calls.borrow_mut().push((*u, p.name.clone()));
        vec![format!("{} for {}", p.name, u.id)]
    };
    let settings = RestoreSettings {
        selected_user: User { id: 1, index: 0 },
        collapse_users_on_restore: false,
        live_users: vec![User { id: 2, index: 0 }, User { id: 1, index: 1 }, User { id: 2, index: 5 }],
    };
    let r = plan_restore(&two_user_backup(), &settings, &resolve);
    assert_eq!(r, vec!["a.app for 1".to_string(), "b.app for 2".to_string()]);
    assert_eq!(
        calls.into_inner(),
        vec![
            (User { id: 1, index: 1 }, "a.app".to_string()),
            (User { id: 2, index: 0 }, "b.app".to_string()),
        ]
    );
}

#[test]
fn restore_per_user_skips_users_missing_on_device() {
    let resolve = |u: &User, p: &CorePackage, _: &Action| -> Vec<String> {
        vec![format!("{} for {}", p.name, u.id)]
    };
    let settings = RestoreSettings {
        selected_user: User { id: 1, index: 0 },
        collapse_users_on_restore: false,
        live_users: vec![User { id: 2, index: 3 }],
    };
    let r = plan_restore(&two_user_backup(), &settings, &resolve);
    assert_eq!(r, vec!["b.app for 2".to_string()]);
}
