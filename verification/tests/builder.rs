use zeus::builder::{
    install_command, more_than_requested, remove_response, remove_targets, remove_transaction,
    select_found, sync_targets, sync_transaction, uninstall_command, Response, SyncError,
};
use zeus::ipc::{record_outcome, SyncOutcome};
use zeus::config::options::{RemoveOptions, SyncOptions};
use zeus::db::Action;

fn strings(v: &[&str]) -> Vec<String> {
    v.iter().map(|s| s.to_string()).collect()
}

fn sync_options(upgrade: bool, packages: &[&str]) -> SyncOptions {
    SyncOptions { upgrade, install: false, build_args: vec![], packages: strings(packages) }
}

#[test]
fn sync_targets_and_upgrades() {
    let local = strings(&["zeus", "yay"]);
    assert_eq!(sync_targets(&sync_options(false, &["a"]), &local), Ok(strings(&["a"])));
    assert_eq!(sync_targets(&sync_options(true, &[]), &local), Ok(local.clone()));
    assert_eq!(sync_targets(&sync_options(true, &["a"]), &local), Ok(strings(&["a"])));
    assert_eq!(sync_targets(&sync_options(false, &[]), &local), Err(SyncError::NoPackagesSpecified));
    assert_eq!(sync_targets(&sync_options(true, &[]), &vec![]), Err(SyncError::NoPackagesSpecified));
    assert_eq!(SyncError::NoPackagesSpecified.message(), "No packages specified");
}

#[test]
fn only_known_packages_are_synced() {
    let sel = select_found(&strings(&["a", "b", "c"]), &strings(&["c", "a", "x"])).unwrap();
    assert_eq!(sel.found, strings(&["a", "c"]));
    assert_eq!(sel.missing, strings(&["b"]));
    match select_found(&strings(&["a"]), &strings(&["b"])) {
        Err(e) => {
            assert_eq!(e, SyncError::NoValidPackages);
            assert_eq!(e.message(), "No valid packages specified");
        },
        Ok(_) => panic!("expected an error"),
    }
    assert!(more_than_requested(3, 2));
    assert!(!more_than_requested(2, 2));
}

#[test]
fn sync_and_remove_transactions() {
    let args = strings(&["--nocheck"]);
    let t = sync_transaction("https://aur.archlinux.org", "zeus", false, &args);
    assert_eq!(t.len(), 2);
    match t.action(0) {
        Action::Clone { name, url, upgrade } => {
            assert_eq!(name, "zeus");
            assert_eq!(url, "https://aur.archlinux.org/zeus.git");
            assert!(!upgrade);
        },
        _ => panic!("expected a clone"),
    }
    match t.action(1) {
        Action::Build { extra_args, .. } => assert_eq!(extra_args, &args),
        _ => panic!("expected a build"),
    }
    let opts = RemoveOptions { uninstall: true, packages: strings(&["a", "b"]) };
    let t = remove_transaction(&opts);
    assert_eq!(t.len(), 2);
    match t.action(1) {
        Action::Remove { name } => assert_eq!(name, "b"),
        _ => panic!("expected a removal"),
    }
    let res = remove_response(&opts);
    assert_eq!(res.packages, strings(&["a", "b"]));
    assert!(res.files.is_empty());
}

#[test]
fn pacman_runs() {
    let files = strings(&["zeus/zeus-1-1-any.pkg.tar.zst"]);
    assert_eq!(
        install_command("/var/cache/aur", &files).into_raw().plain_line(),
        "/usr/bin/pacman --upgrade /var/cache/aur/zeus/zeus-1-1-any.pkg.tar.zst"
    );
    assert_eq!(
        uninstall_command(&strings(&["zeus"])).into_raw().plain_line(),
        "/usr/bin/pacman --remove --cascade --recursive zeus"
    );
}

#[test]
fn removals_need_a_package() {
    let none = RemoveOptions { uninstall: false, packages: vec![] };
    assert_eq!(remove_targets(&none), Err(SyncError::NoPackagesSpecified));
    assert_eq!(SyncError::NoPackagesSpecified.message(), "No packages specified");
    let some = RemoveOptions { uninstall: false, packages: vec!["zeus".to_string()] };
    assert_eq!(remove_targets(&some), Ok(()));
}

#[test]
fn builder_records_each_sync_outcome() {
    let mut res = Response::empty();
    record_outcome(&mut res, "a", &SyncOutcome::CommitFailed);
    assert!(res.packages.is_empty() && res.files.is_empty());
    record_outcome(&mut res, "b", &SyncOutcome::NotInDatabase);
    record_outcome(&mut res, "c", &SyncOutcome::Built(strings(&["c-1.pkg.tar.zst"])));
    record_outcome(&mut res, "d", &SyncOutcome::FilesFailed);
    assert_eq!(res.packages, strings(&["b", "c", "d"]));
    assert_eq!(res.files, strings(&["c-1.pkg.tar.zst"]));
}
