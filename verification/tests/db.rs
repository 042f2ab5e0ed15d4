use zeus::db::{
    check_package, clone_command, clone_plan, build_command, package_list_command, pkg_dir,
    pkg_name_valid, pull_command, Action, ClonePlan, CommitState, PackageError, PathFacts, Transaction,
};

#[test]
fn test_package_path_validation() {
    // the store rejects these names before looking at the file system
    assert!(!pkg_name_valid("/tmp/"));
    assert!(!pkg_name_valid("/tmp/../"));
    assert!(!pkg_name_valid("/tmp/../../bin"));
}

#[test]
fn package_names() {
    assert!(pkg_name_valid("zeus-bin"));
    assert!(pkg_name_valid("a.b"));
    assert!(!pkg_name_valid(".."));
    assert!(!pkg_name_valid("a..b"));
    assert!(!pkg_name_valid("a/b"));
}

fn facts(exists: bool, is_absolute: bool, is_dir: bool, parent_is_root: bool) -> PathFacts {
    PathFacts { exists, is_absolute, is_dir, parent_is_root }
}

#[test]
fn package_checks() {
    assert_eq!(check_package("etc", facts(true, true, true, true)), Ok(()));
    assert_eq!(check_package("zeus-bin", facts(false, true, false, true)), Err(PackageError::NotFound));
    assert_eq!(check_package("etc", facts(true, true, false, true)), Err(PackageError::InvalidData));
    assert_eq!(check_package("etc", facts(true, true, true, false)), Err(PackageError::InvalidData));
    assert_eq!(check_package("a/b", facts(true, true, true, true)), Err(PackageError::InvalidData));
    assert_eq!(check_package("etc", facts(true, false, true, true)), Err(PackageError::InvalidData));
}

#[test]
fn package_dirs() {
    assert_eq!(pkg_dir("/var/cache/aur", "zeus"), "/var/cache/aur/zeus");
    assert_eq!(pkg_dir("/var/cache/aur/", "zeus"), "/var/cache/aur/zeus");
    assert_eq!(pkg_dir("/var/cache/aur", "/etc"), "/etc");
    assert_eq!(pkg_dir("", "zeus"), "zeus");
}

#[test]
fn transactions_keep_order() {
    let extra = vec!["--nocheck".to_string()];
    let t = Transaction::new()
        .clone_pkg("zeus", "https://aur.archlinux.org/zeus.git", true)
        .build_pkg("zeus", &extra)
        .remove_pkg("old");
    assert_eq!(t.len(), 3);
    match t.action(0) {
        Action::Clone { name, url, upgrade } => {
            assert_eq!(name, "zeus");
            assert_eq!(url, "https://aur.archlinux.org/zeus.git");
            assert!(*upgrade);
        },
        _ => panic!("expected a clone"),
    }
    match t.action(1) {
        Action::Build { name, extra_args } => {
            assert_eq!(name, "zeus");
            assert_eq!(extra_args, &extra);
        },
        _ => panic!("expected a build"),
    }
    match t.action(2) {
        Action::Remove { name } => assert_eq!(name, "old"),
        _ => panic!("expected a removal"),
    }
}

#[test]
fn commit_runs_in_order_and_stops_at_first_failure() {
    let t = Transaction::new().remove_pkg("a").remove_pkg("b").remove_pkg("c");
    assert_eq!(t.start(), CommitState::Pending(0));
    assert_eq!(t.advance(0, true), CommitState::Pending(1));
    assert_eq!(t.advance(1, false), CommitState::Aborted(1));
    assert_eq!(t.advance(2, true), CommitState::Finished);
    assert_eq!(Transaction::new().start(), CommitState::Finished);
}

#[test]
fn clone_plans() {
    assert_eq!(clone_plan(true, true), ClonePlan::Pull);
    assert_eq!(clone_plan(true, false), ClonePlan::AlreadyExists);
    assert_eq!(clone_plan(false, false), ClonePlan::Clone);
    assert_eq!(clone_plan(false, true), ClonePlan::Clone);
}

#[test]
fn work_commands() {
    let extra = vec!["--skippgpcheck".to_string()];
    assert_eq!(
        build_command("/b/zeus", &extra).into_raw().display(),
        "cd \"/b/zeus\" && \"/usr/bin/makepkg\" \"--needed\" \"--noconfirm\" \"--syncdeps\" \"--force\" \"--skippgpcheck\""
    );
    assert_eq!(
        package_list_command("/b/zeus").into_raw().display(),
        "cd \"/b/zeus\" && \"/usr/bin/makepkg\" \"--packagelist\""
    );
    assert_eq!(pull_command("/b/zeus").into_raw().plain_line(), "/usr/bin/git pull");
    assert_eq!(
        clone_command("https://aur.archlinux.org/zeus.git", "/b/zeus").into_raw().plain_line(),
        "/usr/bin/git clone https://aur.archlinux.org/zeus.git /b/zeus"
    );
}
