//! The decisions of the sync and remove operations: which packages are
//! worked on, the transactions the builder commits, and the pacman runs
//! that install or uninstall the results.

use vstd::prelude::*;

use crate::config::options::{RemoveOptions, SyncOptions};
use crate::db::command::{copy_strings, strings_view, Stdio};
use crate::db::tools::Pacman;
use crate::db::{ActionView, Transaction};
use crate::text::{join, join_path, str_eq};

verus! {

/// Why a sync has nothing to work on.
#[derive(Debug, Clone, Copy, PartialEq, Eq, Structural)]
pub enum SyncError {
    /// No package was named (and, when upgrading, none is in the database).
    NoPackagesSpecified,
    /// None of the named packages is known to the AUR.
    NoValidPackages,
}

impl SyncError {
    /// The message reported for the error.
    pub fn message(&self) -> (r: &'static str)
        ensures
            r@ == match *self {
                SyncError::NoPackagesSpecified => "No packages specified"@,
                SyncError::NoValidPackages => "No valid packages specified"@,
            },
    {
        match self {
            SyncError::NoPackagesSpecified => "No packages specified",
            SyncError::NoValidPackages => "No valid packages specified",
        }
    }
}

/// The elements of `s` that are (`b`) or are not (`!b`) in `found`, in
/// order.
pub open spec fn keep(s: Seq<Seq<char>>, found: Seq<Seq<char>>, b: bool) -> Seq<Seq<char>>
    decreases s.len(),
{
    if s.len() == 0 {
        Seq::empty()
    } else if found.contains(s.last()) == b {
        keep(s.drop_last(), found, b).push(s.last())
    } else {
        keep(s.drop_last(), found, b)
    }
}

/// The packages a sync is asked for: the named ones, or, when upgrading
/// and none is named, every package in the database.
pub open spec fn sync_request(packages: Seq<Seq<char>>, upgrade: bool, local: Seq<Seq<char>>) -> Seq<
    Seq<char>,
> {
    if upgrade && packages.len() == 0 {
        local
    } else {
        packages
    }
}

/// The packages a sync works on before asking the AUR: the named ones, or,
/// when upgrading and none is named, the packages of the database
/// (`local`). Having none is an error.
pub fn sync_targets(options: &SyncOptions, local: &Vec<String>) -> (r: Result<Vec<String>, SyncError>)
    ensures
        sync_request(strings_view(options.packages@), options.upgrade, strings_view(local@)).len()
            == 0 ==> r == Err::<Vec<String>, SyncError>(SyncError::NoPackagesSpecified),
        sync_request(strings_view(options.packages@), options.upgrade, strings_view(local@)).len()
            > 0 ==> (r matches Ok(v) && strings_view(v@) == sync_request(
            strings_view(options.packages@),
            options.upgrade,
            strings_view(local@),
        )),
{
    let targets = if options.upgrade && options.packages.len() == 0 {
        copy_strings(local)
    } else {
        copy_strings(&options.packages)
    };
    if targets.len() == 0 {
        Err(SyncError::NoPackagesSpecified)
    } else {
        Ok(targets)
    }
}

/// Whether `name` is one of `names`.
pub fn contains_name(names: &Vec<String>, name: &str) -> (r: bool)
    ensures
        r == strings_view(names@).contains(name@),
{
    let mut i: usize = 0;
    while i < names.len()
        invariant
            i <= names.len(),
            forall|j: int| 0 <= j < i ==> names@[j]@ != name@,
        decreases names.len() - i,
    {
        if str_eq(names[i].as_str(), name) {
            assert(strings_view(names@)[i as int] == name@);
            return true;
        }
        i = i + 1;
    }
    assert(!strings_view(names@).contains(name@)) by {
        if strings_view(names@).contains(name@) {
            let j = choose|j: int| 0 <= j < names@.len() && strings_view(names@)[j] == name@;
            assert(names@[j]@ == name@);
        }
    }
    false
}

/// The targets of a sync split by whether the AUR knows them.
#[derive(Debug)]
pub struct Selection {
    /// The targets the AUR returned, in order.
    pub found: Vec<String>,
    /// The targets the AUR did not return, in order.
    pub missing: Vec<String>,
}

/// Splits `targets` into those among the package names the AUR returned
/// (`found`) and the others, keeping their order. When none is found the
/// sync has nothing valid to do.
pub fn select_found(targets: &Vec<String>, found: &Vec<String>) -> (r: Result<Selection, SyncError>)
    ensures
        keep(strings_view(targets@), strings_view(found@), true).len() == 0 ==> r == Err::<
            Selection,
            SyncError,
        >(SyncError::NoValidPackages),
        keep(strings_view(targets@), strings_view(found@), true).len() > 0 ==> (r matches Ok(sel)
            && strings_view(sel.found@) == keep(strings_view(targets@), strings_view(found@), true)
            && strings_view(sel.missing@) == keep(strings_view(targets@), strings_view(found@), false)),
{
    let mut kept: Vec<String> = Vec::new();
    let mut missing: Vec<String> = Vec::new();
    let ghost fv = strings_view(found@);
    let mut i: usize = 0;
    while i < targets.len()
        invariant
            i <= targets.len(),
            fv == strings_view(found@),
            strings_view(kept@) == keep(strings_view(targets@).subrange(0, i as int), fv, true),
            strings_view(missing@) == keep(strings_view(targets@).subrange(0, i as int), fv, false),
        decreases targets.len() - i,
    {
        let ghost pre = strings_view(targets@).subrange(0, i as int);
        let ghost post = strings_view(targets@).subrange(0, i as int + 1);
        assert(post.drop_last() =~= pre);
        assert(post.last() == targets@[i as int]@);
        let ghost ok = strings_view(kept@);
        let ghost om = strings_view(missing@);
        if contains_name(found, targets[i].as_str()) {
            kept.push(targets[i].clone());
            assert(strings_view(kept@) =~= ok.push(targets@[i as int]@));
        } else {
            missing.push(targets[i].clone());
            assert(strings_view(missing@) =~= om.push(targets@[i as int]@));
        }
        i = i + 1;
    }
    assert(strings_view(targets@).subrange(0, targets.len() as int) =~= strings_view(targets@));
    if kept.len() == 0 {
        Err(SyncError::NoValidPackages)
    } else {
        Ok(Selection { found: kept, missing })
    }
}

/// Splitting by membership loses nothing: every target is either found or
/// missing, the found ones are all known to the AUR and the missing ones
/// are not.
pub proof fn lemma_selection_partitions(targets: Seq<Seq<char>>, found: Seq<Seq<char>>)
    ensures
        keep(targets, found, true).len() + keep(targets, found, false).len() == targets.len(),
        forall|i: int| 0 <= i < keep(targets, found, true).len() ==> found.contains(
            #[trigger] keep(targets, found, true)[i],
        ),
        forall|i: int| 0 <= i < keep(targets, found, false).len() ==> !found.contains(
            #[trigger] keep(targets, found, false)[i],
        ),
    decreases targets.len(),
{
    if targets.len() > 0 {
        lemma_selection_partitions(targets.drop_last(), found);
        let t = keep(targets, found, true);
        let f = keep(targets, found, false);
        let t0 = keep(targets.drop_last(), found, true);
        let f0 = keep(targets.drop_last(), found, false);
        assert forall|i: int| 0 <= i < t.len() implies found.contains(#[trigger] t[i]) by {
            if i < t0.len() {
                assert(t[i] == t0[i]);
            }
        }
        assert forall|i: int| 0 <= i < f.len() implies !found.contains(#[trigger] f[i]) by {
            if i < f0.len() {
                assert(f[i] == f0[i]);
            }
        }
    }
}

/// Whether the AUR answered with more packages than were asked for.
pub fn more_than_requested(returned: usize, requested: usize) -> (r: bool)
    ensures
        r == (returned > requested),
{
    returned > requested
}

/// The git URL of the package `name` at the AUR instance `aur_url`.
pub open spec fn package_git_url(aur_url: Seq<char>, name: Seq<char>) -> Seq<char> {
    aur_url + "/"@ + name + ".git"@
}

/// The transaction that syncs one package: clone it from the AUR (or pull
/// it when upgrading), then build it with the extra makepkg arguments.
pub fn sync_transaction(aur_url: &str, name: &str, upgrade: bool, build_args: &Vec<String>) -> (r:
    Transaction)
    ensures
        r@ == seq![
            ActionView::Clone { name: name@, url: package_git_url(aur_url@, name@), upgrade },
            ActionView::Build { name: name@, extra_args: strings_view(build_args@) },
        ],
{
    let mut url = aur_url.to_owned();
    url.append("/");
    url.append(name);
    url.append(".git");
    let t = Transaction::new().clone_pkg(name, url.as_str(), upgrade).build_pkg(name, build_args);
    assert(t@ =~= seq![
        ActionView::Clone { name: name@, url: package_git_url(aur_url@, name@), upgrade },
        ActionView::Build { name: name@, extra_args: strings_view(build_args@) },
    ]);
    t
}

/// A removal needs at least one package named; naming none is an error.
pub fn remove_targets(options: &RemoveOptions) -> (r: Result<(), SyncError>)
    ensures
        r == (if options.packages@.len() == 0 {
            Err::<(), SyncError>(SyncError::NoPackagesSpecified)
        } else {
            Ok(())
        }),
{
    if options.packages.len() == 0 {
        Err(SyncError::NoPackagesSpecified)
    } else {
        Ok(())
    }
}

/// The transaction that removes the packages of `options`, in order.
pub fn remove_transaction(options: &RemoveOptions) -> (r: Transaction)
    ensures
        r@ == strings_view(options.packages@).map_values(|n: Seq<char>| ActionView::Remove { name: n }),
{
    let mut t = Transaction::new();
    let mut i: usize = 0;
    while i < options.packages.len()
        invariant
            i <= options.packages.len(),
            t@ == strings_view(options.packages@).subrange(0, i as int).map_values(
                |n: Seq<char>| ActionView::Remove { name: n },
            ),
        decreases options.packages.len() - i,
    {
        t = t.remove_pkg(options.packages[i].as_str());
        assert(t@ =~= strings_view(options.packages@).subrange(0, i as int + 1).map_values(
            |n: Seq<char>| ActionView::Remove { name: n },
        ));
        i = i + 1;
    }
    assert(strings_view(options.packages@).subrange(0, options.packages.len() as int) =~= strings_view(
        options.packages@,
    ));
    t
}

/// What the builder reports back: the packages it worked on and the
/// package archives it made, relative to the build directory.
#[derive(Debug, Clone)]
pub struct Response {
    pub packages: Vec<String>,
    pub files: Vec<String>,
}

impl Response {
    /// A response with no packages and no files.
    pub fn empty() -> (r: Response)
        ensures
            r.packages@.len() == 0,
            r.files@.len() == 0,
    {
        Response { packages: Vec::new(), files: Vec::new() }
    }
}

/// The response of a removal: the removed packages and no files.
pub fn remove_response(options: &RemoveOptions) -> (r: Response)
    ensures
        strings_view(r.packages@) == strings_view(options.packages@),
        r.files@.len() == 0,
{
    Response { packages: copy_strings(&options.packages), files: Vec::new() }
}

/// The paths under `root` of the files `files`, in order.
pub open spec fn rooted(root: Seq<char>, files: Seq<Seq<char>>) -> Seq<Seq<char>> {
    files.map_values(|f: Seq<char>| join_path(root, f))
}

/// The pacman run that installs the built archives `files`, found under
/// the build directory `root`.
pub fn install_command(root: &str, files: &Vec<String>) -> (r: Pacman)
    ensures
        r.0@ == Pacman::default_spec().with_streams(Stdio::Inherit).push_arg("--upgrade"@).push_args(
            rooted(root@, strings_view(files@)),
        ),
{
    let mut paths: Vec<String> = Vec::new();
    let mut i: usize = 0;
    while i < files.len()
        invariant
            i <= files.len(),
            strings_view(paths@) == rooted(root@, strings_view(files@).subrange(0, i as int)),
        decreases files.len() - i,
    {
        let ghost before = strings_view(paths@);
        paths.push(join(root, files[i].as_str()));
        assert(strings_view(paths@) =~= before.push(join_path(root@, files@[i as int]@)));
        assert(strings_view(files@).subrange(0, i as int + 1) =~= strings_view(files@).subrange(
            0,
            i as int,
        ).push(files@[i as int]@));
        assert(rooted(root@, strings_view(files@).subrange(0, i as int + 1)) =~= rooted(
            root@,
            strings_view(files@).subrange(0, i as int),
        ).push(join_path(root@, files@[i as int]@)));
        assert(strings_view(paths@) =~= rooted(root@, strings_view(files@).subrange(0, i as int + 1)));
        i = i + 1;
    }
    assert(strings_view(files@).subrange(0, files.len() as int) =~= strings_view(files@));
    Pacman::default().attach(true).upgrade().args(&paths)
}

/// The pacman run that uninstalls `packages` with their dependencies and
/// dependents.
pub fn uninstall_command(packages: &Vec<String>) -> (r: Pacman)
    ensures
        r.0@ == Pacman::default_spec().with_streams(Stdio::Inherit).push_arg("--remove"@).push_arg(
            "--cascade"@,
        ).push_arg("--recursive"@).push_args(strings_view(packages@)),
{
    Pacman::default().attach(true).remove().cascade().recursive().args(packages)
}

/// The targets of a sync that names packages are exactly the named
/// packages, in order, whether upgrading or not and whatever the database
/// holds; only an upgrade that names none works on the database's
/// packages, and a sync that names none without upgrading has no target.
pub proof fn lemma_sync_targets_are_the_named_packages(
    packages: Seq<Seq<char>>,
    upgrade: bool,
    local: Seq<Seq<char>>,
    other_local: Seq<Seq<char>>,
)
    ensures
        packages.len() > 0 ==> sync_request(packages, upgrade, local) == packages,
        packages.len() > 0 ==> sync_request(packages, upgrade, local).len() == packages.len()
            && forall|i: int| 0 <= i < packages.len() ==> sync_request(packages, upgrade, local)[i] == packages[i],
        packages.len() > 0 ==> sync_request(packages, upgrade, local) == sync_request(packages, upgrade, other_local),
        !upgrade ==> sync_request(packages, upgrade, local) == packages,
        upgrade && packages.len() == 0 ==> sync_request(packages, upgrade, local) == local,
{
}

/// The install run passes one path per built archive, in order: after
/// `--upgrade` come exactly `files.len()` arguments, the `i`-th being the
/// `i`-th archive joined to the build directory.
pub proof fn lemma_install_passes_every_archive(root: Seq<char>, files: Seq<Seq<char>>)
    ensures
        rooted(root, files).len() == files.len(),
        forall|i: int| 0 <= i < files.len() ==> #[trigger] rooted(root, files)[i] == join_path(root, files[i]),
        forall|i: int, j: int|
            0 <= i < files.len() && 0 <= j < files.len() && files[i] == files[j] ==> rooted(root, files)[i]
                == rooted(root, files)[j],
{
}

/// Installing more archives adds their paths at the end: the paths of
/// `a + b` are the paths of `a` followed by those of `b`.
pub proof fn lemma_install_paths_concatenate(root: Seq<char>, a: Seq<Seq<char>>, b: Seq<Seq<char>>)
    ensures
        rooted(root, a + b) == rooted(root, a) + rooted(root, b),
{
    assert(rooted(root, a + b) =~= rooted(root, a) + rooted(root, b));
}

} // verus!
