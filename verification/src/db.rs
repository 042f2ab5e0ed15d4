//! The package database: transactions of clone, build and remove actions,
//! the checks on package names and the command lines that carry the work
//! out.

pub mod command;
pub mod tools;

use vstd::prelude::*;

use crate::db::command::{copy_strings, strings_view, CommandView};
use crate::db::tools::{Git, Makepkg};
use crate::text::{contains_char, contains_double_dot, has_char, has_double_dot, join, join_path};

verus! {

/// One unit of work on the database.
#[derive(Debug)]
pub enum Action {
    /// Clone the package repository from `url`, or pull it when it exists
    /// and `upgrade` is set.
    Clone { name: String, url: String, upgrade: bool },
    /// Build the package with extra arguments for makepkg.
    Build { name: String, extra_args: Vec<String> },
    /// Remove the package directory.
    Remove { name: String },
}

/// The abstract value of an action.
pub enum ActionView {
    Clone { name: Seq<char>, url: Seq<char>, upgrade: bool },
    Build { name: Seq<char>, extra_args: Seq<Seq<char>> },
    Remove { name: Seq<char> },
}

impl View for Action {
    type V = ActionView;

    open spec fn view(&self) -> ActionView {
        match self {
            Action::Clone { name, url, upgrade } => ActionView::Clone {
                name: name@,
                url: url@,
                upgrade: *upgrade,
            },
            Action::Build { name, extra_args } => ActionView::Build {
                name: name@,
                extra_args: strings_view(extra_args@),
            },
            Action::Remove { name } => ActionView::Remove { name: name@ },
        }
    }
}

/// The abstract values of a sequence of actions.
pub open spec fn actions_view(v: Seq<Action>) -> Seq<ActionView> {
    v.map_values(|a: Action| a@)
}

/// A transaction containing work to be done on the database, in order.
#[derive(Debug)]
pub struct Transaction {
    actions: Vec<Action>,
}

impl View for Transaction {
    type V = Seq<ActionView>;

    closed spec fn view(&self) -> Seq<ActionView> {
        actions_view(self.actions@)
    }
}

/// Where the commit of a transaction stands.
#[derive(Debug, Clone, Copy, PartialEq, Eq, Structural)]
pub enum CommitState {
    /// The action at this index is the next to run; all before it succeeded.
    Pending(usize),
    /// Every action ran and succeeded.
    Finished,
    /// The action at this index failed; none after it ran.
    Aborted(usize),
}

impl Transaction {
    /// An empty transaction.
    pub fn new() -> (r: Transaction)
        ensures
            r@ == Seq::<ActionView>::empty(),
    {
        let r = Transaction { actions: Vec::new() };
        assert(r@ =~= Seq::<ActionView>::empty());
        r
    }

    fn push(self, a: Action) -> (r: Transaction)
        ensures
            r@ == self@.push(a@),
    {
        let mut actions = self.actions;
        actions.push(a);
        let r = Transaction { actions };
        assert(r@ =~= self@.push(a@));
        r
    }

    /// Adds the cloning (or, with `upgrade`, updating) of a package.
    pub fn clone_pkg(self, name: &str, url: &str, upgrade: bool) -> (r: Transaction)
        ensures
            r@ == self@.push(ActionView::Clone { name: name@, url: url@, upgrade }),
    {
        self.push(Action::Clone { name: name.to_owned(), url: url.to_owned(), upgrade })
    }

    /// Adds the building of a package with extra makepkg arguments.
    pub fn build_pkg(self, name: &str, extra_args: &Vec<String>) -> (r: Transaction)
        ensures
            r@ == self@.push(ActionView::Build { name: name@, extra_args: strings_view(extra_args@) }),
    {
        let args = copy_strings(extra_args);
        self.push(Action::Build { name: name.to_owned(), extra_args: args })
    }

    /// Adds the removal of a package.
    pub fn remove_pkg(self, name: &str) -> (r: Transaction)
        ensures
            r@ == self@.push(ActionView::Remove { name: name@ }),
    {
        self.push(Action::Remove { name: name.to_owned() })
    }

    /// The number of actions.
    pub fn len(&self) -> (r: usize)
        ensures
            r == self@.len(),
    {
        self.actions.len()
    }

    /// The action at index `i`.
    pub fn action(&self, i: usize) -> (r: &Action)
        requires
            i < self@.len(),
        ensures
            r@ == self@[i as int],
    {
        &self.actions[i]
    }

    /// Where a commit starts: at the first action, or finished at once when
    /// there is none.
    pub fn start(&self) -> (r: CommitState)
        ensures
            r == (if self@.len() == 0 { CommitState::Finished } else { CommitState::Pending(0) }),
    {
        if self.actions.len() == 0 {
            CommitState::Finished
        } else {
            CommitState::Pending(0)
        }
    }

    /// The commit state after the pending action `i` ran, successfully or
    /// not: a failure aborts the commit at `i`, a success moves on to the
    /// next action or finishes after the last.
    pub fn advance(&self, i: usize, succeeded: bool) -> (r: CommitState)
        requires
            i < self@.len(),
        ensures
            r == advance_spec(self@.len(), i as nat, succeeded),
    {
        assert(self@.len() == self.actions@.len());
        if !succeeded {
            CommitState::Aborted(i)
        } else if i < self.actions.len() - 1 {
            CommitState::Pending(i + 1)
        } else {
            CommitState::Finished
        }
    }
}

/// The state after the pending action `i` of `n` ran with outcome `ok`.
pub open spec fn advance_spec(n: nat, i: nat, ok: bool) -> CommitState {
    if !ok {
        CommitState::Aborted(i as usize)
    } else if i + 1 < n {
        CommitState::Pending((i + 1) as usize)
    } else {
        CommitState::Finished
    }
}

/// How a commit of `n` actions ends when it is at action `i` and the
/// actions report the outcomes `o` (`o[j]` for action `j`): aborted at the
/// first failing action from `i` on, finished when there is none.
pub open spec fn commit_from(n: nat, i: nat, o: Seq<bool>) -> CommitState
    decreases n - i,
{
    if i >= n {
        CommitState::Finished
    } else if !o[i as int] {
        CommitState::Aborted(i as usize)
    } else {
        commit_from(n, i + 1, o)
    }
}

/// Driving the commit with `advance` follows `commit_from`: one step from
/// the pending action `i` lands where the rest of the commit continues.
pub proof fn lemma_advance_follows_commit(n: nat, i: nat, o: Seq<bool>)
    requires
        i < n,
        n <= usize::MAX,
    ensures
        commit_from(n, i, o) == match advance_spec(n, i, o[i as int]) {
            CommitState::Pending(j) => commit_from(n, j as nat, o),
            s => s,
        },
{
    assert(commit_from(n, n, o) == CommitState::Finished);
}

/// A commit runs the actions in order and stops at the first failure: it
/// is aborted at `k` exactly when action `k` failed and every action before
/// it succeeded, and it finishes exactly when every action succeeded.
pub proof fn lemma_commit_stops_at_first_failure(n: nat, o: Seq<bool>, k: nat)
    requires
        n <= usize::MAX,
        k <= usize::MAX,
    ensures
        commit_from(n, 0, o) == CommitState::Aborted(k as usize) <==> (k < n && !o[k as int]
            && forall|j: int| 0 <= j < k ==> o[j]),
        commit_from(n, 0, o) == CommitState::Finished <==> forall|j: int| 0 <= j < n ==> o[j],
{
    lemma_commit_from_shape(n, 0, o, k);
}

/// `commit_from` from `i` is aborted at the first failure at or after `i`.
proof fn lemma_commit_from_shape(n: nat, i: nat, o: Seq<bool>, k: nat)
    requires
        n <= usize::MAX,
        k <= usize::MAX,
    ensures
        commit_from(n, i, o) == CommitState::Aborted(k as usize) <==> (i <= k < n && !o[k as int]
            && forall|j: int| i <= j < k ==> o[j]),
        commit_from(n, i, o) == CommitState::Finished <==> forall|j: int| i <= j < n ==> o[j],
    decreases n - i,
{
    if i < n {
        lemma_commit_from_shape(n, i + 1, o, k);
        if o[i as int] {
            if commit_from(n, i, o) == CommitState::Aborted(k as usize) {
                assert(k != i);
            }
            if i <= k < n && !o[k as int] && forall|j: int| i <= j < k ==> o[j] {
                assert(k != i);
                assert(forall|j: int| i + 1 <= j < k ==> o[j]);
            }
        }
    }
}

/// What committing a clone action does, given whether the package is
/// already in the database.
#[derive(Debug, Clone, Copy, PartialEq, Eq, Structural)]
pub enum ClonePlan {
    /// Pull the existing repository.
    Pull,
    /// Clone the repository into the package directory.
    Clone,
    /// Fail: the package exists and upgrading was not asked for.
    AlreadyExists,
}

/// The plan for a clone action: an existing package is pulled when
/// `upgrade` is set and is an error otherwise; a missing one is cloned.
pub fn clone_plan(exists: bool, upgrade: bool) -> (r: ClonePlan)
    ensures
        r == (if exists {
            if upgrade { ClonePlan::Pull } else { ClonePlan::AlreadyExists }
        } else {
            ClonePlan::Clone
        }),
{
    if exists {
        if upgrade {
            ClonePlan::Pull
        } else {
            ClonePlan::AlreadyExists
        }
    } else {
        ClonePlan::Clone
    }
}

/// Why a package could not be opened from the database.
#[derive(Debug, Clone, Copy, PartialEq, Eq, Structural)]
pub enum PackageError {
    /// There is nothing at the package path.
    NotFound,
    /// The path is not a package directory directly under the root, or the
    /// name holds a path separator.
    InvalidData,
}

/// What the file system says of a package path.
#[derive(Debug, Clone, Copy)]
pub struct PathFacts {
    pub exists: bool,
    pub is_absolute: bool,
    pub is_dir: bool,
    pub parent_is_root: bool,
}

/// The decision on opening the package `name`, given what the file system
/// says of its path.
pub open spec fn package_check(name: Seq<char>, f: PathFacts) -> Result<(), PackageError> {
    if !f.exists {
        Err(PackageError::NotFound)
    } else if !f.is_absolute || !f.is_dir || !f.parent_is_root || has_char(name, '/') {
        Err(PackageError::InvalidData)
    } else {
        Ok(())
    }
}

/// Decides whether the package `name` can be opened: its path must exist,
/// be an absolute directory directly under the database root, and the name
/// must not hold a path separator.
pub fn check_package(name: &str, facts: PathFacts) -> (r: Result<(), PackageError>)
    ensures
        r == package_check(name@, facts),
{
    if !facts.exists {
        return Err(PackageError::NotFound);
    }
    if !facts.is_absolute || !facts.is_dir || !facts.parent_is_root || contains_char(name, '/') {
        return Err(PackageError::InvalidData);
    }
    Ok(())
}

/// A package name that names one directory under the root: no `/` and
/// no `..`.
pub open spec fn name_valid(name: Seq<char>) -> bool {
    !has_char(name, '/') && !has_double_dot(name)
}

/// Whether `name` is a valid package name: it holds neither `/` nor `..`.
pub fn pkg_name_valid(name: &str) -> (r: bool)
    ensures
        r == name_valid(name@),
{
    !contains_char(name, '/') && !contains_double_dot(name)
}

/// A valid package name is relative and is not the parent directory, so
/// joining it to the root adds exactly one separator and the name.
pub proof fn lemma_valid_name_stays_under_root(root: Seq<char>, name: Seq<char>)
    requires
        name_valid(name),
        name.len() > 0,
        root.len() > 0,
        root.last() != '/',
    ensures
        join_path(root, name) == root + seq!['/'] + name,
        forall|i: int| 0 <= i < name.len() ==> name[i] != '/',
        name != ".."@,
{
    if name[0] == '/' {
        assert(has_char(name, '/'));
    }
    reveal_strlit("..");
    if name =~= ".."@ {
        assert(name[0] == '.' && name[1] == '.');
        assert(has_double_dot(name));
    }
    assert forall|i: int| 0 <= i < name.len() implies name[i] != '/' by {
        if name[i] == '/' {
            assert(has_char(name, '/'));
        }
    }
}

/// The directory of the package `name` under the database root.
pub fn pkg_dir(root: &str, name: &str) -> (r: String)
    ensures
        r@ == join_path(root@, name@),
{
    join(root, name)
}

/// The makepkg run that builds (and installs the dependencies of) the
/// package in `pkg_path`, with `extra_args` last.
pub fn build_command(pkg_path: &str, extra_args: &Vec<String>) -> (r: Makepkg)
    ensures
        r.0@ == Makepkg::default_spec().in_dir(pkg_path@).with_streams(
            crate::db::command::Stdio::Inherit,
        ).push_arg("--needed"@).push_arg("--noconfirm"@).push_arg("--syncdeps"@).push_arg(
            "--force"@,
        ).push_args(strings_view(extra_args@)),
{
    Makepkg::default().at(pkg_path).attach(true).needed().noconfirm().install_dependencies().force().args(
        extra_args,
    )
}

/// The makepkg run that lists the package archives of the package in
/// `pkg_path`, with its output captured.
pub fn package_list_command(pkg_path: &str) -> (r: Makepkg)
    ensures
        r.0@ == Makepkg::default_spec().in_dir(pkg_path@).with_streams(
            crate::db::command::Stdio::Piped,
        ).push_arg("--packagelist"@),
{
    Makepkg::default().at(pkg_path).capture().package_list()
}

/// The git run that updates the repository in `pkg_path`.
pub fn pull_command(pkg_path: &str) -> (r: Git)
    ensures
        r.0@ == Git::default_spec().in_dir(pkg_path@).with_streams(
            crate::db::command::Stdio::Inherit,
        ).push_arg("pull"@),
{
    Git::default().at(pkg_path).attach(true).pull()
}

/// The git run that clones `url` into `dir`.
pub fn clone_command(url: &str, dir: &str) -> (r: Git)
    ensures
        r.0@ == Git::default_spec().with_streams(crate::db::command::Stdio::Inherit).push_arg(
            "clone"@,
        ).push_arg(url@).push_arg(dir@),
{
    Git::default().attach(true).clone().repository(url).directory(dir)
}

/// Opening a package: a missing path is not found; a path that exists, is
/// an absolute directory directly under the root and whose name holds no
/// `/` opens, whatever else the name holds; any other existing path is
/// invalid.
pub proof fn lemma_package_opens(name: Seq<char>, f: PathFacts)
    ensures
        !f.exists ==> package_check(name, f) == Err::<(), PackageError>(PackageError::NotFound),
        f.exists && f.is_absolute && f.is_dir && f.parent_is_root && !has_char(name, '/')
            ==> package_check(name, f) == Ok::<(), PackageError>(()),
        f.exists && (!f.is_absolute || !f.is_dir || !f.parent_is_root || has_char(name, '/'))
            ==> package_check(name, f) == Err::<(), PackageError>(PackageError::InvalidData),
{
}

/// Only `/` in a name matters: two names that hold no `/` are judged alike
/// on the same path facts, so every other character (`-`, `.`, digits,
/// ...) is accepted.
pub proof fn lemma_package_check_ignores_other_characters(n1: Seq<char>, n2: Seq<char>, f: PathFacts)
    requires
        !has_char(n1, '/'),
        !has_char(n2, '/'),
    ensures
        package_check(n1, f) == package_check(n2, f),
{
}

} // verus!
