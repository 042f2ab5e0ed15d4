//! The messages between zeus and its builder, and the order in which the
//! builder expects them.

use vstd::prelude::*;

use crate::builder::Response;
use crate::config::global::GlobalConfig;
use crate::config::options::{RemoveOptions, SyncOptions};
use crate::db::command::{copy_strings, strings_view};

verus! {

/// A message between zeus and the builder.
#[derive(Debug, Clone)]
pub enum Message {
    /// The global configuration, sent first.
    Init(GlobalConfig),
    /// Sync packages.
    Sync(SyncOptions),
    /// Remove packages.
    Remove(RemoveOptions),
    /// What the builder did.
    Response(Response),
}

/// The work a builder is given.
#[derive(Debug, Clone)]
pub enum BuilderTask {
    Sync(SyncOptions),
    Remove(RemoveOptions),
}

/// The first message a builder receives must be the configuration; any
/// other message is given back as unexpected.
pub fn expect_init(m: Message) -> (r: Result<GlobalConfig, Message>)
    ensures
        m matches Message::Init(c) ==> r == Ok::<GlobalConfig, Message>(c),
        !(m is Init) ==> r == Err::<GlobalConfig, Message>(m),
{
    match m {
        Message::Init(c) => Ok(c),
        other => Err(other),
    }
}

/// The second message a builder receives must be a sync or a removal; any
/// other message is given back as unexpected.
pub fn expect_task(m: Message) -> (r: Result<BuilderTask, Message>)
    ensures
        m matches Message::Sync(o) ==> r == Ok::<BuilderTask, Message>(BuilderTask::Sync(o)),
        m matches Message::Remove(o) ==> r == Ok::<BuilderTask, Message>(BuilderTask::Remove(o)),
        !(m is Sync) && !(m is Remove) ==> r == Err::<BuilderTask, Message>(m),
{
    match m {
        Message::Sync(o) => Ok(BuilderTask::Sync(o)),
        Message::Remove(o) => Ok(BuilderTask::Remove(o)),
        other => Err(other),
    }
}

/// The builder's reply must be a response; any other message is given back
/// as unexpected.
pub fn expect_response(m: Message) -> (r: Result<Response, Message>)
    ensures
        m matches Message::Response(res) ==> r == Ok::<Response, Message>(res),
        !(m is Response) ==> r == Err::<Response, Message>(m),
{
    match m {
        Message::Response(res) => Ok(res),
        other => Err(other),
    }
}

impl Response {
    /// Records a package that was synced, with its archives.
    pub fn record(&mut self, name: &str, files: &Vec<String>)
        ensures
            strings_view(final(self).packages@) == strings_view(old(self).packages@).push(name@),
            strings_view(final(self).files@) == strings_view(old(self).files@) + strings_view(files@),
    {
        let ghost p0 = self.packages@;
        let ghost f0 = self.files@;
        self.packages.push(name.to_owned());
        let mut more = copy_strings(files);
        self.files.append(&mut more);
        assert(strings_view(self.packages@) =~= strings_view(p0).push(name@));
        assert(strings_view(self.files@) =~= strings_view(f0) + strings_view(files@));
    }
}

/// How the sync of one package by the builder ended.
#[derive(Debug, Clone)]
pub enum SyncOutcome {
    /// Committing its transaction failed; the package is not reported.
    CommitFailed,
    /// It was synced but is not found in the database.
    NotInDatabase,
    /// It was synced but its archives could not be listed.
    FilesFailed,
    /// It was synced and built these archives, relative to the build
    /// directory.
    Built(Vec<String>),
}

/// Records how the sync of the package `name` ended: a failed commit
/// leaves the response as it was; otherwise the package is reported, with
/// its archives when they were listed.
pub fn record_outcome(res: &mut Response, name: &str, outcome: &SyncOutcome)
    ensures
        outcome is CommitFailed ==> strings_view(final(res).packages@) == strings_view(old(res).packages@)
            && strings_view(final(res).files@) == strings_view(old(res).files@),
        !(outcome is CommitFailed) ==> strings_view(final(res).packages@) == strings_view(
            old(res).packages@,
        ).push(name@),
        (outcome is NotInDatabase || outcome is FilesFailed) ==> strings_view(final(res).files@)
            == strings_view(old(res).files@),
        outcome matches SyncOutcome::Built(files) ==> strings_view(final(res).files@) == strings_view(
            old(res).files@,
        ) + strings_view(files@),
{
    match outcome {
        SyncOutcome::CommitFailed => {},
        SyncOutcome::NotInDatabase | SyncOutcome::FilesFailed => {
            let none: Vec<String> = Vec::new();
            res.record(name, &none);
            assert(strings_view(old(res).files@) + strings_view(none@) =~= strings_view(old(res).files@));
        },
        SyncOutcome::Built(files) => {
            res.record(name, files);
        },
    }
}

} // verus!
