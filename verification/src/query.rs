//! The query operation: what is looked up, and the pieces of its output
//! that are computed rather than printed.

use vstd::prelude::*;

use crate::aur::pkg::By;
use crate::config::options::QueryOptions;
use crate::db::command::{copy_strings, opt_string_view, strings_view};

verus! {

/// The text of the moment `secs` seconds after the Unix epoch (UTC), in
/// chrono's `%c` format, or `None` when chrono cannot represent it.
pub uninterp spec fn c_format_of(secs: i64) -> Option<Seq<char>>;

/// Formats a Unix timestamp with `chrono::DateTime::from_timestamp(secs, 0)`,
/// `naive_utc` and `format("%c")`. The result is named by `c_format_of`:
/// the calendar arithmetic is not written out here. `from_timestamp`
/// returns `None` for seconds out of chrono's range, and so does this.
#[verifier::external_body]
fn c_format(secs: i64) -> (r: Option<String>)
    ensures
        opt_string_view(r) == c_format_of(secs),
{
    match chrono::DateTime::from_timestamp(secs, 0) {
        Some(d) => Some(d.naive_utc().format("%c").to_string()),
        None => None,
    }
}

/// The text of a timestamp: `None` when it does not fit in an `i64` or is
/// out of chrono's range.
pub fn format_timestamp(timestamp: u64) -> (r: Option<String>)
    ensures
        timestamp > i64::MAX ==> r is None,
        timestamp <= i64::MAX ==> opt_string_view(r) == c_format_of(timestamp as i64),
{
    if timestamp > i64::MAX as u64 {
        None
    } else {
        c_format(timestamp as i64)
    }
}

/// The note on a package that is out of date, given the formatted moment
/// it was flagged (`None` when it could not be formatted).
pub open spec fn out_of_date_note_spec(formatted: Option<Seq<char>>) -> Seq<char> {
    " [out of date: "@ + match formatted {
        Some(f) => f,
        None => "orphaned"@,
    } + "] "@
}

/// The note printed for a package flagged out of date: ` [out of date: `,
/// the moment or `orphaned` when it has none, and `] `.
pub fn out_of_date_note(formatted: Option<String>) -> (r: String)
    ensures
        r@ == out_of_date_note_spec(opt_string_view(formatted)),
{
    let mut r = " [out of date: ".to_owned();
    match formatted {
        Some(f) => r.append(f.as_str()),
        None => r.append("orphaned"),
    }
    r.append("] ");
    r
}

/// The note printed for a package without a maintainer.
pub fn orphan_note(maintainer: &Option<String>) -> (r: &'static str)
    ensures
        r@ == (if maintainer is None { " [orphan] "@ } else { ""@ }),
{
    match maintainer {
        None => " [orphan] ",
        Some(_) => "",
    }
}

/// What a query looks up.
#[derive(Debug)]
pub enum QueryPlan {
    /// No keywords: list the packages of the database.
    ListLocal,
    /// Look up the packages named by the keywords.
    Info(Vec<String>),
    /// Search the AUR by a kind of match for the keywords.
    Search(By, Vec<String>),
}

/// The plan of a query: with no keywords the local packages are listed;
/// otherwise the keywords are package names to look up when `info` is
/// set, and search terms otherwise.
pub fn query_plan(options: &QueryOptions) -> (r: QueryPlan)
    ensures
        options.keywords@.len() == 0 ==> r is ListLocal,
        options.keywords@.len() > 0 && options.info ==> (r matches QueryPlan::Info(k) && strings_view(k@)
            == strings_view(options.keywords@)),
        options.keywords@.len() > 0 && !options.info ==> (r matches QueryPlan::Search(b, k) && b
            == options.by && strings_view(k@) == strings_view(options.keywords@)),
{
    if options.keywords.len() == 0 {
        QueryPlan::ListLocal
    } else if options.info {
        QueryPlan::Info(copy_strings(&options.keywords))
    } else {
        QueryPlan::Search(options.by, copy_strings(&options.keywords))
    }
}

} // verus!
