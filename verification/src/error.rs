//! An error message with an optional context.

use vstd::prelude::*;

use crate::db::command::opt_string_view;

verus! {

/// An error: what went wrong, and optionally what was being done.
#[derive(Debug, Clone)]
pub struct Error {
    inner: String,
    context: Option<String>,
}

/// How an error reads: `<context>: <error>`, or the error alone.
pub open spec fn error_text(inner: Seq<char>, context: Option<Seq<char>>) -> Seq<char> {
    match context {
        Some(c) => c + ": "@ + inner,
        None => inner,
    }
}

impl Error {
    /// What went wrong.
    pub closed spec fn inner_text(&self) -> Seq<char> {
        self.inner@
    }

    /// What was being done, if known.
    pub closed spec fn context_text(&self) -> Option<Seq<char>> {
        opt_string_view(self.context)
    }

    /// An error without context.
    pub fn new(e: &str) -> (r: Error)
        ensures
            r.inner_text() == e@,
            r.context_text() is None,
    {
        Error { inner: e.to_owned(), context: None }
    }

    /// An error with a context.
    pub fn new_with_context(e: &str, c: &str) -> (r: Error)
        ensures
            r.inner_text() == e@,
            r.context_text() == Some(c@),
    {
        Error { inner: e.to_owned(), context: Some(c.to_owned()) }
    }

    /// The same error with its context replaced by `c`.
    pub fn context(self, c: &str) -> (r: Error)
        ensures
            r.inner_text() == self.inner_text(),
            r.context_text() == Some(c@),
    {
        Error { inner: self.inner, context: Some(c.to_owned()) }
    }

    /// How the error reads.
    pub fn to_text(&self) -> (r: String)
        ensures
            r@ == error_text(self.inner_text(), self.context_text()),
    {
        match &self.context {
            Some(c) => {
                let mut r = c.clone();
                r.append(": ");
                r.append(self.inner.as_str());
                r
            },
            None => self.inner.clone(),
        }
    }
}

/// Attaching a context to the error of a result.
pub trait ErrorExt<T>: Sized {
    /// The result with its error, if any, given the context `c`.
    fn context(self, c: &str) -> Result<T, Error>;
}

impl<T> ErrorExt<T> for Result<T, String> {
    /// A success stays as it is; an error message becomes an `Error` with
    /// the context `c`.
    fn context(self, c: &str) -> (r: Result<T, Error>)
        ensures
            match self {
                Ok(v) => r == Ok::<T, Error>(v),
                Err(e) => r matches Err(x) && x.inner_text() == e@ && x.context_text() == Some(c@),
            },
    {
        match self {
            Ok(v) => Ok(v),
            Err(e) => Err(Error::new(e.as_str()).context(c)),
        }
    }
}

} // verus!
