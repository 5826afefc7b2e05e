//! Completion signals of the system authentication session.
use vstd::prelude::*;

use crate::completion::Completion;
use crate::error::Error;
use crate::interceptor::{redirect_outcome, redirect_result};
use url::Url;

verus! {

/// What a native completion signal resolves to.
///
/// `url` is `None` when the session reported no URL, `Some(None)` when it
/// reported one whose text could not be read, `Some(Some(text))` otherwise;
/// `error` holds the description of a reported error. A URL wins over an
/// error; with neither, the flow ends with `NoUrlInResponse`.
pub open spec fn session_outcome(
    url: Option<Option<String>>,
    error: Option<String>,
    v: Result<Url, Error>,
) -> bool {
    match url {
        Some(Some(text)) => redirect_outcome(text@, v),
        Some(None) => v matches Err(Error::NoUrlInResponse),
        None => match error {
            Some(d) => match v {
                Err(Error::Darwin(s)) => s@ == d@,
                _ => false,
            },
            None => v matches Err(Error::NoUrlInResponse),
        },
    }
}

/// Turns one native completion signal into the flow's result.
pub fn session_result(url: Option<Option<String>>, error: Option<String>) -> (r: Result<Url, Error>)
    ensures
        session_outcome(url, error, r),
{
    match url {
        Some(Some(text)) => redirect_result(text.as_str()),
        Some(None) => Err(Error::NoUrlInResponse),
        None => match error {
            Some(d) => Err(Error::Darwin(d)),
            None => Err(Error::NoUrlInResponse),
        },
    }
}

/// Receives the completion signals of a system authentication session and
/// delivers the first one; signals that come later (duplicates, or a call
/// after cancellation) are ignored.
pub struct SessionCompletion<F> {
    completion: Completion<F>,
}

impl<F: FnOnce(Result<Url, Error>)> SessionCompletion<F> {
    /// No signal has been delivered yet.
    pub closed spec fn is_armed(&self) -> bool {
        self.completion.is_armed()
    }

    /// The continuation that receives the flow's result.
    pub closed spec fn continuation(&self) -> F {
        self.completion.continuation()
    }

    pub closed spec fn wf(&self) -> bool {
        self.completion.wf()
    }

    pub fn new(callback: F) -> (r: Self)
        requires
            forall|v: Result<Url, Error>| #[trigger] callback.requires((v,)),
        ensures
            r.wf(),
            r.is_armed(),
            r.continuation() == callback,
    {
        SessionCompletion { completion: Completion::new(callback) }
    }

    /// Handles one completion signal; returns whether it was the one
    /// delivered.
    pub fn on_complete(&mut self, url: Option<Option<String>>, error: Option<String>) -> (delivered: bool)
        requires
            old(self).wf(),
        ensures
            final(self).wf(),
            !final(self).is_armed(),
            delivered == old(self).is_armed(),
            delivered ==> exists|v: Result<Url, Error>|
                session_outcome(url, error, v) && #[trigger] old(self).continuation().ensures((v,), ()),
    {
        let ghost pre = *self;
        if self.completion.armed() {
            let ghost callback = self.completion.continuation();
            let ghost (u, e) = (url, error);
            let v = session_result(url, error);
            let ghost g = v;
            self.completion.deliver(v);
            assert(session_outcome(u, e, g) && callback.ensures((g,), ()));
            assert(pre.continuation() == callback);
            true
        } else {
            false
        }
    }
}

} // verus!
