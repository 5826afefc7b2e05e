//! The hook that watches every navigation of the browsing surface.
use vstd::prelude::*;

use crate::completion::Completion;
use crate::error::Error;
use crate::redirect::{is_redirect, is_redirect_to, parse_url, url_parses};
use url::Url;

verus! {

/// What is delivered for a redirect to `url`: the parsed URL when it parses,
/// else `InvalidUrlInResponse`.
pub open spec fn redirect_outcome(url: Seq<char>, v: Result<Url, Error>) -> bool {
    match v {
        Ok(_) => url_parses(url),
        Err(e) => !url_parses(url) && e is InvalidUrlInResponse,
    }
}

/// Parses the full text of a redirect, mapping a failure to
/// `InvalidUrlInResponse`.
pub fn redirect_result(url: &str) -> (r: Result<Url, Error>)
    ensures
        redirect_outcome(url@, r),
{
    match parse_url(url) {
        Ok(u) => Ok(u),
        Err(e) => Err(Error::InvalidUrlInResponse(e)),
    }
}

/// Decides, for each attempted navigation, whether it may proceed, and ends
/// the flow on the first one that targets the callback scheme.
///
/// Armed until the first redirect to `callback_scheme:`; that navigation's
/// full URL is parsed and delivered. Redirects are never loaded, also after
/// the first; every other navigation proceeds.
pub struct NavigationInterceptor<F> {
    callback_scheme: String,
    completion: Completion<F>,
}

impl<F: FnOnce(Result<Url, Error>)> NavigationInterceptor<F> {
    /// The scheme whose navigations end the flow, without the colon.
    pub closed spec fn scheme(&self) -> Seq<char> {
        self.callback_scheme@
    }

    /// No redirect has been seen yet.
    pub closed spec fn is_armed(&self) -> bool {
        self.completion.is_armed()
    }

    /// The continuation that receives the flow's result.
    pub closed spec fn continuation(&self) -> F {
        self.completion.continuation()
    }

    pub closed spec fn wf(&self) -> bool {
        self.completion.wf()
    }

    pub fn new(callback_scheme: &str, callback: F) -> (r: Self)
        requires
            forall|v: Result<Url, Error>| #[trigger] callback.requires((v,)),
        ensures
            r.wf(),
            r.is_armed(),
            r.scheme() == callback_scheme@,
            r.continuation() == callback,
    {
        NavigationInterceptor {
            callback_scheme: callback_scheme.to_owned(),
            completion: Completion::new(callback),
        }
    }

    /// Handles one attempted navigation to `url`; returns whether it may
    /// proceed. On the first redirect the continuation is called with the
    /// parsed URL, or with `InvalidUrlInResponse`.
    pub fn on_navigation(&mut self, url: &str) -> (allow: bool)
        requires
            old(self).wf(),
        ensures
            final(self).wf(),
            final(self).scheme() == old(self).scheme(),
            allow == !is_redirect(url@, old(self).scheme()),
            final(self).is_armed() == (old(self).is_armed() && allow),
            old(self).is_armed() && !allow ==> exists|v: Result<Url, Error>|
                redirect_outcome(url@, v) && #[trigger] old(self).continuation().ensures((v,), ()),
    {
        let ghost pre = *self;
        if is_redirect_to(url, self.callback_scheme.as_str()) {
            if self.completion.armed() {
                let ghost callback = self.completion.continuation();
                let v = redirect_result(url);
                let ghost g = v;
                self.completion.deliver(v);
                assert(redirect_outcome(url@, g) && callback.ensures((g,), ()));
                assert(pre.continuation() == callback);
            }
            false
        } else {
            true
        }
    }
}

} // verus!
