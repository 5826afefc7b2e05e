//! Starting a flow: the checks made before any native resource exists.
use vstd::prelude::*;

use crate::error::Error;
use crate::headers::{first_field_error, header_fields, valid_fields};
use crate::interceptor::NavigationInterceptor;
use crate::options::WebAuthOptions;
use http::header::{HeaderName, HeaderValue};
use url::Url;

verus! {

/// Fails with `NeedsToRunOnMainThread` unless called on the UI thread.
pub fn ensure_ui_thread(on_ui_thread: bool) -> (r: Result<(), Error>)
    ensures
        on_ui_thread ==> r is Ok,
        !on_ui_thread ==> r matches Err(Error::NeedsToRunOnMainThread),
{
    if on_ui_thread {
        Ok(())
    } else {
        Err(Error::NeedsToRunOnMainThread)
    }
}

/// Prepares a flow in an embedded web surface: checks the thread, converts
/// the extra header fields, and arms the interceptor that ends the flow on
/// the first redirect to `callback_scheme:`.
pub fn begin_navigation_flow<F: FnOnce(Result<Url, Error>)>(
    on_ui_thread: bool,
    callback_scheme: &str,
    options: &WebAuthOptions,
    callback: F,
) -> (r: Result<(NavigationInterceptor<F>, Vec<(HeaderName, HeaderValue)>), Error>)
    requires
        forall|v: Result<Url, Error>| #[trigger] callback.requires((v,)),
    ensures
        !on_ui_thread ==> r matches Err(Error::NeedsToRunOnMainThread),
        on_ui_thread ==> (r is Ok <==> valid_fields(options.fields())),
        on_ui_thread && r is Err ==> first_field_error(options.fields(), r->Err_0),
        r is Ok ==> ({
            let (interceptor, headers) = r->Ok_0;
            &&& interceptor.wf()
            &&& interceptor.is_armed()
            &&& interceptor.scheme() == callback_scheme@
            &&& interceptor.continuation() == callback
            &&& headers.len() == options.fields().len()
        }),
{
    ensure_ui_thread(on_ui_thread)?;
    let headers = header_fields(options)?;
    Ok((NavigationInterceptor::new(callback_scheme, callback), headers))
}

} // verus!
