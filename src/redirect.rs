//! Recognising the redirect that ends a flow, and parsing it.
use vstd::prelude::*;

use url::{ParseError, Url};

verus! {

#[verifier::external_type_specification]
#[verifier::external_body]
pub struct ExUrl(url::Url);

/// Whether `url::Url::parse` accepts the text as an absolute URL.
pub uninterp spec fn url_parses(text: Seq<char>) -> bool;

/// Relies on `url::Url::parse`: it succeeds exactly on the texts it accepts,
/// which depends on the text alone.
#[verifier::external_body]
pub(crate) fn parse_url(text: &str) -> (r: Result<Url, ParseError>)
    ensures
        r is Ok <==> url_parses(text@),
{
    Url::parse(text)
}

/// `url` begins with `scheme` followed by a colon.
pub open spec fn is_redirect(url: Seq<char>, scheme: Seq<char>) -> bool {
    &&& url.len() > scheme.len()
    &&& url.subrange(0, scheme.len() as int) == scheme
    &&& url[scheme.len() as int] == ':'
}

/// Tests whether a navigation target carries the callback scheme, that is,
/// starts with the scheme and a colon. `myapp:x` matches `myapp`; `myappx:x`
/// does not.
pub fn is_redirect_to(url: &str, scheme: &str) -> (r: bool)
    ensures
        r == is_redirect(url@, scheme@),
{
    let n = scheme.unicode_len();
    let m = url.unicode_len();
    if m <= n {
        return false;
    }
    let mut i: usize = 0;
    while i < n
        invariant
            n == scheme@.len(),
            m == url@.len(),
            n < m,
            i <= n,
            forall|j: int| 0 <= j < i ==> url@[j] == scheme@[j],
        decreases n - i,
    {
        if url.get_char(i) != scheme.get_char(i) {
            assert(url@.subrange(0, n as int)[i as int] != scheme@[i as int]);
            return false;
        }
        i = i + 1;
    }
    assert(url@.subrange(0, n as int) =~= scheme@);
    url.get_char(n) == ':'
}

} // verus!
