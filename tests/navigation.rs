use std::cell::RefCell;
use std::rc::Rc;

use url::Url;
use webauth::interceptor::{redirect_result, NavigationInterceptor};
use webauth::redirect::is_redirect_to;
use webauth::Error;

type Seen = Rc<RefCell<Vec<Result<Url, Error>>>>;

fn recording_interceptor(
    scheme: &str,
) -> (NavigationInterceptor<impl FnOnce(Result<Url, Error>)>, Seen) {
    let seen: Seen = Rc::new(RefCell::new(Vec::new()));
    let sink = seen.clone();
    let interceptor = NavigationInterceptor::new(scheme, move |r| sink.borrow_mut().push(r));
    (interceptor, seen)
}

#[test]
fn redirect_to_callback_scheme_is_intercepted() {
    let (mut interceptor, seen) = recording_interceptor("myapp");
    assert!(!interceptor.on_navigation("myapp:authorized?code=X&state=Y"));
    let seen = seen.borrow();
    assert_eq!(seen.len(), 1);
    let url = seen[0].as_ref().unwrap();
    assert_eq!(url.as_str(), "myapp:authorized?code=X&state=Y");
}

#[test]
fn longer_scheme_is_not_intercepted() {
    let (mut interceptor, seen) = recording_interceptor("myapp");
    assert!(interceptor.on_navigation("myappx:authorized?code=X&state=Y"));
    assert!(interceptor.on_navigation("https://login.example.com/authorize"));
    assert!(seen.borrow().is_empty());
}

#[test]
fn scheme_without_colon_is_not_intercepted() {
    let (mut interceptor, seen) = recording_interceptor("myapp");
    assert!(interceptor.on_navigation("myapp"));
    assert!(interceptor.on_navigation("https://example.com/?next=myapp:x"));
    assert!(seen.borrow().is_empty());
}

#[test]
fn redirect_query_round_trips() {
    let (mut interceptor, seen) = recording_interceptor("myapp");
    assert!(!interceptor.on_navigation("myapp:authorized?code=abc123&state=s1"));
    let seen = seen.borrow();
    let url = seen[0].as_ref().unwrap();
    let pairs: Vec<(String, String)> = url
        .query_pairs()
        .map(|(k, v)| (k.into_owned(), v.into_owned()))
        .collect();
    assert_eq!(
        pairs,
        vec![
            ("code".to_string(), "abc123".to_string()),
            ("state".to_string(), "s1".to_string()),
        ]
    );
}

#[test]
fn malformed_redirect_yields_invalid_url() {
    let (mut interceptor, seen) = recording_interceptor("myapp");
    assert!(!interceptor.on_navigation("myapp://host:notaport/done"));
    let seen = seen.borrow();
    assert_eq!(seen.len(), 1);
    assert!(matches!(seen[0], Err(Error::InvalidUrlInResponse(_))));
}

#[test]
fn only_first_redirect_is_delivered() {
    let (mut interceptor, seen) = recording_interceptor("myapp");
    assert!(interceptor.on_navigation("https://example.com/login"));
    assert!(!interceptor.on_navigation("myapp:first?code=1"));
    assert!(!interceptor.on_navigation("myapp:second?code=2"));
    assert!(interceptor.on_navigation("https://example.com/after"));
    let seen = seen.borrow();
    assert_eq!(seen.len(), 1);
    assert_eq!(seen[0].as_ref().unwrap().as_str(), "myapp:first?code=1");
}

#[test]
fn redirect_prefix_check() {
    assert!(is_redirect_to("myapp:x", "myapp"));
    assert!(is_redirect_to("myapp:", "myapp"));
    assert!(!is_redirect_to("myappx:x", "myapp"));
    assert!(!is_redirect_to("myap:x", "myapp"));
    assert!(!is_redirect_to("", "myapp"));
    assert!(is_redirect_to(":x", ""));
    assert!(is_redirect_to("ünï:x", "ünï"));
}

#[test]
fn redirect_result_parses_full_text() {
    let url = redirect_result("com.example.app:authorized?code=7").unwrap();
    assert_eq!(url.scheme(), "com.example.app");
    assert_eq!(url.query(), Some("code=7"));
    assert!(matches!(
        redirect_result("no scheme here"),
        Err(Error::InvalidUrlInResponse(url::ParseError::RelativeUrlWithoutBase))
    ));
}
