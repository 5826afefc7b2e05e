use std::cell::Cell;
use std::rc::Rc;

use futures::channel::oneshot;
use url::Url;
use webauth::adapter::{resolve, send_result, AuthenticationFuture};
use webauth::Error;

struct Handle(Rc<Cell<u32>>);

impl Drop for Handle {
    fn drop(&mut self) {
        self.0.set(self.0.get() + 1);
    }
}

#[test]
fn dropped_sender_resolves_to_aborted() {
    let (sender, mut receiver) = oneshot::channel::<Result<Url, Error>>();
    drop(sender);
    let polled = receiver.try_recv().map(|v| v.unwrap());
    assert!(matches!(resolve(polled), Err(Error::Aborted)));
}

#[test]
fn sent_value_is_received() {
    let (sender, mut receiver) = oneshot::channel::<Result<Url, Error>>();
    assert!(send_result(sender, Ok(Url::parse("myapp:ok?code=1").unwrap())));
    let polled = receiver.try_recv().map(|v| v.unwrap());
    assert_eq!(resolve(polled).unwrap().as_str(), "myapp:ok?code=1");
}

#[test]
fn send_after_receiver_dropped_is_noop() {
    let (sender, receiver) = oneshot::channel::<Result<Url, Error>>();
    drop(receiver);
    assert!(!send_result(sender, Err(Error::NoUrlInResponse)));
}

#[test]
fn start_error_is_reported_on_first_poll() {
    let (_sender, receiver) = oneshot::channel::<Result<Url, Error>>();
    let mut future: AuthenticationFuture<Handle> =
        AuthenticationFuture::new(receiver, Err(Error::NeedsToRunOnMainThread));
    assert!(matches!(future.take_start_error(), Some(Error::NeedsToRunOnMainThread)));
    assert!(future.take_start_error().is_none());
}

#[test]
fn pending_poll_keeps_handle() {
    let releases = Rc::new(Cell::new(0));
    let (_sender, receiver) = oneshot::channel::<Result<Url, Error>>();
    let mut future = AuthenticationFuture::new(receiver, Ok(Handle(releases.clone())));
    assert!(future.take_start_error().is_none());
    assert!(future.settle(None).is_none());
    assert_eq!(releases.get(), 0);
    drop(future);
    assert_eq!(releases.get(), 1);
}

#[test]
fn completion_releases_handle_once() {
    let releases = Rc::new(Cell::new(0));
    let (sender, mut receiver) = oneshot::channel::<Result<Url, Error>>();
    sender.send(Ok(Url::parse("myapp:done").unwrap())).unwrap();
    let polled = receiver.try_recv().map(|v| v.unwrap());
    let mut future = AuthenticationFuture::new(receiver, Ok(Handle(releases.clone())));
    let r = future.settle(Some(polled)).unwrap();
    assert_eq!(r.unwrap().as_str(), "myapp:done");
    assert_eq!(releases.get(), 1);
    drop(future);
    assert_eq!(releases.get(), 1);
}

#[test]
fn abandoned_flow_settles_aborted() {
    let releases = Rc::new(Cell::new(0));
    let (sender, mut receiver) = oneshot::channel::<Result<Url, Error>>();
    drop(sender);
    let polled = receiver.try_recv().map(|v| v.unwrap());
    let mut future = AuthenticationFuture::new(receiver, Ok(Handle(releases.clone())));
    assert!(matches!(future.settle(Some(polled)), Some(Err(Error::Aborted))));
    assert_eq!(releases.get(), 1);
}
