//! Single delivery of a flow's result to its continuation.
use vstd::prelude::*;

use crate::error::Error;
use url::Url;

verus! {

/// Hands a flow's result to its continuation at most once.
///
/// Native completion mechanisms may fire zero, one or several times; the
/// first value offered goes to the continuation, every later one is dropped.
pub struct Completion<F> {
    callback: Option<F>,
}

/// One call of `Completion::deliver`: the guard is disarmed afterwards, and
/// the value went out exactly when the guard was armed before.
pub open spec fn delivery_step(armed_before: bool, armed_after: bool, delivered: bool) -> bool {
    !armed_after && delivered == armed_before
}

/// Exactly-once delivery: when offers are made one after another to a guard
/// that starts armed, the first offer is delivered and every later one is
/// dropped. `armed[i]` is the guard's state before offer `i`, `delivered[i]`
/// what that offer returned.
pub proof fn lemma_exactly_once(armed: Seq<bool>, delivered: Seq<bool>)
    requires
        armed.len() == delivered.len() + 1,
        armed[0],
        forall|i: int|
            0 <= i < delivered.len() ==> delivery_step(armed[i], armed[i + 1], #[trigger] delivered[i]),
    ensures
        delivered.len() > 0 ==> delivered[0],
        forall|i: int| 0 < i < delivered.len() ==> !delivered[i],
{
    assert forall|i: int| 0 < i < delivered.len() implies !delivered[i] by {
        let _ = delivered[i - 1];
    }
}

impl<F: FnOnce(Result<Url, Error>)> Completion<F> {
    /// No value has been delivered yet.
    pub closed spec fn is_armed(&self) -> bool {
        self.callback is Some
    }

    /// The continuation that the first value goes to.
    pub closed spec fn continuation(&self) -> F
        recommends
            self.is_armed(),
    {
        self.callback->Some_0
    }

    /// While armed, the continuation accepts every result.
    pub closed spec fn wf(&self) -> bool {
        self.callback is Some ==> forall|v: Result<Url, Error>|
            #[trigger] self.callback->Some_0.requires((v,))
    }

    pub fn new(callback: F) -> (r: Self)
        requires
            forall|v: Result<Url, Error>| #[trigger] callback.requires((v,)),
        ensures
            r.wf(),
            r.is_armed(),
            r.continuation() == callback,
    {
        Completion { callback: Some(callback) }
    }

    /// Whether no value has been delivered yet.
    pub fn armed(&self) -> (r: bool)
        ensures
            r == self.is_armed(),
    {
        self.callback.is_some()
    }

    /// Offers a result: the first offer is passed to the continuation, later
    /// ones are ignored. Returns whether this offer was the one delivered.
    pub fn deliver(&mut self, value: Result<Url, Error>) -> (delivered: bool)
        requires
            old(self).wf(),
        ensures
            final(self).wf(),
            delivery_step(old(self).is_armed(), final(self).is_armed(), delivered),
            delivered ==> old(self).continuation().ensures((value,), ()),
    {
        match self.callback.take() {
            Some(callback) => {
                callback(value);
                true
            },
            None => false,
        }
    }
}

} // verus!
