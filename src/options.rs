//! Configuration of an authentication flow.
use vstd::prelude::*;

verus! {

/// How the browsing surface of a flow is set up.
///
/// `additional_header_fields` is an ordered map from header names to values,
/// sent with the first request: names are unique, and fields keep the order
/// in which their names were first inserted.
pub struct WebAuthOptions {
    /// Browse without keeping cookies or other state between flows.
    pub prefers_ephemeral_web_browser_session: bool,
    additional_header_fields: Vec<(String, String)>,
}

/// No two fields share a name.
pub open spec fn distinct_names(fields: Seq<(String, String)>) -> bool {
    forall|i: int, j: int|
        0 <= i < fields.len() && 0 <= j < fields.len() && i != j ==> #[trigger] fields[i].0@
            != #[trigger] fields[j].0@
}

impl WebAuthOptions {
    /// Field names are unique; every constructor and method keeps this.
    pub closed spec fn wf(&self) -> bool {
        distinct_names(self.additional_header_fields@)
    }

    /// Whether the session is ephemeral.
    pub closed spec fn ephemeral(&self) -> bool {
        self.prefers_ephemeral_web_browser_session
    }

    /// The extra header fields, in order.
    pub closed spec fn fields(&self) -> Seq<(String, String)> {
        self.additional_header_fields@
    }

    /// Options for a non-ephemeral session without extra header fields.
    pub fn new() -> (r: Self)
        ensures
            r.wf(),
            !r.ephemeral(),
            r.fields().len() == 0,
    {
        WebAuthOptions {
            prefers_ephemeral_web_browser_session: false,
            additional_header_fields: Vec::new(),
        }
    }

    /// The extra header fields, in order.
    pub fn header_fields(&self) -> (r: &Vec<(String, String)>)
        ensures
            r@ == self.fields(),
            self.wf() ==> distinct_names(r@),
    {
        &self.additional_header_fields
    }

    /// Sets the field `name` to `value`, returning the value it replaces. A
    /// field that is already there keeps its place; a new one goes last.
    pub fn insert_header(&mut self, name: String, value: String) -> (r: Option<String>)
        requires
            old(self).wf(),
        ensures
            final(self).wf(),
            final(self).ephemeral() == old(self).ephemeral(),
            match r {
                Some(prev) => exists|i: int|
                    0 <= i < old(self).fields().len() && (#[trigger] old(self).fields()[i]).0@ == name@
                        && prev == old(self).fields()[i].1 && final(self).fields() == old(
                        self,
                    ).fields().update(i, (name, value)),
                None => (forall|i: int|
                    0 <= i < old(self).fields().len() ==> (#[trigger] old(self).fields()[i]).0@
                        != name@) && final(self).fields() == old(self).fields().push((name, value)),
            },
    {
        let n = self.additional_header_fields.len();
        let mut i: usize = 0;
        while i < n
            invariant
                n == self.additional_header_fields@.len(),
                i <= n,
                *self == *old(self),
                distinct_names(self.additional_header_fields@),
                forall|j: int| 0 <= j < i ==> (#[trigger] self.additional_header_fields@[j]).0@ != name@,
            decreases n - i,
        {
            if self.additional_header_fields[i].0 == name {
                let ghost before = self.additional_header_fields@;
                let prev = self.additional_header_fields[i].1.clone();
                self.additional_header_fields.set(i, (name, value));
                let ghost after = self.additional_header_fields@;
                assert(distinct_names(after)) by {
                    assert forall|a: int, b: int|
                        0 <= a < after.len() && 0 <= b < after.len() && a != b implies #[trigger] after[a].0@
                        != #[trigger] after[b].0@ by {
                        assert(a != i ==> before[a].0@ != name@);
                        assert(b != i ==> before[b].0@ != name@);
                        assert(before[a].0@ != before[b].0@);
                    };
                };
                assert(after =~= before.update(i as int, (name, value)));
                assert(old(self).fields()[i as int].0@ == name@);
                return Some(prev);
            }
            i = i + 1;
        }
        self.additional_header_fields.push((name, value));
        None
    }
}

impl Default for WebAuthOptions {
    fn default() -> (r: Self)
        ensures
            r.wf(),
            !r.ephemeral(),
            r.fields().len() == 0,
    {
        WebAuthOptions::new()
    }
}

} // verus!
