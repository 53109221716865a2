use vstd::prelude::*;
use crate::errors::TodoAppError;
use crate::item::Todo;

verus! {

/// The list resource: the authoritative list as last fetched, refreshed
/// whenever the watched pair of mutation versions changes.
///
/// It always keeps the latest settled value — a refresh in flight never
/// blanks the list the user is looking at, and a failed fetch replaces
/// the value without losing recoverability: the next version change
/// still triggers a fresh attempt.
#[derive(Debug)]
pub struct ListResource {
    /// The version pair observed last, `None` before the first look.
    pub seen: Option<(u64, u64)>,
    /// Whether a fetch is currently in flight.
    pub loading: bool,
    /// The latest settled fetch outcome, `None` while nothing ever
    /// settled.
    pub value: Option<Result<Vec<Todo>, TodoAppError>>,
}

impl ListResource {
    /// Idle: nothing observed, nothing loaded.
    pub fn new() -> (r: ListResource)
        ensures
            r.seen is None,
            !r.loading,
            r.value is None,
    {
        ListResource { seen: None, loading: false, value: None }
    }

    /// Observe the combined add/delete versions. The first look, or any
    /// change since the last look, marks the resource stale and asks the
    /// caller to fetch; the previous value stays visible meanwhile.
    /// Observing an unchanged pair asks for nothing, so a batch of
    /// settlements coalesces into a single re-fetch.
    pub fn observe(&mut self, add_version: u64, delete_version: u64) -> (refetch: bool)
        ensures
            refetch == (old(self).seen != Some((add_version, delete_version))),
            final(self).seen == Some((add_version, delete_version)),
            final(self).value == old(self).value,
            final(self).loading == (old(self).loading || refetch),
    {
        let stale = match self.seen {
            None => true,
            Some((a, d)) => !(a == add_version && d == delete_version),
        };
        if stale {
            self.loading = true;
        }
        self.seen = Some((add_version, delete_version));
        stale
    }

    /// A fetch came back: its outcome, success and failure alike, becomes
    /// the latest settled value.
    pub fn resolve(&mut self, fetched: Result<Vec<Todo>, TodoAppError>)
        requires
            old(self).loading,
        ensures
            final(self).value == Some(fetched),
            !final(self).loading,
            final(self).seen == old(self).seen,
    {
        self.value = Some(fetched);
        self.loading = false;
    }
}

} // verus!
