use vstd::prelude::*;
use vstd::pervasive::VecAdditionalExecFns;

verus! {

/// One optimistic add submission: the title exactly as submitted, and
/// whether its dispatch is still in flight.
#[derive(Debug)]
pub struct Submission {
    pub title: String,
    pub pending: bool,
}

impl Clone for Submission {
    fn clone(&self) -> (r: Self)
        ensures
            r == *self,
    {
        Submission { title: self.title.clone(), pending: self.pending }
    }
}

/// The submissions still in flight, in dispatch order: the optimistic
/// overlay the view shows after the confirmed items.
pub open spec fn overlay(subs: Seq<Submission>) -> Seq<Submission> {
    subs.filter(|s: Submission| s.pending)
}

/// The submissions after the dispatch at `token` settles: the same
/// entries in the same order, with that one no longer pending.
pub open spec fn settled_at(subs: Seq<Submission>, token: int) -> Seq<Submission> {
    subs.update(token, Submission { title: subs[token].title, pending: false })
}

/// The add mutation action: any number of dispatches may run at once,
/// each with its own live submission entry, and a version counter that
/// moves exactly once per settled dispatch — success and failure alike.
#[derive(Debug)]
pub struct AddAction {
    pub submissions: Vec<Submission>,
    pub version: u64,
}

impl AddAction {
    pub fn new() -> (a: AddAction)
        ensures
            a.version == 0,
            a.submissions@ == Seq::<Submission>::empty(),
    {
        AddAction { submissions: Vec::new(), version: 0 }
    }

    /// Start one add dispatch. The submission is recorded as pending; the
    /// version does not move at dispatch time. The returned token names
    /// this submission until it settles.
    pub fn dispatch(&mut self, title: String) -> (token: usize)
        ensures
            final(self).submissions@ == old(self).submissions@.push(
                Submission { title, pending: true },
            ),
            final(self).version == old(self).version,
            token == old(self).submissions@.len(),
    {
        let token = self.submissions.len();
        self.submissions.push(Submission { title, pending: true });
        token
    }

    /// Settle the dispatch named by `token`, success and failure alike:
    /// its submission stops being pending and the version moves exactly
    /// once. Nothing else changes.
    pub fn settle(&mut self, token: usize)
        requires
            token < old(self).submissions@.len(),
            old(self).submissions@[token as int].pending,
            old(self).version < u64::MAX,
        ensures
            final(self).version == old(self).version + 1,
            final(self).submissions@ == settled_at(old(self).submissions@, token as int),
    {
        let title = self.submissions[token].title.clone();
        self.submissions.set(token, Submission { title, pending: false });
        self.version = self.version + 1;
    }
}

/// The delete mutation action: no optimistic overlay entry, only a
/// version counter that moves exactly once per settled dispatch plus the
/// number of dispatches still in flight.
#[derive(Debug)]
pub struct DeleteAction {
    pub version: u64,
    pub in_flight: u64,
}

impl DeleteAction {
    pub fn new() -> (a: DeleteAction)
        ensures
            a.version == 0,
            a.in_flight == 0,
    {
        DeleteAction { version: 0, in_flight: 0 }
    }

    /// Start one delete dispatch; the version does not move yet.
    pub fn dispatch(&mut self)
        requires
            old(self).in_flight < u64::MAX,
        ensures
            final(self).version == old(self).version,
            final(self).in_flight == old(self).in_flight + 1,
    {
        self.in_flight = self.in_flight + 1;
    }

    /// Settle one delete dispatch, success and failure alike: the version
    /// moves exactly once.
    pub fn settle(&mut self)
        requires
            old(self).in_flight > 0,
            old(self).version < u64::MAX,
        ensures
            final(self).version == old(self).version + 1,
            final(self).in_flight == old(self).in_flight - 1,
    {
        self.in_flight = self.in_flight - 1;
        self.version = self.version + 1;
    }
}

/// How one more submission changes the overlay: a pending one is
/// appended, a settled one leaves the overlay unchanged.
pub proof fn lemma_overlay_push(subs: Seq<Submission>, x: Submission)
    ensures
        overlay(subs.push(x)) == (if x.pending {
            overlay(subs).push(x)
        } else {
            overlay(subs)
        }),
{
    reveal(Seq::filter);
    assert(subs.push(x).drop_last() =~= subs);
    assert(subs.push(x).last() == x);
}

/// Law: dispatching an add puts a pending entry carrying exactly the
/// submitted title into the overlay; every entry already there survives.
pub proof fn lemma_dispatch_extends_overlay(subs: Seq<Submission>, title: String)
    ensures
        overlay(subs.push(Submission { title, pending: true })) == overlay(subs).push(
            Submission { title, pending: true },
        ),
        overlay(subs.push(Submission { title, pending: true })).contains(
            Submission { title, pending: true },
        ),
{
    reveal(Seq::filter);
    let pushed = subs.push(Submission { title, pending: true });
    assert(pushed.drop_last() =~= subs);
    assert(overlay(pushed).last() == Submission { title, pending: true });
    assert(overlay(pushed).contains(Submission { title, pending: true }));
}

/// Law: settling a dispatch removes its entry from the overlay — the
/// overlay afterwards is exactly the overlay of the other submissions,
/// whatever the dispatch's outcome was.
pub proof fn lemma_settle_shrinks_overlay(subs: Seq<Submission>, token: int)
    requires
        0 <= token < subs.len(),
    ensures
        overlay(settled_at(subs, token)) == overlay(subs.remove(token)),
{
    let pred = |s: Submission| s.pending;
    let settled = Submission { title: subs[token].title, pending: false };
    let prefix = subs.take(token);
    let suffix = subs.skip(token + 1);
    assert(subs.update(token, settled) =~= prefix + seq![settled] + suffix);
    assert(subs.remove(token) =~= prefix + suffix);
    Seq::filter_distributes_over_add(prefix + seq![settled], suffix, pred);
    Seq::filter_distributes_over_add(prefix, seq![settled], pred);
    Seq::filter_distributes_over_add(prefix, suffix, pred);
    reveal_with_fuel(Seq::filter, 2);
    assert(seq![settled].drop_last() =~= Seq::<Submission>::empty());
    assert(Seq::<Submission>::empty().filter(pred) =~= Seq::<Submission>::empty());
    assert(seq![settled].filter(pred) =~= Seq::<Submission>::empty());
    assert((prefix + seq![settled]).filter(pred) =~= prefix.filter(pred));
}

/// Law: dispatches settle independently — two distinct dispatches may
/// settle in either order and leave the same submissions behind.
pub proof fn lemma_settlements_commute(subs: Seq<Submission>, a: int, b: int)
    requires
        0 <= a < subs.len(),
        0 <= b < subs.len(),
        a != b,
    ensures
        settled_at(settled_at(subs, a), b) == settled_at(settled_at(subs, b), a),
{
    assert(settled_at(settled_at(subs, a), b) =~= settled_at(settled_at(subs, b), a));
}

} // verus!
