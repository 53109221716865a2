use vstd::prelude::*;
use crate::errors::TodoAppError;
use crate::item::Todo;

verus! {

/// What a settled `create` adds to the authoritative list: a record
/// holding the submitted title under the freshly assigned identifier.
pub open spec fn create_effect(items: Seq<Todo>, id: u64, title: String) -> Seq<Todo> {
    items.push(Todo { id: Some(id), title, completed: false })
}

/// What a settled `delete` leaves of the authoritative list: every record
/// except those carrying the deleted identifier.
pub open spec fn delete_effect(items: Seq<Todo>, id: u64) -> Seq<Todo> {
    items.filter(|t: Todo| t.id != Some(id))
}

/// Every record of an authoritative list carries a fresh-bounded,
/// backend-assigned identifier and a non-empty title, and no two records
/// share an identifier.
pub open spec fn listed_wf(items: Seq<Todo>, bound: u64) -> bool {
    &&& forall|i: int|
        0 <= i < items.len() ==> ((#[trigger] items[i]).id matches Some(v) && v < bound
            && items[i].wf())
    &&& forall|i: int, j: int|
        0 <= i < j < items.len() ==> (#[trigger] items[i]).id != (#[trigger] items[j]).id
}

/// An in-memory reference model of the backend's CRUD surface on the
/// fixed "todo" collection: the meaning the synchronization core assumes
/// for `list`, `create` and `delete`. The embedded driver runs directly
/// against it; a networked engine is expected to behave the same way.
#[derive(Debug)]
pub struct Store {
    pub items: Vec<Todo>,
    pub next_id: u64,
}

proof fn lemma_delete_effect_push(items: Seq<Todo>, x: Todo, id: u64)
    ensures
        delete_effect(items.push(x), id) == (if x.id != Some(id) {
            delete_effect(items, id).push(x)
        } else {
            delete_effect(items, id)
        }),
{
    reveal(Seq::filter);
    assert(items.push(x).drop_last() =~= items);
    assert(items.push(x).last() == x);
}

/// A list in which no record carries `id` is untouched by deleting `id`.
proof fn lemma_delete_effect_noop(items: Seq<Todo>, id: u64)
    requires
        forall|k: int| 0 <= k < items.len() ==> (#[trigger] items[k]).id != Some(id),
    ensures
        delete_effect(items, id) == items,
    decreases items.len(),
{
    reveal(Seq::filter);
    if items.len() == 0 {
        assert(delete_effect(items, id) =~= items);
    } else {
        let sub = items.drop_last();
        assert(forall|k: int| 0 <= k < sub.len() ==> (#[trigger] sub[k]).id != Some(id));
        lemma_delete_effect_noop(sub, id);
        assert(delete_effect(items, id) =~= items);
    }
}

/// Deleting preserves well-formedness, and invents no record.
proof fn lemma_delete_effect_wf(items: Seq<Todo>, id: u64, bound: u64)
    requires
        listed_wf(items, bound),
    ensures
        listed_wf(delete_effect(items, id), bound),
        forall|k: int|
            0 <= k < delete_effect(items, id).len() ==> items.contains(
                #[trigger] delete_effect(items, id)[k],
            ),
    decreases items.len(),
{
    reveal(Seq::filter);
    if items.len() == 0 {
    } else {
        let sub = items.drop_last();
        assert(listed_wf(sub, bound));
        lemma_delete_effect_wf(sub, id, bound);
        let f = delete_effect(sub, id);
        let last = items.last();
        assert(forall|k: int|
            0 <= k < sub.len() ==> items.contains(#[trigger] sub[k])) by {
            assert(forall|k: int| 0 <= k < sub.len() ==> sub[k] == items[k]);
        }
        if last.id != Some(id) {
            assert(delete_effect(items, id) == f.push(last));
            assert forall|k: int| 0 <= k < f.len() implies #[trigger] f[k].id != last.id by {
                assert(sub.contains(f[k]));
                let j = choose|j: int| 0 <= j < sub.len() && sub[j] == f[k];
                assert(items[j] == f[k]);
                assert(items[j].id != items[items.len() - 1].id);
            }
        } else {
            assert(delete_effect(items, id) == f);
        }
    }
}

impl Store {
    /// The store invariant: identifiers are unique, assigned below
    /// `next_id`, and every record has a non-empty title.
    pub open spec fn wf(&self) -> bool {
        listed_wf(self.items@, self.next_id)
    }

    /// An empty collection; no identifier has been assigned yet.
    pub fn new() -> (s: Store)
        ensures
            s.wf(),
            s.items@ == Seq::<Todo>::empty(),
            s.next_id == 0,
    {
        Store { items: Vec::new(), next_id: 0 }
    }

    /// `list`: every record of the collection, in backend-native (here:
    /// insertion) order.
    pub fn list(&self) -> (r: Result<Vec<Todo>, TodoAppError>)
        ensures
            r matches Ok(v) && v@ == self.items@,
    {
        let v = self.items.clone();
        proof {
            assert forall|i: int| 0 <= i < v@.len() implies v@[i] == self.items@[i] by {
                assert(cloned::<Todo>(self.items@[i], v@[i]));
            }
            assert(v@ =~= self.items@);
        }
        Ok(v)
    }

    /// `create`: persist a new record with the submitted title under a
    /// fresh identifier; the identifier is not handed back — callers
    /// re-fetch the list to see it.
    pub fn create(&mut self, title: String) -> (r: Result<(), TodoAppError>)
        requires
            old(self).wf(),
            title@.len() > 0,
            old(self).next_id < u64::MAX,
        ensures
            r is Ok,
            final(self).items@ == create_effect(old(self).items@, old(self).next_id, title),
            final(self).next_id == old(self).next_id + 1,
            final(self).wf(),
    {
        let id = self.next_id;
        self.items.push(Todo { id: Some(id), title, completed: false });
        self.next_id = self.next_id + 1;
        Ok(())
    }

    /// `delete`: remove the record with this identifier. A missing record
    /// is success, so delete is idempotent from the caller's side.
    pub fn delete(&mut self, id: u64) -> (r: Result<(), TodoAppError>)
        requires
            old(self).wf(),
        ensures
            r is Ok,
            final(self).items@ == delete_effect(old(self).items@, id),
            final(self).next_id == old(self).next_id,
            final(self).wf(),
    {
        let ghost orig = self.items@;
        let mut kept: Vec<Todo> = Vec::new();
        let mut i: usize = 0;
        proof {
            assert(orig.take(0) =~= Seq::<Todo>::empty());
            reveal(Seq::filter);
        }
        while i < self.items.len()
            invariant
                i <= self.items.len(),
                self.items@ == orig,
                self.next_id == old(self).next_id,
                kept@ == delete_effect(orig.take(i as int), id),
            decreases self.items.len() - i,
        {
            let t = &self.items[i];
            let keep = match t.id {
                Some(x) => x != id,
                None => true,
            };
            proof {
                assert(orig.take(i as int + 1) =~= orig.take(i as int).push(orig[i as int]));
                lemma_delete_effect_push(orig.take(i as int), orig[i as int], id);
            }
            if keep {
                kept.push(t.clone());
                proof {
                    assert(cloned::<Todo>(orig[i as int], kept@.last()));
                    assert(kept@ =~= delete_effect(orig.take(i as int + 1), id));
                }
            }
            i = i + 1;
        }
        proof {
            assert(orig.take(orig.len() as int) =~= orig);
            lemma_delete_effect_wf(orig, id, self.next_id);
        }
        self.items = kept;
        Ok(())
    }
}

/// Law: a settled add surfaces its submitted title in the authoritative
/// list under the freshly assigned, non-null identifier.
pub proof fn lemma_settled_add_listed(items: Seq<Todo>, id: u64, title: String)
    ensures
        exists|k: int|
            0 <= k < create_effect(items, id, title).len()
                && (#[trigger] create_effect(items, id, title)[k]).title == title
                && create_effect(items, id, title)[k].id == Some(id),
{
    let result = create_effect(items, id, title);
    assert(result[items.len() as int].title == title && result[items.len() as int].id == Some(
        id,
    ));
}

/// Law: a settled delete removes every record carrying the identifier,
/// keeps every other record, and deleting the same identifier again
/// changes nothing.
pub proof fn lemma_settled_delete(items: Seq<Todo>, id: u64)
    ensures
        forall|k: int|
            0 <= k < delete_effect(items, id).len() ==> (#[trigger] delete_effect(items, id)[k]).id
                != Some(id),
        forall|k: int|
            0 <= k < items.len() && (#[trigger] items[k]).id != Some(id) ==> delete_effect(
                items,
                id,
            ).contains(items[k]),
        delete_effect(delete_effect(items, id), id) == delete_effect(items, id),
{
    let pred = |t: Todo| t.id != Some(id);
    let removed = delete_effect(items, id);
    assert forall|k: int| 0 <= k < removed.len() implies (#[trigger] removed[k]).id != Some(
        id,
    ) by {
        items.lemma_filter_pred(pred, k);
    }
    assert forall|k: int|
        0 <= k < items.len() && (#[trigger] items[k]).id != Some(id) implies removed.contains(
        items[k],
    ) by {
        items.lemma_filter_contains(pred, k);
    }
    lemma_delete_effect_noop(removed, id);
}

} // verus!
