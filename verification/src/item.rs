use vstd::prelude::*;

verus! {

/// A single persisted task record.
///
/// `id` is the opaque, backend-assigned identifier: absent until the
/// backend first persists the record, present on every record the
/// authoritative list returns. No operation in this crate ever sets
/// `completed`.
#[derive(Debug)]
pub struct Todo {
    pub id: Option<u64>,
    pub title: String,
    pub completed: bool,
}

impl Todo {
    /// A valid record carries a non-empty title.
    pub open spec fn wf(&self) -> bool {
        self.title@.len() > 0
    }

    /// The record a `create` submits: the given title, no identifier yet,
    /// not completed.
    pub fn new(title: String) -> (t: Todo)
        ensures
            t == (Todo { id: None, title, completed: false }),
    {
        Todo { id: None, title, completed: false }
    }
}

impl Clone for Todo {
    fn clone(&self) -> (r: Self)
        ensures
            r == *self,
    {
        Todo { id: self.id, title: self.title.clone(), completed: self.completed }
    }
}

impl PartialEq for Todo {
    /// Items match only on all three fields: two records with different
    /// identifiers are never equal, even with the same title.
    fn eq(&self, other: &Todo) -> (r: bool) {
        let ids_match = match (self.id, other.id) {
            (Some(a), Some(b)) => a == b,
            (None, None) => true,
            _ => false,
        };
        ids_match && self.title == other.title && self.completed == other.completed
    }
}

impl vstd::std_specs::cmp::PartialEqSpecImpl for Todo {
    open spec fn obeys_eq_spec() -> bool {
        true
    }

    open spec fn eq_spec(&self, other: &Todo) -> bool {
        self.id == other.id && self.title@ == other.title@ && self.completed == other.completed
    }
}

} // verus!
