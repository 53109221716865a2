use vstd::prelude::*;
use crate::actions::AddAction;
use crate::actions::DeleteAction;
use crate::actions::Submission;
use crate::errors::TodoAppError;
use crate::item::Todo;
use crate::resource::ListResource;
use crate::view::compose;
use crate::view::spec_error;
use crate::view::spec_rows;
use crate::view::ViewModel;

verus! {

/// The deliberate pause before each backend create call, in
/// milliseconds. It exists so the optimistic overlay stays visible long
/// enough to be seen — a demo affordance, not a correctness requirement;
/// drivers may shorten it.
pub const ADD_DELAY_MS: u64 = 1250;

/// What the driver must do for a dispatch: perform the backend call,
/// then feed the settlement back in. Dispatches are independent and may
/// be in flight concurrently, completing in any order.
#[derive(Debug)]
pub enum Command {
    /// Persist a new record carrying `title` (after the deliberate
    /// `ADD_DELAY_MS` pause), then settle the add dispatch named by
    /// `token`.
    RunCreate { token: usize, title: String },
    /// Remove the record with identifier `id`, then settle the delete
    /// dispatch.
    RunDelete { id: u64 },
}

/// The synchronization core: both mutation actions and the list resource
/// that watches their combined versions. Settling any dispatch moves one
/// version; `sync` is the explicit subscriber that turns a version
/// change into exactly one re-fetch of the authoritative list, however
/// many settlements the change coalesces.
#[derive(Debug)]
pub struct TodosCore {
    pub add: AddAction,
    pub delete: DeleteAction,
    pub list: ListResource,
}

impl TodosCore {
    /// A fresh core: no dispatches, versions at zero, list never loaded.
    pub fn new() -> (c: TodosCore)
        ensures
            c.add.version == 0,
            c.add.submissions@ == Seq::<Submission>::empty(),
            c.delete.version == 0,
            c.delete.in_flight == 0,
            c.list.seen is None,
            !c.list.loading,
            c.list.value is None,
    {
        TodosCore { add: AddAction::new(), delete: DeleteAction::new(), list: ListResource::new() }
    }

    /// Dispatch one add: record its pending submission — versions do not
    /// move yet — and hand the driver the create call to run.
    pub fn dispatch_add(&mut self, title: String) -> (cmd: Command)
        ensures
            final(self).add.submissions@ == old(self).add.submissions@.push(
                Submission { title, pending: true },
            ),
            final(self).add.version == old(self).add.version,
            final(self).delete == old(self).delete,
            final(self).list == old(self).list,
            cmd matches Command::RunCreate { token, title: t } && token == old(
                self,
            ).add.submissions@.len() && t == title,
    {
        let echoed = title.clone();
        let token = self.add.dispatch(title);
        Command::RunCreate { token, title: echoed }
    }

    /// Dispatch one delete of the record with `id`: versions do not move
    /// yet, and no overlay entry appears for a delete.
    pub fn dispatch_delete(&mut self, id: u64) -> (cmd: Command)
        requires
            old(self).delete.in_flight < u64::MAX,
        ensures
            final(self).delete.in_flight == old(self).delete.in_flight + 1,
            final(self).delete.version == old(self).delete.version,
            final(self).add == old(self).add,
            final(self).list == old(self).list,
            cmd == (Command::RunDelete { id }),
    {
        self.delete.dispatch();
        Command::RunDelete { id }
    }

    /// An add dispatch settled, success and failure alike: its submission
    /// leaves the pending overlay and the add version moves exactly once.
    pub fn settle_add(&mut self, token: usize)
        requires
            token < old(self).add.submissions@.len(),
            old(self).add.submissions@[token as int].pending,
            old(self).add.version < u64::MAX,
        ensures
            final(self).add.version == old(self).add.version + 1,
            final(self).add.submissions@ == crate::actions::settled_at(
                old(self).add.submissions@,
                token as int,
            ),
            final(self).delete == old(self).delete,
            final(self).list == old(self).list,
    {
        self.add.settle(token);
    }

    /// A delete dispatch settled, success and failure alike: the delete
    /// version moves exactly once.
    pub fn settle_delete(&mut self)
        requires
            old(self).delete.in_flight > 0,
            old(self).delete.version < u64::MAX,
        ensures
            final(self).delete.version == old(self).delete.version + 1,
            final(self).delete.in_flight == old(self).delete.in_flight - 1,
            final(self).add == old(self).add,
            final(self).list == old(self).list,
    {
        self.delete.settle();
    }

    /// The subscriber of the version pair: when either counter moved
    /// since the last look (or nothing was ever fetched), the list goes
    /// stale and the driver must run one `list` fetch — one fetch,
    /// however many settlements the change covers. The previous value
    /// stays visible meanwhile.
    pub fn sync(&mut self) -> (refetch: bool)
        ensures
            refetch == (old(self).list.seen != Some(
                (old(self).add.version, old(self).delete.version),
            )),
            final(self).list.seen == Some((old(self).add.version, old(self).delete.version)),
            final(self).list.value == old(self).list.value,
            final(self).list.loading == (old(self).list.loading || refetch),
            final(self).add == old(self).add,
            final(self).delete == old(self).delete,
    {
        let add_version = self.add.version;
        let delete_version = self.delete.version;
        self.list.observe(add_version, delete_version)
    }

    /// The fetch the driver ran came back: its outcome becomes the
    /// latest settled list value, error and success alike.
    pub fn finish_fetch(&mut self, fetched: Result<Vec<Todo>, TodoAppError>)
        requires
            old(self).list.loading,
        ensures
            final(self).list.value == Some(fetched),
            !final(self).list.loading,
            final(self).list.seen == old(self).list.seen,
            final(self).add == old(self).add,
            final(self).delete == old(self).delete,
    {
        self.list.resolve(fetched);
    }

    /// The view-model for the current state: confirmed items in fetch
    /// order, then the pending overlay, and the propagated error if the
    /// latest fetch failed.
    pub fn view(&self) -> (vm: ViewModel)
        ensures
            vm.rows@ == spec_rows(self.list.value, self.add.submissions@),
            vm.error == spec_error(self.list.value),
    {
        compose(&self.list.value, &self.add.submissions)
    }
}

} // verus!
