use vstd::prelude::*;
use crate::actions::lemma_dispatch_extends_overlay;
use crate::actions::lemma_settle_shrinks_overlay;
use crate::actions::overlay;
use crate::actions::settled_at;
use crate::actions::Submission;
use crate::errors::TodoAppError;
use crate::item::Todo;

verus! {

/// One render-ready row of the view-model.
#[derive(Debug)]
pub enum Row {
    /// A confirmed item of the authoritative list, with its identifier
    /// for the delete affordance.
    Confirmed { id: Option<u64>, title: String },
    /// An optimistic entry for an add dispatch still in flight: the
    /// submitted title only — no identifier, no delete affordance.
    Pending { title: String },
}

/// The rows the confirmed items produce, in fetch order.
pub open spec fn confirmed_rows(items: Seq<Todo>) -> Seq<Row> {
    items.map_values(|t: Todo| Row::Confirmed { id: t.id, title: t.title })
}

/// The rows the still-pending submissions produce, in dispatch order.
pub open spec fn pending_rows(subs: Seq<Submission>) -> Seq<Row> {
    overlay(subs).map_values(|s: Submission| Row::Pending { title: s.title })
}

/// Every row the view shows: confirmed items first (none while the list
/// never loaded or failed), then the pending overlay.
pub open spec fn spec_rows(
    latest: Option<Result<Vec<Todo>, TodoAppError>>,
    subs: Seq<Submission>,
) -> Seq<Row> {
    (match latest {
        Some(Ok(items)) => confirmed_rows(items@),
        _ => Seq::<Row>::empty(),
    }) + pending_rows(subs)
}

/// The propagated error: a failed fetch supersedes the confirmed items,
/// but nothing else produces an error.
pub open spec fn spec_error(latest: Option<Result<Vec<Todo>, TodoAppError>>) -> Option<
    TodoAppError,
> {
    match latest {
        Some(Err(e)) => Some(e),
        _ => None,
    }
}

/// The merged, render-ready representation handed to the rendering
/// layer: ordered rows and at most one propagated error.
#[derive(Debug)]
pub struct ViewModel {
    pub rows: Vec<Row>,
    pub error: Option<TodoAppError>,
}

/// Merge the latest list value with the still-pending submissions:
/// confirmed items in fetch order, then one pending row per in-flight
/// add. A fetch error replaces the confirmed rows but never hides the
/// pending overlay.
pub fn compose(
    latest: &Option<Result<Vec<Todo>, TodoAppError>>,
    submissions: &Vec<Submission>,
) -> (vm: ViewModel)
    ensures
        vm.rows@ == spec_rows(*latest, submissions@),
        vm.error == spec_error(*latest),
{
    let mut rows: Vec<Row> = Vec::new();
    let mut error: Option<TodoAppError> = None;
    match latest {
        Some(Ok(items)) => {
            let mut i: usize = 0;
            proof {
                assert(rows@ =~= confirmed_rows(items@.take(0)));
            }
            while i < items.len()
                invariant
                    i <= items.len(),
                    rows@ == confirmed_rows(items@.take(i as int)),
                decreases items.len() - i,
            {
                rows.push(Row::Confirmed { id: items[i].id, title: items[i].title.clone() });
                proof {
                    assert(rows@ =~= confirmed_rows(items@.take(i as int + 1)));
                }
                i = i + 1;
            }
            proof {
                assert(items@.take(items@.len() as int) =~= items@);
            }
        },
        Some(Err(e)) => {
            error = Some(e.clone());
        },
        None => {},
    }
    let ghost confirmed = rows@;
    let mut j: usize = 0;
    proof {
        reveal(Seq::filter);
        assert(submissions@.take(0) =~= Seq::<Submission>::empty());
        assert(rows@ =~= confirmed + pending_rows(submissions@.take(0)));
    }
    while j < submissions.len()
        invariant
            j <= submissions.len(),
            rows@ == confirmed + pending_rows(submissions@.take(j as int)),
            error == spec_error(*latest),
        decreases submissions.len() - j,
    {
        proof {
            assert(submissions@.take(j as int + 1) =~= submissions@.take(j as int).push(
                submissions@[j as int],
            ));
            crate::actions::lemma_overlay_push(
                submissions@.take(j as int),
                submissions@[j as int],
            );
        }
        if submissions[j].pending {
            rows.push(Row::Pending { title: submissions[j].title.clone() });
        }
        proof {
            assert(rows@ =~= confirmed + pending_rows(submissions@.take(j as int + 1)));
        }
        j = j + 1;
    }
    proof {
        assert(submissions@.take(submissions@.len() as int) =~= submissions@);
    }
    ViewModel { rows, error }
}

/// Law: while an add dispatch is pending, the view-model carries a
/// pending row whose text equals exactly the submitted title — whatever
/// the list value shows, error included.
pub proof fn lemma_view_shows_pending_title(
    latest: Option<Result<Vec<Todo>, TodoAppError>>,
    subs: Seq<Submission>,
    title: String,
)
    ensures
        spec_rows(latest, subs.push(Submission { title, pending: true })).contains(
            Row::Pending { title },
        ),
{
    lemma_dispatch_extends_overlay(subs, title);
    let pushed = subs.push(Submission { title, pending: true });
    let rows = spec_rows(latest, pushed);
    assert(pending_rows(pushed).last() == Row::Pending { title });
    assert(rows[rows.len() - 1] == Row::Pending { title });
}

/// Law: once that dispatch settles, its row leaves the view-model's
/// overlay regardless of success or failure — the rows are exactly those
/// the other submissions produce.
pub proof fn lemma_view_drops_settled_row(
    latest: Option<Result<Vec<Todo>, TodoAppError>>,
    subs: Seq<Submission>,
    token: int,
)
    requires
        0 <= token < subs.len(),
    ensures
        spec_rows(latest, settled_at(subs, token)) == spec_rows(latest, subs.remove(token)),
{
    lemma_settle_shrinks_overlay(subs, token);
}

} // verus!
