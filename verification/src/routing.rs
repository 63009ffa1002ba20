//! What routing a stream of updates asks of a pipe, and the order in which
//! it does so.

use crate::datasource::{DatasourceId, Update};
use crate::error::CarbonResult;
use crate::metrics::MetricsCollection;
use crate::processor::Call;
use std::sync::Arc;
use vstd::prelude::*;

verus! {

/// The runs that routing `updates` one after the other asks of the pipe at
/// position `pipe` among the pipes of one kind, where `payloads` holds, for
/// each update, its payload if it is of that kind, and `outcomes` holds, for
/// each update, the answers of the pipes it was routed to. The updates of the
/// kind come in the order in which they stand in `updates`, and none is left
/// out, whatever the answers before it were.
pub open spec fn handed_over<T>(
    payloads: Seq<Option<T>>,
    metrics: Arc<MetricsCollection>,
    outcomes: Seq<Seq<CarbonResult<()>>>,
    pipe: int,
) -> Seq<Call<T>>
    decreases payloads.len(),
{
    if payloads.len() == 0 {
        Seq::empty()
    } else {
        let earlier = handed_over(payloads.drop_last(), metrics, outcomes.drop_last(), pipe);
        match payloads.last() {
            Some(input) => earlier.push(Call { input, metrics, result: outcomes.last()[pipe] }),
            None => earlier,
        }
    }
}

/// Routing one more update adds one run for a pipe of the update's kind, and
/// none for a pipe of another kind.
pub proof fn lemma_handed_over_push<T>(
    payloads: Seq<Option<T>>,
    metrics: Arc<MetricsCollection>,
    outcomes: Seq<Seq<CarbonResult<()>>>,
    pipe: int,
    payload: Option<T>,
    results: Seq<CarbonResult<()>>,
)
    ensures
        handed_over(payloads.push(payload), metrics, outcomes.push(results), pipe)
            == match payload {
            Some(input) => handed_over(payloads, metrics, outcomes, pipe).push(
                Call { input, metrics, result: results[pipe] },
            ),
            None => handed_over(payloads, metrics, outcomes, pipe),
        },
{
    assert(payloads.push(payload).drop_last() =~= payloads);
    assert(outcomes.push(results).drop_last() =~= outcomes);
}

/// The answers in `outcomes`, as sequences.
pub open spec fn answers(outcomes: Seq<Vec<CarbonResult<()>>>) -> Seq<Seq<CarbonResult<()>>> {
    outcomes.map_values(|results: Vec<CarbonResult<()>>| results@)
}

/// What a pipe is handed when `updates` are routed one after the other: the
/// payload of each update that `payload_of` picks, with the datasource that
/// the update came from, in the order of `updates`.
pub open spec fn routed<T>(
    updates: Seq<(Update, DatasourceId)>,
    payload_of: spec_fn(Update) -> Option<T>,
) -> Seq<(T, DatasourceId)>
    decreases updates.len(),
{
    if updates.len() == 0 {
        Seq::empty()
    } else {
        let earlier = routed(updates.drop_last(), payload_of);
        match payload_of(updates.last().0) {
            Some(payload) => earlier.push((payload, updates.last().1)),
            None => earlier,
        }
    }
}

/// Those of `items` that came from the datasource called `producer`, in the
/// order of `items`.
pub open spec fn from_producer<A>(items: Seq<(A, DatasourceId)>, producer: Seq<char>) -> Seq<
    (A, DatasourceId),
>
    decreases items.len(),
{
    if items.len() == 0 {
        Seq::empty()
    } else {
        let earlier = from_producer(items.drop_last(), producer);
        if items.last().1@ == producer {
            earlier.push(items.last())
        } else {
            earlier
        }
    }
}

/// The runs asked of a pipe are for the payloads routed to it, in their
/// order, whatever the answers were: a failure on one update keeps no later
/// update from a pipe.
pub proof fn lemma_runs_are_routed<T>(
    updates: Seq<(Update, DatasourceId)>,
    payload_of: spec_fn(Update) -> Option<T>,
    payloads: Seq<Option<T>>,
    metrics: Arc<MetricsCollection>,
    outcomes: Seq<Seq<CarbonResult<()>>>,
    pipe: int,
)
    requires
        payloads.len() == updates.len(),
        outcomes.len() == updates.len(),
        forall|j: int|
            0 <= j < updates.len() ==> #[trigger] payloads[j] == payload_of(updates[j].0),
    ensures
        handed_over(payloads, metrics, outcomes, pipe).len() == routed(
            updates,
            payload_of,
        ).len(),
        forall|k: int|
            0 <= k < routed(updates, payload_of).len() ==> (#[trigger] handed_over(
                payloads,
                metrics,
                outcomes,
                pipe,
            )[k]).input == routed(updates, payload_of)[k].0,
    decreases updates.len(),
{
    if updates.len() > 0 {
        lemma_runs_are_routed(
            updates.drop_last(),
            payload_of,
            payloads.drop_last(),
            metrics,
            outcomes.drop_last(),
            pipe,
        );
        assert(payloads.last() == payload_of(updates.last().0));
    }
}

/// Routing keeps each datasource's order of emission: what a pipe is handed
/// of one datasource is what is routed to it if that datasource's updates
/// alone are routed, in the order in which the datasource emitted them.
pub proof fn lemma_producer_order_kept<T>(
    updates: Seq<(Update, DatasourceId)>,
    payload_of: spec_fn(Update) -> Option<T>,
    producer: Seq<char>,
)
    ensures
        from_producer(routed(updates, payload_of), producer) == routed(
            from_producer(updates, producer),
            payload_of,
        ),
    decreases updates.len(),
{
    if updates.len() > 0 {
        let earlier = updates.drop_last();
        let last = updates.last();
        lemma_producer_order_kept(earlier, payload_of, producer);
        match payload_of(last.0) {
            Some(payload) => {
                let handed = routed(earlier, payload_of);
                assert(handed.push((payload, last.1)).drop_last() =~= handed);
            },
            None => {},
        }
        if last.1@ == producer {
            let own = from_producer(earlier, producer);
            assert(own.push(last).drop_last() =~= own);
        }
    }
}

} // verus!
