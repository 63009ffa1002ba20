//! The pipe for transactions, and what the pipeline does with a list of
//! such pipes.

use crate::datasource::{TransactionUpdate, DatasourceId, Update};
use crate::error::CarbonResult;
use crate::filter::{judge, stopped_after, Filter};
use crate::metrics::MetricsCollection;
use crate::processor::{Call, Processor};
use crate::routing::{handed_over, lemma_handed_over_push};
use std::sync::Arc;
use vstd::prelude::*;

verus! {

/// A processor of transactions behind a chain of filters.
pub struct TransactionPipe<P: Processor<InputType = TransactionUpdate>> {
    pub processor: P,
    pub filters: Vec<Box<dyn Filter>>,
    /// The runs made so far. It exists in proofs only.
    pub runs: Ghost<Seq<Call<TransactionUpdate>>>,
}

/// What the pipeline asks of a pipe for transactions.
pub trait TransactionPipes: Send + Sync {
    /// The runs made so far, oldest first. This is a record kept for proofs
    /// only.
    open spec fn runs(&self) -> Seq<Call<TransactionUpdate>> {
        Seq::empty()
    }

    /// Whether this pipe keeps that record. The pipes of this module do.
    open spec fn keeps_record(&self) -> bool {
        false
    }

    /// Takes one transaction through the pipe.
    fn run(
        &mut self,
        transaction_update: TransactionUpdate,
        metrics: Arc<MetricsCollection>,
    ) -> (result: CarbonResult<()>)
        ensures
            old(self).keeps_record() ==> final(self).keeps_record() && final(self).runs()
                == old(self).runs().push(Call { input: transaction_update, metrics, result }),
    ;

    /// The filters of the pipe, in the order in which they are asked.
    fn filters(&self) -> &Vec<Box<dyn Filter>>;
}

impl<P: Processor<InputType = TransactionUpdate>> TransactionPipe<P> {
    /// A pipe that has made no run yet.
    pub fn new(processor: P, filters: Vec<Box<dyn Filter>>) -> (pipe: Self)
        ensures
            pipe.processor == processor,
            pipe.filters == filters,
            pipe.runs@ == Seq::<Call<TransactionUpdate>>::empty(),
    {
        TransactionPipe { processor, filters, runs: Ghost(Seq::empty()) }
    }

    /// What one run with `transaction_update` and `metrics` makes of a pipe, as
    /// [`crate::pipe::ran`] says it of every pipe.
    pub open spec fn ran(
        before: Self,
        after: Self,
        transaction_update: TransactionUpdate,
        metrics: Arc<MetricsCollection>,
        result: CarbonResult<()>,
    ) -> bool {
        crate::pipe::ran(
            before.filters@,
            after.filters@,
            before.processor,
            after.processor,
            Update::Transaction(Box::new(transaction_update)),
            Call { input: transaction_update, metrics, result },
        )
    }
}

impl<P> TransactionPipes for TransactionPipe<P> where
    P: Processor<InputType = TransactionUpdate> + Send + Sync,
{
    open spec fn runs(&self) -> Seq<Call<TransactionUpdate>> {
        self.runs@
    }

    open spec fn keeps_record(&self) -> bool {
        true
    }

    /// Shows the transaction to the filters in order. If one rejects it, that
    /// is no fault: the result is `Ok` and the processor is not called. If
    /// all accept, the processor handles the transaction and its result is
    /// returned as it is.
    fn run(
        &mut self,
        transaction_update: TransactionUpdate,
        metrics: Arc<MetricsCollection>,
    ) -> (result: CarbonResult<()>)
        ensures
            Self::ran(*old(self), *final(self), transaction_update, metrics, result),
    {
        let update = Update::Transaction(Box::new(transaction_update));
        let accepted = judge(&mut self.filters, &update);
        let result = match update {
            Update::Transaction(admitted) => {
                if accepted == self.filters.len() {
                    self.processor.process(*admitted, metrics)
                } else {
                    Ok(())
                }
            },
            // `update` was made a transaction above: there is no other case.
            _ => Ok(()),
        };
        proof {
            self.runs@ = self.runs@.push(Call { input: transaction_update, metrics, result });
            assert(stopped_after(
                old(self).filters@,
                self.filters@,
                Update::Transaction(Box::new(transaction_update)),
                accepted as int,
            ));
        }
        result
    }

    fn filters(&self) -> (filters: &Vec<Box<dyn Filter>>)
        ensures
            *filters == self.filters,
    {
        &self.filters
    }
}

/// What handing `transaction_update` to every pipe of a list does to the list:
/// each pipe has made one more run, with that transaction and with `metrics`,
/// and `results` holds the pipes' answers in the order of the pipes.
pub open spec fn transaction_update_handed(
    before: Seq<Box<dyn TransactionPipes>>,
    after: Seq<Box<dyn TransactionPipes>>,
    transaction_update: TransactionUpdate,
    metrics: Arc<MetricsCollection>,
    results: Seq<CarbonResult<()>>,
) -> bool {
    &&& after.len() == before.len()
    &&& results.len() == before.len()
    &&& forall|i: int|
        0 <= i < before.len() && before[i].keeps_record() ==> {
            &&& (#[trigger] after[i]).keeps_record()
            &&& after[i].runs() == before[i].runs().push(
                Call { input: transaction_update, metrics, result: results[i] },
            )
        }
}

/// Runs every pipe of `pipes` once with a copy of `transaction_update`, in the
/// order of the pipes. A pipe that fails does not keep the later ones from
/// running.
pub fn hand_transaction_update(
    pipes: &mut Vec<Box<dyn TransactionPipes>>,
    transaction_update: &TransactionUpdate,
    metrics: &Arc<MetricsCollection>,
) -> (results: Vec<CarbonResult<()>>)
    ensures
        transaction_update_handed(
            old(pipes)@,
            final(pipes)@,
            *transaction_update,
            *metrics,
            results@,
        ),
{
    let count = pipes.len();
    let mut results: Vec<CarbonResult<()>> = Vec::new();
    let mut i: usize = 0;
    while i < count
        invariant
            i <= count,
            count == pipes.len(),
            count == old(pipes).len(),
            results.len() == i,
            forall|j: int|
                0 <= j < i && old(pipes)[j].keeps_record() ==> {
                    &&& (#[trigger] pipes[j]).keeps_record()
                    &&& pipes[j].runs() == old(pipes)[j].runs().push(
                        Call { input: *transaction_update, metrics: *metrics, result: results[j] },
                    )
                },
            forall|j: int| i <= j < count ==> #[trigger] pipes[j] == old(pipes)[j],
        decreases count - i,
    {
        let result = pipes[i].run(transaction_update.clone(), metrics.clone());
        results.push(result);
        i += 1;
    }
    results
}

/// For each update of `updates`, its payload if it is a transaction.
pub open spec fn transaction_update_payloads(updates: Seq<(Update, DatasourceId)>) -> Seq<
    Option<TransactionUpdate>,
> {
    updates.map_values(|sent: (Update, DatasourceId)| sent.0.transaction_update())
}

/// What routing `updates` one after the other does to the pipes for
/// transactions: each pipe has made one more run for each transaction
/// among the updates, in their order and with `metrics`, where `outcomes`
/// holds, for each update, the answers of the pipes it was routed to.
pub open spec fn transaction_update_fed(
    before: Seq<Box<dyn TransactionPipes>>,
    after: Seq<Box<dyn TransactionPipes>>,
    updates: Seq<(Update, DatasourceId)>,
    metrics: Arc<MetricsCollection>,
    outcomes: Seq<Seq<CarbonResult<()>>>,
) -> bool {
    &&& after.len() == before.len()
    &&& forall|i: int|
        0 <= i < before.len() && before[i].keeps_record() ==> {
            &&& (#[trigger] after[i]).keeps_record()
            &&& after[i].runs() == before[i].runs() + handed_over(
                transaction_update_payloads(updates),
                metrics,
                outcomes,
                i,
            )
        }
}

/// Routing one more update keeps [`transaction_update_fed`]: the pipes make one
/// more run if the update is a transaction, and stay as they are if it
/// is not.
pub proof fn lemma_transaction_update_fed_step(
    before: Seq<Box<dyn TransactionPipes>>,
    middle: Seq<Box<dyn TransactionPipes>>,
    after: Seq<Box<dyn TransactionPipes>>,
    updates: Seq<(Update, DatasourceId)>,
    metrics: Arc<MetricsCollection>,
    outcomes: Seq<Seq<CarbonResult<()>>>,
    sent: (Update, DatasourceId),
    results: Seq<CarbonResult<()>>,
)
    requires
        transaction_update_fed(before, middle, updates, metrics, outcomes),
        match sent.0.transaction_update() {
            Some(transaction_update) => transaction_update_handed(
                middle,
                after,
                transaction_update,
                metrics,
                results,
            ),
            None => after == middle,
        },
    ensures
        transaction_update_fed(
            before,
            after,
            updates.push(sent),
            metrics,
            outcomes.push(results),
        ),
{
    let payloads = transaction_update_payloads(updates);
    let payload = sent.0.transaction_update();
    assert(transaction_update_payloads(updates.push(sent)) =~= payloads.push(payload));
    assert forall|i: int| 0 <= i < before.len() && before[i].keeps_record() implies {
        &&& (#[trigger] after[i]).keeps_record()
        &&& after[i].runs() == before[i].runs() + handed_over(
            transaction_update_payloads(updates.push(sent)),
            metrics,
            outcomes.push(results),
            i,
        )
    } by {
        lemma_handed_over_push(payloads, metrics, outcomes, i, payload, results);
        assert(middle[i].keeps_record());
        let earlier = handed_over(payloads, metrics, outcomes, i);
        match payload {
            Some(transaction_update) => {
                assert(after[i].runs() =~= before[i].runs() + earlier.push(
                    Call { input: transaction_update, metrics, result: results[i] },
                ));
            },
            None => {},
        }
    }
}

} // verus!
