//! The pipe for account deletions, and what the pipeline does with a list of
//! such pipes.

use crate::datasource::{AccountDeletion, DatasourceId, Update};
use crate::error::CarbonResult;
use crate::filter::{judge, stopped_after, Filter};
use crate::metrics::MetricsCollection;
use crate::processor::{Call, Processor};
use crate::routing::{handed_over, lemma_handed_over_push};
use std::sync::Arc;
use vstd::prelude::*;

verus! {

/// A processor of account deletions behind a chain of filters.
pub struct AccountDeletionPipe<P: Processor<InputType = AccountDeletion>> {
    pub processor: P,
    pub filters: Vec<Box<dyn Filter>>,
    /// The runs made so far. It exists in proofs only.
    pub runs: Ghost<Seq<Call<AccountDeletion>>>,
}

/// What the pipeline asks of a pipe for account deletions.
pub trait AccountDeletionPipes: Send + Sync {
    /// The runs made so far, oldest first. This is a record kept for proofs
    /// only.
    open spec fn runs(&self) -> Seq<Call<AccountDeletion>> {
        Seq::empty()
    }

    /// Whether this pipe keeps that record. The pipes of this module do.
    open spec fn keeps_record(&self) -> bool {
        false
    }

    /// Takes one deletion through the pipe.
    fn run(
        &mut self,
        account_deletion: AccountDeletion,
        metrics: Arc<MetricsCollection>,
    ) -> (result: CarbonResult<()>)
        ensures
            old(self).keeps_record() ==> final(self).keeps_record() && final(self).runs()
                == old(self).runs().push(Call { input: account_deletion, metrics, result }),
    ;

    /// The filters of the pipe, in the order in which they are asked.
    fn filters(&self) -> &Vec<Box<dyn Filter>>;
}

impl<P: Processor<InputType = AccountDeletion>> AccountDeletionPipe<P> {
    /// A pipe that has made no run yet.
    pub fn new(processor: P, filters: Vec<Box<dyn Filter>>) -> (pipe: Self)
        ensures
            pipe.processor == processor,
            pipe.filters == filters,
            pipe.runs@ == Seq::<Call<AccountDeletion>>::empty(),
    {
        AccountDeletionPipe { processor, filters, runs: Ghost(Seq::empty()) }
    }

    /// What one run with `account_deletion` and `metrics` makes of a pipe, as
    /// [`crate::pipe::ran`] says it of every pipe.
    pub open spec fn ran(
        before: Self,
        after: Self,
        account_deletion: AccountDeletion,
        metrics: Arc<MetricsCollection>,
        result: CarbonResult<()>,
    ) -> bool {
        crate::pipe::ran(
            before.filters@,
            after.filters@,
            before.processor,
            after.processor,
            Update::AccountDeletion(account_deletion),
            Call { input: account_deletion, metrics, result },
        )
    }
}

impl<P> AccountDeletionPipes for AccountDeletionPipe<P> where
    P: Processor<InputType = AccountDeletion> + Send + Sync,
{
    open spec fn runs(&self) -> Seq<Call<AccountDeletion>> {
        self.runs@
    }

    open spec fn keeps_record(&self) -> bool {
        true
    }

    /// Shows the deletion to the filters in order. If one rejects it, that
    /// is no fault: the result is `Ok` and the processor is not called. If
    /// all accept, the processor handles the deletion and its result is
    /// returned as it is.
    fn run(
        &mut self,
        account_deletion: AccountDeletion,
        metrics: Arc<MetricsCollection>,
    ) -> (result: CarbonResult<()>)
        ensures
            Self::ran(*old(self), *final(self), account_deletion, metrics, result),
    {
        let update = Update::AccountDeletion(account_deletion);
        let accepted = judge(&mut self.filters, &update);
        let result = match update {
            Update::AccountDeletion(admitted) => {
                if accepted == self.filters.len() {
                    self.processor.process(admitted, metrics)
                } else {
                    Ok(())
                }
            },
            // `update` was made an account deletion above: there is no other case.
            _ => Ok(()),
        };
        proof {
            self.runs@ = self.runs@.push(Call { input: account_deletion, metrics, result });
            assert(stopped_after(
                old(self).filters@,
                self.filters@,
                Update::AccountDeletion(account_deletion),
                accepted as int,
            ));
        }
        result
    }

    fn filters(&self) -> (filters: &Vec<Box<dyn Filter>>)
        ensures
            *filters == self.filters,
    {
        &self.filters
    }
}

/// What handing `account_deletion` to every pipe of a list does to the list:
/// each pipe has made one more run, with that deletion and with `metrics`,
/// and `results` holds the pipes' answers in the order of the pipes.
pub open spec fn account_deletion_handed(
    before: Seq<Box<dyn AccountDeletionPipes>>,
    after: Seq<Box<dyn AccountDeletionPipes>>,
    account_deletion: AccountDeletion,
    metrics: Arc<MetricsCollection>,
    results: Seq<CarbonResult<()>>,
) -> bool {
    &&& after.len() == before.len()
    &&& results.len() == before.len()
    &&& forall|i: int|
        0 <= i < before.len() && before[i].keeps_record() ==> {
            &&& (#[trigger] after[i]).keeps_record()
            &&& after[i].runs() == before[i].runs().push(
                Call { input: account_deletion, metrics, result: results[i] },
            )
        }
}

/// Runs every pipe of `pipes` once with a copy of `account_deletion`, in the
/// order of the pipes. A pipe that fails does not keep the later ones from
/// running.
pub fn hand_account_deletion(
    pipes: &mut Vec<Box<dyn AccountDeletionPipes>>,
    account_deletion: &AccountDeletion,
    metrics: &Arc<MetricsCollection>,
) -> (results: Vec<CarbonResult<()>>)
    ensures
        account_deletion_handed(
            old(pipes)@,
            final(pipes)@,
            *account_deletion,
            *metrics,
            results@,
        ),
{
    let count = pipes.len();
    let mut results: Vec<CarbonResult<()>> = Vec::new();
    let mut i: usize = 0;
    while i < count
        invariant
            i <= count,
            count == pipes.len(),
            count == old(pipes).len(),
            results.len() == i,
            forall|j: int|
                0 <= j < i && old(pipes)[j].keeps_record() ==> {
                    &&& (#[trigger] pipes[j]).keeps_record()
                    &&& pipes[j].runs() == old(pipes)[j].runs().push(
                        Call { input: *account_deletion, metrics: *metrics, result: results[j] },
                    )
                },
            forall|j: int| i <= j < count ==> #[trigger] pipes[j] == old(pipes)[j],
        decreases count - i,
    {
        let result = pipes[i].run(account_deletion.clone(), metrics.clone());
        results.push(result);
        i += 1;
    }
    results
}

/// For each update of `updates`, its payload if it is an account deletion.
pub open spec fn account_deletion_payloads(updates: Seq<(Update, DatasourceId)>) -> Seq<
    Option<AccountDeletion>,
> {
    updates.map_values(|sent: (Update, DatasourceId)| sent.0.account_deletion())
}

/// What routing `updates` one after the other does to the pipes for account
/// deletions: each pipe has made one more run for each account deletion
/// among the updates, in their order and with `metrics`, where `outcomes`
/// holds, for each update, the answers of the pipes it was routed to.
pub open spec fn account_deletion_fed(
    before: Seq<Box<dyn AccountDeletionPipes>>,
    after: Seq<Box<dyn AccountDeletionPipes>>,
    updates: Seq<(Update, DatasourceId)>,
    metrics: Arc<MetricsCollection>,
    outcomes: Seq<Seq<CarbonResult<()>>>,
) -> bool {
    &&& after.len() == before.len()
    &&& forall|i: int|
        0 <= i < before.len() && before[i].keeps_record() ==> {
            &&& (#[trigger] after[i]).keeps_record()
            &&& after[i].runs() == before[i].runs() + handed_over(
                account_deletion_payloads(updates),
                metrics,
                outcomes,
                i,
            )
        }
}

/// Routing one more update keeps [`account_deletion_fed`]: the pipes make one
/// more run if the update is an account deletion, and stay as they are if it
/// is not.
pub proof fn lemma_account_deletion_fed_step(
    before: Seq<Box<dyn AccountDeletionPipes>>,
    middle: Seq<Box<dyn AccountDeletionPipes>>,
    after: Seq<Box<dyn AccountDeletionPipes>>,
    updates: Seq<(Update, DatasourceId)>,
    metrics: Arc<MetricsCollection>,
    outcomes: Seq<Seq<CarbonResult<()>>>,
    sent: (Update, DatasourceId),
    results: Seq<CarbonResult<()>>,
)
    requires
        account_deletion_fed(before, middle, updates, metrics, outcomes),
        match sent.0.account_deletion() {
            Some(account_deletion) => account_deletion_handed(
                middle,
                after,
                account_deletion,
                metrics,
                results,
            ),
            None => after == middle,
        },
    ensures
        account_deletion_fed(
            before,
            after,
            updates.push(sent),
            metrics,
            outcomes.push(results),
        ),
{
    let payloads = account_deletion_payloads(updates);
    let payload = sent.0.account_deletion();
    assert(account_deletion_payloads(updates.push(sent)) =~= payloads.push(payload));
    assert forall|i: int| 0 <= i < before.len() && before[i].keeps_record() implies {
        &&& (#[trigger] after[i]).keeps_record()
        &&& after[i].runs() == before[i].runs() + handed_over(
            account_deletion_payloads(updates.push(sent)),
            metrics,
            outcomes.push(results),
            i,
        )
    } by {
        lemma_handed_over_push(payloads, metrics, outcomes, i, payload, results);
        assert(middle[i].keeps_record());
        let earlier = handed_over(payloads, metrics, outcomes, i);
        match payload {
            Some(account_deletion) => {
                assert(after[i].runs() =~= before[i].runs() + earlier.push(
                    Call { input: account_deletion, metrics, result: results[i] },
                ));
            },
            None => {},
        }
    }
}

} // verus!
