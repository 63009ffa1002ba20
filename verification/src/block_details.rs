//! The pipe for blocks, and what the pipeline does with a list of
//! such pipes.

use crate::datasource::{BlockDetails, DatasourceId, Update};
use crate::error::CarbonResult;
use crate::filter::{judge, stopped_after, Filter};
use crate::metrics::MetricsCollection;
use crate::processor::{Call, Processor};
use crate::routing::{handed_over, lemma_handed_over_push};
use std::sync::Arc;
use vstd::prelude::*;

verus! {

/// A processor of blocks behind a chain of filters.
pub struct BlockDetailsPipe<P: Processor<InputType = BlockDetails>> {
    pub processor: P,
    pub filters: Vec<Box<dyn Filter>>,
    /// The runs made so far. It exists in proofs only.
    pub runs: Ghost<Seq<Call<BlockDetails>>>,
}

/// What the pipeline asks of a pipe for blocks.
pub trait BlockDetailsPipes: Send + Sync {
    /// The runs made so far, oldest first. This is a record kept for proofs
    /// only.
    open spec fn runs(&self) -> Seq<Call<BlockDetails>> {
        Seq::empty()
    }

    /// Whether this pipe keeps that record. The pipes of this module do.
    open spec fn keeps_record(&self) -> bool {
        false
    }

    /// Takes one block through the pipe.
    fn run(
        &mut self,
        block_details: BlockDetails,
        metrics: Arc<MetricsCollection>,
    ) -> (result: CarbonResult<()>)
        ensures
            old(self).keeps_record() ==> final(self).keeps_record() && final(self).runs()
                == old(self).runs().push(Call { input: block_details, metrics, result }),
    ;

    /// The filters of the pipe, in the order in which they are asked.
    fn filters(&self) -> &Vec<Box<dyn Filter>>;
}

impl<P: Processor<InputType = BlockDetails>> BlockDetailsPipe<P> {
    /// A pipe that has made no run yet.
    pub fn new(processor: P, filters: Vec<Box<dyn Filter>>) -> (pipe: Self)
        ensures
            pipe.processor == processor,
            pipe.filters == filters,
            pipe.runs@ == Seq::<Call<BlockDetails>>::empty(),
    {
        BlockDetailsPipe { processor, filters, runs: Ghost(Seq::empty()) }
    }

    /// What one run with `block_details` and `metrics` makes of a pipe, as
    /// [`crate::pipe::ran`] says it of every pipe.
    pub open spec fn ran(
        before: Self,
        after: Self,
        block_details: BlockDetails,
        metrics: Arc<MetricsCollection>,
        result: CarbonResult<()>,
    ) -> bool {
        crate::pipe::ran(
            before.filters@,
            after.filters@,
            before.processor,
            after.processor,
            Update::BlockDetails(block_details),
            Call { input: block_details, metrics, result },
        )
    }
}

impl<P> BlockDetailsPipes for BlockDetailsPipe<P> where
    P: Processor<InputType = BlockDetails> + Send + Sync,
{
    open spec fn runs(&self) -> Seq<Call<BlockDetails>> {
        self.runs@
    }

    open spec fn keeps_record(&self) -> bool {
        true
    }

    /// Shows the block to the filters in order. If one rejects it, that
    /// is no fault: the result is `Ok` and the processor is not called. If
    /// all accept, the processor handles the block and its result is
    /// returned as it is.
    fn run(
        &mut self,
        block_details: BlockDetails,
        metrics: Arc<MetricsCollection>,
    ) -> (result: CarbonResult<()>)
        ensures
            Self::ran(*old(self), *final(self), block_details, metrics, result),
    {
        let update = Update::BlockDetails(block_details);
        let accepted = judge(&mut self.filters, &update);
        let result = match update {
            Update::BlockDetails(admitted) => {
                if accepted == self.filters.len() {
                    self.processor.process(admitted, metrics)
                } else {
                    Ok(())
                }
            },
            // `update` was made a block above: there is no other case.
            _ => Ok(()),
        };
        proof {
            self.runs@ = self.runs@.push(Call { input: block_details, metrics, result });
            assert(stopped_after(
                old(self).filters@,
                self.filters@,
                Update::BlockDetails(block_details),
                accepted as int,
            ));
        }
        result
    }

    fn filters(&self) -> (filters: &Vec<Box<dyn Filter>>)
        ensures
            *filters == self.filters,
    {
        &self.filters
    }
}

/// What handing `block_details` to every pipe of a list does to the list:
/// each pipe has made one more run, with that block and with `metrics`,
/// and `results` holds the pipes' answers in the order of the pipes.
pub open spec fn block_details_handed(
    before: Seq<Box<dyn BlockDetailsPipes>>,
    after: Seq<Box<dyn BlockDetailsPipes>>,
    block_details: BlockDetails,
    metrics: Arc<MetricsCollection>,
    results: Seq<CarbonResult<()>>,
) -> bool {
    &&& after.len() == before.len()
    &&& results.len() == before.len()
    &&& forall|i: int|
        0 <= i < before.len() && before[i].keeps_record() ==> {
            &&& (#[trigger] after[i]).keeps_record()
            &&& after[i].runs() == before[i].runs().push(
                Call { input: block_details, metrics, result: results[i] },
            )
        }
}

/// Runs every pipe of `pipes` once with a copy of `block_details`, in the
/// order of the pipes. A pipe that fails does not keep the later ones from
/// running.
pub fn hand_block_details(
    pipes: &mut Vec<Box<dyn BlockDetailsPipes>>,
    block_details: &BlockDetails,
    metrics: &Arc<MetricsCollection>,
) -> (results: Vec<CarbonResult<()>>)
    ensures
        block_details_handed(
            old(pipes)@,
            final(pipes)@,
            *block_details,
            *metrics,
            results@,
        ),
{
    let count = pipes.len();
    let mut results: Vec<CarbonResult<()>> = Vec::new();
    let mut i: usize = 0;
    while i < count
        invariant
            i <= count,
            count == pipes.len(),
            count == old(pipes).len(),
            results.len() == i,
            forall|j: int|
                0 <= j < i && old(pipes)[j].keeps_record() ==> {
                    &&& (#[trigger] pipes[j]).keeps_record()
                    &&& pipes[j].runs() == old(pipes)[j].runs().push(
                        Call { input: *block_details, metrics: *metrics, result: results[j] },
                    )
                },
            forall|j: int| i <= j < count ==> #[trigger] pipes[j] == old(pipes)[j],
        decreases count - i,
    {
        let result = pipes[i].run(block_details.clone(), metrics.clone());
        results.push(result);
        i += 1;
    }
    results
}

/// For each update of `updates`, its payload if it is a block.
pub open spec fn block_details_payloads(updates: Seq<(Update, DatasourceId)>) -> Seq<
    Option<BlockDetails>,
> {
    updates.map_values(|sent: (Update, DatasourceId)| sent.0.block_details())
}

/// What routing `updates` one after the other does to the pipes for
/// blocks: each pipe has made one more run for each block
/// among the updates, in their order and with `metrics`, where `outcomes`
/// holds, for each update, the answers of the pipes it was routed to.
pub open spec fn block_details_fed(
    before: Seq<Box<dyn BlockDetailsPipes>>,
    after: Seq<Box<dyn BlockDetailsPipes>>,
    updates: Seq<(Update, DatasourceId)>,
    metrics: Arc<MetricsCollection>,
    outcomes: Seq<Seq<CarbonResult<()>>>,
) -> bool {
    &&& after.len() == before.len()
    &&& forall|i: int|
        0 <= i < before.len() && before[i].keeps_record() ==> {
            &&& (#[trigger] after[i]).keeps_record()
            &&& after[i].runs() == before[i].runs() + handed_over(
                block_details_payloads(updates),
                metrics,
                outcomes,
                i,
            )
        }
}

/// Routing one more update keeps [`block_details_fed`]: the pipes make one
/// more run if the update is a block, and stay as they are if it
/// is not.
pub proof fn lemma_block_details_fed_step(
    before: Seq<Box<dyn BlockDetailsPipes>>,
    middle: Seq<Box<dyn BlockDetailsPipes>>,
    after: Seq<Box<dyn BlockDetailsPipes>>,
    updates: Seq<(Update, DatasourceId)>,
    metrics: Arc<MetricsCollection>,
    outcomes: Seq<Seq<CarbonResult<()>>>,
    sent: (Update, DatasourceId),
    results: Seq<CarbonResult<()>>,
)
    requires
        block_details_fed(before, middle, updates, metrics, outcomes),
        match sent.0.block_details() {
            Some(block_details) => block_details_handed(
                middle,
                after,
                block_details,
                metrics,
                results,
            ),
            None => after == middle,
        },
    ensures
        block_details_fed(
            before,
            after,
            updates.push(sent),
            metrics,
            outcomes.push(results),
        ),
{
    let payloads = block_details_payloads(updates);
    let payload = sent.0.block_details();
    assert(block_details_payloads(updates.push(sent)) =~= payloads.push(payload));
    assert forall|i: int| 0 <= i < before.len() && before[i].keeps_record() implies {
        &&& (#[trigger] after[i]).keeps_record()
        &&& after[i].runs() == before[i].runs() + handed_over(
            block_details_payloads(updates.push(sent)),
            metrics,
            outcomes.push(results),
            i,
        )
    } by {
        lemma_handed_over_push(payloads, metrics, outcomes, i, payload, results);
        assert(middle[i].keeps_record());
        let earlier = handed_over(payloads, metrics, outcomes, i);
        match payload {
            Some(block_details) => {
                assert(after[i].runs() =~= before[i].runs() + earlier.push(
                    Call { input: block_details, metrics, result: results[i] },
                ));
            },
            None => {},
        }
    }
}

} // verus!
