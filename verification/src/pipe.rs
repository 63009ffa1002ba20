//! What every pipe does with an update, whatever its kind: the filters
//! first, in order, and the processor only if all of them accept.

use crate::datasource::Update;
use crate::filter::{stopped_after, Filter};
use crate::processor::{Call, Processor};
use vstd::prelude::*;

verus! {

/// What one run makes of the filters and the processor of a pipe, where
/// `update` is what the filters were shown and `call` is what the run was
/// handed and what it answered. The filters were asked in order up to the
/// first that rejected. If none rejected, the processor was handed the input
/// and the metrics of `call`, and the result of `call` is its answer. If one
/// did, the processor was not called and the result is `Ok`.
pub open spec fn ran<P: Processor>(
    filters_before: Seq<Box<dyn Filter>>,
    filters_after: Seq<Box<dyn Filter>>,
    processor_before: P,
    processor_after: P,
    update: Update,
    call: Call<P::InputType>,
) -> bool {
    exists|accepted: int|
        {
            &&& #[trigger] stopped_after(filters_before, filters_after, update, accepted)
            &&& if accepted == filters_before.len() {
                processor_before.keeps_record() ==> processor_after.keeps_record()
                    && processor_after.handled() == processor_before.handled().push(call)
            } else {
                processor_after == processor_before && call.result is Ok
            }
        }
}

/// Whether every filter of the chain has recorded that it accepted `update`.
pub open spec fn all_accepted(
    filters_before: Seq<Box<dyn Filter>>,
    filters_after: Seq<Box<dyn Filter>>,
    update: Update,
) -> bool {
    forall|i: int|
        0 <= i < filters_before.len() ==> (#[trigger] filters_after[i]).verdicts()
            == filters_before[i].verdicts().push((update, true))
}

/// A run calls the processor if and only if every filter accepts: where the
/// filters and the processor keep their records, the processor has answered
/// one more call exactly if every filter has recorded that it accepted, and
/// it is untouched otherwise.
pub proof fn lemma_processed_iff_all_accepted<P: Processor>(
    filters_before: Seq<Box<dyn Filter>>,
    filters_after: Seq<Box<dyn Filter>>,
    processor_before: P,
    processor_after: P,
    update: Update,
    call: Call<P::InputType>,
)
    requires
        ran(filters_before, filters_after, processor_before, processor_after, update, call),
        forall|i: int|
            0 <= i < filters_before.len() ==> (#[trigger] filters_before[i]).keeps_record(),
        processor_before.keeps_record(),
    ensures
        processor_after.handled() == processor_before.handled().push(call) <==> all_accepted(
            filters_before,
            filters_after,
            update,
        ),
        !all_accepted(filters_before, filters_after, update) ==> processor_after
            == processor_before && call.result is Ok,
{
    let accepted = choose|accepted: int|
        {
            &&& #[trigger] stopped_after(filters_before, filters_after, update, accepted)
            &&& if accepted == filters_before.len() {
                processor_before.keeps_record() ==> processor_after.keeps_record()
                    && processor_after.handled() == processor_before.handled().push(call)
            } else {
                processor_after == processor_before && call.result is Ok
            }
        };
    if accepted == filters_before.len() {
        assert forall|i: int| 0 <= i < filters_before.len() implies (
        #[trigger] filters_after[i]).verdicts() == filters_before[i].verdicts().push(
            (update, true),
        ) by {
            assert(filters_before[i].keeps_record());
        }
    } else {
        let said = filters_before[accepted].verdicts();
        assert(filters_before[accepted].keeps_record());
        assert(filters_after[accepted].verdicts() == said.push((update, false)));
        assert(said.push((update, false)).last() != said.push((update, true)).last());
        assert(processor_before.handled().push(call).len() != processor_before.handled().len());
    }
}

} // verus!
