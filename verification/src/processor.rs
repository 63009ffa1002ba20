//! Processors: the handlers that act on the updates a pipe admits.

use crate::error::CarbonResult;
use crate::metrics::MetricsCollection;
use std::sync::Arc;
use vstd::prelude::*;

verus! {

/// One call of a processor, or one run of a pipe: what was handed in, the
/// metrics that came with it, and the result that was returned.
pub struct Call<T> {
    pub input: T,
    pub metrics: Arc<MetricsCollection>,
    pub result: CarbonResult<()>,
}

/// A handler for one kind of payload. It owns whatever it gathers from call
/// to call, and it may fail.
pub trait Processor {
    type InputType;

    /// The calls answered so far, oldest first. This is a record kept for
    /// proofs only: it says what the processor was handed, not what it does
    /// with it.
    open spec fn handled(&self) -> Seq<Call<Self::InputType>> {
        Seq::empty()
    }

    /// Whether this processor keeps that record. One that keeps none is
    /// called like any other; only nothing is stated of what it was handed.
    open spec fn keeps_record(&self) -> bool {
        false
    }

    /// Handles `data`, with `metrics` at hand to record what it sees fit.
    fn process(&mut self, data: Self::InputType, metrics: Arc<MetricsCollection>) -> (result:
        CarbonResult<()>)
        ensures
            old(self).keeps_record() ==> final(self).keeps_record() && final(self).handled()
                == old(self).handled().push(Call { input: data, metrics, result }),
    ;
}

/// A processor together with the record of its calls: it handles what it is
/// handed as `inner` does and notes each call.
pub struct RecordedProcessor<P: Processor> {
    pub inner: P,
    /// The calls answered so far. It exists in proofs only.
    pub handled: Ghost<Seq<Call<P::InputType>>>,
}

impl<P: Processor> RecordedProcessor<P> {
    /// `inner` with an empty record.
    pub fn new(inner: P) -> (processor: Self)
        ensures
            processor.inner == inner,
            processor.keeps_record(),
            processor.handled() == Seq::<Call<P::InputType>>::empty(),
    {
        RecordedProcessor { inner, handled: Ghost(Seq::empty()) }
    }
}

impl<P: Processor> Processor for RecordedProcessor<P> {
    type InputType = P::InputType;

    open spec fn handled(&self) -> Seq<Call<P::InputType>> {
        self.handled@
    }

    open spec fn keeps_record(&self) -> bool {
        true
    }

    fn process(&mut self, data: P::InputType, metrics: Arc<MetricsCollection>) -> (result:
        CarbonResult<()>)
    {
        let ghost given = metrics;
        let result = self.inner.process(data, metrics);
        proof {
            self.handled@ = self.handled@.push(Call { input: data, metrics: given, result });
        }
        result
    }
}

} // verus!
