//! Filters: the predicates that decide whether a pipe handles an update.

use crate::datasource::Update;
use vstd::prelude::*;

verus! {

/// A predicate over updates. It may keep state from one update to the next,
/// but it cannot change the update it is shown.
pub trait Filter: Send + Sync {
    /// The verdicts given so far, oldest first, each with the update it was
    /// given on. This is a record kept for proofs only: it says what the
    /// filter was asked, not how it decides.
    open spec fn verdicts(&self) -> Seq<(Update, bool)> {
        Seq::empty()
    }

    /// Whether this filter keeps that record. One that keeps none is asked in
    /// its turn like any other; only nothing is stated of what it was shown.
    open spec fn keeps_record(&self) -> bool {
        false
    }

    /// Judges `update`; `true` lets it pass.
    fn filter(&mut self, update: &Update) -> (accepted: bool)
        ensures
            old(self).keeps_record() ==> final(self).keeps_record() && final(self).verdicts()
                == old(self).verdicts().push((*update, accepted)),
    ;
}

/// A filter together with the record of its verdicts: it decides as `inner`
/// does and notes each verdict.
pub struct RecordedFilter<F: Filter> {
    pub inner: F,
    /// The verdicts given so far. It exists in proofs only.
    pub verdicts: Ghost<Seq<(Update, bool)>>,
}

impl<F: Filter> RecordedFilter<F> {
    /// `inner` with an empty record.
    pub fn new(inner: F) -> (filter: Self)
        ensures
            filter.inner == inner,
            filter.keeps_record(),
            filter.verdicts() == Seq::<(Update, bool)>::empty(),
    {
        RecordedFilter { inner, verdicts: Ghost(Seq::empty()) }
    }
}

impl<F: Filter> Filter for RecordedFilter<F> {
    open spec fn verdicts(&self) -> Seq<(Update, bool)> {
        self.verdicts@
    }

    open spec fn keeps_record(&self) -> bool {
        true
    }

    fn filter(&mut self, update: &Update) -> (accepted: bool) {
        let accepted = self.inner.filter(update);
        proof {
            self.verdicts@ = self.verdicts@.push((*update, accepted));
        }
        accepted
    }
}

/// What showing `update` to a chain of filters does to the chain, where
/// `accepted` filters let the update pass before the chain stopped: each of
/// the first `accepted` filters has recorded that it accepted; the next one,
/// if there is one, has recorded that it rejected; and those behind it were
/// not asked, so they are as they were.
pub open spec fn stopped_after(
    before: Seq<Box<dyn Filter>>,
    after: Seq<Box<dyn Filter>>,
    update: Update,
    accepted: int,
) -> bool {
    &&& after.len() == before.len()
    &&& 0 <= accepted <= before.len()
    &&& forall|i: int|
        0 <= i < accepted && before[i].keeps_record() ==> {
            &&& (#[trigger] after[i]).keeps_record()
            &&& after[i].verdicts() == before[i].verdicts().push((update, true))
        }
    &&& accepted < before.len() && before[accepted].keeps_record() ==> {
        &&& after[accepted].keeps_record()
        &&& after[accepted].verdicts() == before[accepted].verdicts().push((update, false))
    }
    &&& forall|i: int| accepted < i < before.len() ==> #[trigger] after[i] == before[i]
}

/// Shows `update` to the filters in the order of their registration and
/// stops at the first that rejects it. Returns how many accepted: the update
/// passes the chain if and only if that is all of them.
pub fn judge(filters: &mut Vec<Box<dyn Filter>>, update: &Update) -> (accepted: usize)
    ensures
        stopped_after(old(filters)@, final(filters)@, *update, accepted as int),
{
    let count = filters.len();
    let mut i: usize = 0;
    while i < count
        invariant
            i <= count,
            count == filters.len(),
            count == old(filters).len(),
            forall|j: int|
                0 <= j < i && old(filters)[j].keeps_record() ==> {
                    &&& (#[trigger] filters[j]).keeps_record()
                    &&& filters[j].verdicts() == old(filters)[j].verdicts().push((*update, true))
                },
            forall|j: int| i <= j < count ==> #[trigger] filters[j] == old(filters)[j],
        decreases count - i,
    {
        let accepted = filters[i].filter(update);
        if !accepted {
            return i;
        }
        i += 1;
    }
    count
}

} // verus!
