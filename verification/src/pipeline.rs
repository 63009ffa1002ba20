//! The pipeline: the pipes of every kind, and the routing of updates to them.

use crate::account::{
    account_update_fed, account_update_handed, hand_account_update, lemma_account_update_fed_step,
    AccountUpdatePipes,
};
use crate::account_deletion::{
    account_deletion_fed, account_deletion_handed, hand_account_deletion,
    lemma_account_deletion_fed_step, AccountDeletionPipes,
};
use crate::block_details::{
    block_details_fed, block_details_handed, hand_block_details, lemma_block_details_fed_step,
    BlockDetailsPipes,
};
use crate::datasource::{DatasourceId, Update, UpdateType};
use crate::error::{CarbonResult, Error};
use crate::metrics::{is_registered, is_registered_as, MetricKind, MetricsCollection};
use crate::routing::answers;
use crate::transaction::{
    hand_transaction_update, lemma_transaction_update_fed_step, transaction_update_fed,
    transaction_update_handed, TransactionPipes,
};
use std::sync::Arc;
use vstd::prelude::*;

verus! {

/// The counter of the updates that were routed.
pub const UPDATES_RECEIVED: &'static str = "updates_received";

/// The counter of the runs that pipes answered with `Ok`.
pub const UPDATES_SUCCESSFUL: &'static str = "updates_successful";

/// The counter of the runs that pipes answered with an error.
pub const UPDATES_FAILED: &'static str = "updates_failed";

/// Registers the three counters that [`Pipeline::record`] advances, unless
/// one of their names is taken: then nothing is registered.
pub fn register_counters(metrics: &mut MetricsCollection) -> (result: CarbonResult<()>)
    ensures
        match result {
            Ok(()) => {
                &&& !is_registered(old(metrics)@, UPDATES_RECEIVED@)
                &&& !is_registered(old(metrics)@, UPDATES_SUCCESSFUL@)
                &&& !is_registered(old(metrics)@, UPDATES_FAILED@)
                &&& final(metrics)@ == old(metrics)@.push(
                    (UPDATES_RECEIVED@, MetricKind::Counter),
                ).push((UPDATES_SUCCESSFUL@, MetricKind::Counter)).push(
                    (UPDATES_FAILED@, MetricKind::Counter),
                )
            },
            Err(Error::MetricAlreadyRegistered(taken)) => {
                &&& final(metrics)@ == old(metrics)@
                &&& is_registered(old(metrics)@, taken@)
                &&& taken@ == UPDATES_RECEIVED@ || taken@ == UPDATES_SUCCESSFUL@ || taken@
                    == UPDATES_FAILED@
            },
            Err(_) => false,
        },
{
    proof {
        reveal_strlit("updates_received");
        reveal_strlit("updates_successful");
        reveal_strlit("updates_failed");
    }
    if metrics.kind_of(UPDATES_RECEIVED).is_some() {
        return Err(Error::MetricAlreadyRegistered(UPDATES_RECEIVED.to_string()));
    }
    if metrics.kind_of(UPDATES_SUCCESSFUL).is_some() {
        return Err(Error::MetricAlreadyRegistered(UPDATES_SUCCESSFUL.to_string()));
    }
    if metrics.kind_of(UPDATES_FAILED).is_some() {
        return Err(Error::MetricAlreadyRegistered(UPDATES_FAILED.to_string()));
    }
    let ghost before = metrics@;
    metrics.register(UPDATES_RECEIVED, MetricKind::Counter)?;
    let ghost one = metrics@;
    assert(!is_registered(one, UPDATES_SUCCESSFUL@)) by {
        assert(UPDATES_RECEIVED@.len() != UPDATES_SUCCESSFUL@.len());
        assert forall|i: int| 0 <= i < one.len() implies (#[trigger] one[i]).0
            != UPDATES_SUCCESSFUL@ by {
            if i < before.len() {
                assert(before[i].0 != UPDATES_SUCCESSFUL@);
            }
        }
    }
    metrics.register(UPDATES_SUCCESSFUL, MetricKind::Counter)?;
    let ghost two = metrics@;
    assert(!is_registered(two, UPDATES_FAILED@)) by {
        assert(UPDATES_RECEIVED@.len() != UPDATES_FAILED@.len());
        assert(UPDATES_SUCCESSFUL@.len() != UPDATES_FAILED@.len());
        assert forall|i: int| 0 <= i < two.len() implies (#[trigger] two[i]).0
            != UPDATES_FAILED@ by {
            if i < before.len() {
                assert(before[i].0 != UPDATES_FAILED@);
            }
        }
    }
    metrics.register(UPDATES_FAILED, MetricKind::Counter)
}

/// How many of `results` are errors.
pub open spec fn failures(results: Seq<CarbonResult<()>>) -> nat
    decreases results.len(),
{
    if results.len() == 0 {
        0
    } else {
        failures(results.drop_last()) + if results.last() is Err {
            1nat
        } else {
            0nat
        }
    }
}

/// Counts the errors among `results`.
pub fn count_failures(results: &Vec<CarbonResult<()>>) -> (count: usize)
    ensures
        count == failures(results@),
        count <= results@.len(),
{
    let mut count: usize = 0;
    let mut i: usize = 0;
    while i < results.len()
        invariant
            i <= results.len(),
            count <= i,
            count == failures(results@.take(i as int)),
        decreases results.len() - i,
    {
        assert(results@.take(i + 1).drop_last() =~= results@.take(i as int));
        if results[i].is_err() {
            count += 1;
        }
        i += 1;
    }
    assert(results@.take(results@.len() as int) =~= results@);
    count
}

/// Whether one of the datasources, whose declared kinds `declarations` lists
/// datasource by datasource, declares `kind`.
pub open spec fn declared(declarations: Seq<Vec<UpdateType>>, kind: UpdateType) -> bool {
    exists|d: int, k: int|
        {
            &&& 0 <= d < declarations.len()
            &&& 0 <= k < declarations[d]@.len()
            &&& #[trigger] declarations[d]@[k] == kind
        }
}

/// Whether one of the datasources declares `kind`.
pub fn is_declared(declarations: &Vec<Vec<UpdateType>>, kind: UpdateType) -> (found: bool)
    ensures
        found == declared(declarations@, kind),
{
    let mut d: usize = 0;
    while d < declarations.len()
        invariant
            d <= declarations.len(),
            forall|e: int, k: int|
                0 <= e < d && 0 <= k < declarations[e]@.len() ==> #[trigger] declarations[e]@[k]
                    != kind,
        decreases declarations.len() - d,
    {
        let kinds = &declarations[d];
        let mut k: usize = 0;
        while k < kinds.len()
            invariant
                d < declarations.len(),
                kinds == declarations[d as int],
                k <= kinds.len(),
                forall|j: int| 0 <= j < k ==> #[trigger] kinds@[j] != kind,
            decreases kinds.len() - k,
        {
            if kinds[k] == kind {
                return true;
            }
            k += 1;
        }
        d += 1;
    }
    false
}

/// The pipes registered for each kind of update, each list in the order of
/// registration, and the metrics that all of them share.
pub struct Pipeline {
    pub account_pipes: Vec<Box<dyn AccountUpdatePipes>>,
    pub transaction_pipes: Vec<Box<dyn TransactionPipes>>,
    pub account_deletion_pipes: Vec<Box<dyn AccountDeletionPipes>>,
    pub block_details_pipes: Vec<Box<dyn BlockDetailsPipes>>,
    pub metrics: Arc<MetricsCollection>,
}

impl Pipeline {
    /// A pipeline without pipes.
    pub fn new(metrics: Arc<MetricsCollection>) -> (pipeline: Self)
        ensures
            pipeline.account_pipes@.len() == 0,
            pipeline.transaction_pipes@.len() == 0,
            pipeline.account_deletion_pipes@.len() == 0,
            pipeline.block_details_pipes@.len() == 0,
            pipeline.metrics == metrics,
    {
        Pipeline {
            account_pipes: Vec::new(),
            transaction_pipes: Vec::new(),
            account_deletion_pipes: Vec::new(),
            block_details_pipes: Vec::new(),
            metrics,
        }
    }

    /// The number of pipes registered for `kind`.
    pub open spec fn subscribed(&self, kind: UpdateType) -> nat {
        match kind {
            UpdateType::AccountUpdate => self.account_pipes@.len(),
            UpdateType::Transaction => self.transaction_pipes@.len(),
            UpdateType::AccountDeletion => self.account_deletion_pipes@.len(),
            UpdateType::BlockDetails => self.block_details_pipes@.len(),
        }
    }

    /// How many pipes are registered for `kind`.
    pub fn subscribers(&self, kind: UpdateType) -> (count: usize)
        ensures
            count == self.subscribed(kind),
    {
        match kind {
            UpdateType::AccountUpdate => self.account_pipes.len(),
            UpdateType::Transaction => self.transaction_pipes.len(),
            UpdateType::AccountDeletion => self.account_deletion_pipes.len(),
            UpdateType::BlockDetails => self.block_details_pipes.len(),
        }
    }

    /// Whether pipes are registered for `kind` while no datasource declares
    /// it, so that those pipes would never be fed.
    pub open spec fn starved(&self, declarations: Seq<Vec<UpdateType>>, kind: UpdateType) -> bool {
        self.subscribed(kind) > 0 && !declared(declarations, kind)
    }

    /// Checks, before any update flows, that every kind for which a pipe is
    /// registered is declared by a datasource. Fails on the first kind that
    /// is not, in the order account update, transaction, account deletion,
    /// block details. A kind that is declared and has no pipe is no fault:
    /// its updates reach no pipe.
    pub fn check_wiring(&self, declarations: &Vec<Vec<UpdateType>>) -> (result: CarbonResult<()>)
        ensures
            result == (if self.starved(declarations@, UpdateType::AccountUpdate) {
                Err(Error::MissingUpdateTypeInDatasource(UpdateType::AccountUpdate))
            } else if self.starved(declarations@, UpdateType::Transaction) {
                Err(Error::MissingUpdateTypeInDatasource(UpdateType::Transaction))
            } else if self.starved(declarations@, UpdateType::AccountDeletion) {
                Err(Error::MissingUpdateTypeInDatasource(UpdateType::AccountDeletion))
            } else if self.starved(declarations@, UpdateType::BlockDetails) {
                Err(Error::MissingUpdateTypeInDatasource(UpdateType::BlockDetails))
            } else {
                Ok(())
            }),
    {
        if self.account_pipes.len() > 0 && !is_declared(declarations, UpdateType::AccountUpdate) {
            return Err(Error::MissingUpdateTypeInDatasource(UpdateType::AccountUpdate));
        }
        if self.transaction_pipes.len() > 0 && !is_declared(declarations, UpdateType::Transaction) {
            return Err(Error::MissingUpdateTypeInDatasource(UpdateType::Transaction));
        }
        if self.account_deletion_pipes.len() > 0 && !is_declared(
            declarations,
            UpdateType::AccountDeletion,
        ) {
            return Err(Error::MissingUpdateTypeInDatasource(UpdateType::AccountDeletion));
        }
        if self.block_details_pipes.len() > 0 && !is_declared(
            declarations,
            UpdateType::BlockDetails,
        ) {
            return Err(Error::MissingUpdateTypeInDatasource(UpdateType::BlockDetails));
        }
        Ok(())
    }

    /// What routing `update` does to a pipeline: every pipe registered for
    /// the update's kind has made one more run, with the update's payload,
    /// and `results` holds their answers in the order of registration; the
    /// pipes of the other kinds are as they were.
    pub open spec fn dispatched(
        before: Self,
        after: Self,
        update: Update,
        results: Seq<CarbonResult<()>>,
    ) -> bool {
        &&& after.metrics == before.metrics
        &&& match update {
            Update::Account(account_update) => {
                &&& account_update_handed(
                    before.account_pipes@,
                    after.account_pipes@,
                    account_update,
                    before.metrics,
                    results,
                )
                &&& after.transaction_pipes == before.transaction_pipes
                &&& after.account_deletion_pipes == before.account_deletion_pipes
                &&& after.block_details_pipes == before.block_details_pipes
            },
            Update::Transaction(transaction_update) => {
                &&& transaction_update_handed(
                    before.transaction_pipes@,
                    after.transaction_pipes@,
                    *transaction_update,
                    before.metrics,
                    results,
                )
                &&& after.account_pipes == before.account_pipes
                &&& after.account_deletion_pipes == before.account_deletion_pipes
                &&& after.block_details_pipes == before.block_details_pipes
            },
            Update::AccountDeletion(account_deletion) => {
                &&& account_deletion_handed(
                    before.account_deletion_pipes@,
                    after.account_deletion_pipes@,
                    account_deletion,
                    before.metrics,
                    results,
                )
                &&& after.account_pipes == before.account_pipes
                &&& after.transaction_pipes == before.transaction_pipes
                &&& after.block_details_pipes == before.block_details_pipes
            },
            Update::BlockDetails(block_details) => {
                &&& block_details_handed(
                    before.block_details_pipes@,
                    after.block_details_pipes@,
                    block_details,
                    before.metrics,
                    results,
                )
                &&& after.account_pipes == before.account_pipes
                &&& after.transaction_pipes == before.transaction_pipes
                &&& after.account_deletion_pipes == before.account_deletion_pipes
            },
        }
    }

    /// Routes `update` to the pipes registered for its kind, and to no
    /// other. The result holds one answer for each of those pipes, in the
    /// order of registration: it is empty where no pipe is registered for
    /// the kind, which is no fault.
    pub fn dispatch(&mut self, update: Update) -> (results: Vec<CarbonResult<()>>)
        ensures
            Self::dispatched(*old(self), *final(self), update, results@),
            results@.len() == old(self).subscribed(update.spec_kind()),
    {
        match update {
            Update::Account(account_update) => hand_account_update(
                &mut self.account_pipes,
                &account_update,
                &self.metrics,
            ),
            Update::Transaction(transaction_update) => hand_transaction_update(
                &mut self.transaction_pipes,
                &transaction_update,
                &self.metrics,
            ),
            Update::AccountDeletion(account_deletion) => hand_account_deletion(
                &mut self.account_deletion_pipes,
                &account_deletion,
                &self.metrics,
            ),
            Update::BlockDetails(block_details) => hand_block_details(
                &mut self.block_details_pipes,
                &block_details,
                &self.metrics,
            ),
        }
    }

    /// Whether the metrics hold the three counters that [`Pipeline::record`]
    /// advances.
    pub open spec fn counts(&self) -> bool {
        &&& is_registered_as(self.metrics@, UPDATES_RECEIVED@, MetricKind::Counter)
        &&& is_registered_as(self.metrics@, UPDATES_SUCCESSFUL@, MetricKind::Counter)
        &&& is_registered_as(self.metrics@, UPDATES_FAILED@, MetricKind::Counter)
    }

    /// Records the routing of one update in the metrics: one more update
    /// received, and as many runs successful and failed as `results` holds
    /// of each, so that no failure goes by uncounted. Fails, and counts
    /// nothing, unless all three counters are registered.
    pub fn record(&self, results: &Vec<CarbonResult<()>>) -> (recorded: CarbonResult<()>)
        ensures
            recorded is Ok <==> self.counts(),
    {
        let failed = count_failures(results);
        let successful = results.len() - failed;
        match self.metrics.kind_of(UPDATES_RECEIVED) {
            Some(MetricKind::Counter) => {},
            _ => { return Err(Error::MetricNotRegistered(UPDATES_RECEIVED.to_string())); },
        }
        match self.metrics.kind_of(UPDATES_SUCCESSFUL) {
            Some(MetricKind::Counter) => {},
            _ => { return Err(Error::MetricNotRegistered(UPDATES_SUCCESSFUL.to_string())); },
        }
        match self.metrics.kind_of(UPDATES_FAILED) {
            Some(MetricKind::Counter) => {},
            _ => { return Err(Error::MetricNotRegistered(UPDATES_FAILED.to_string())); },
        }
        self.metrics.increment_counter(UPDATES_RECEIVED, 1)?;
        self.metrics.increment_counter(UPDATES_SUCCESSFUL, successful as u64)?;
        self.metrics.increment_counter(UPDATES_FAILED, failed as u64)?;
        Ok(())
    }

    /// What routing `updates` one after the other does to a pipeline, where
    /// `outcomes` holds, for each update, the answers of the pipes it was
    /// routed to.
    pub open spec fn dispatched_all(
        before: Self,
        after: Self,
        updates: Seq<(Update, DatasourceId)>,
        outcomes: Seq<Seq<CarbonResult<()>>>,
    ) -> bool {
        &&& after.metrics == before.metrics
        &&& outcomes.len() == updates.len()
        &&& forall|j: int|
            0 <= j < updates.len() ==> (#[trigger] outcomes[j]).len() == before.subscribed(
                updates[j].0.spec_kind(),
            )
        &&& account_update_fed(
            before.account_pipes@,
            after.account_pipes@,
            updates,
            before.metrics,
            outcomes,
        )
        &&& transaction_update_fed(
            before.transaction_pipes@,
            after.transaction_pipes@,
            updates,
            before.metrics,
            outcomes,
        )
        &&& account_deletion_fed(
            before.account_deletion_pipes@,
            after.account_deletion_pipes@,
            updates,
            before.metrics,
            outcomes,
        )
        &&& block_details_fed(
            before.block_details_pipes@,
            after.block_details_pipes@,
            updates,
            before.metrics,
            outcomes,
        )
    }

    /// Routes the updates one after the other, in the order in which they
    /// stand in `updates`, each as [`Pipeline::dispatch`] does. A failure is
    /// reported in the outcome of its update and stops nothing: the updates
    /// behind it are routed all the same.
    pub fn dispatch_all(&mut self, updates: Vec<(Update, DatasourceId)>) -> (outcomes: Vec<
        Vec<CarbonResult<()>>,
    >)
        ensures
            Self::dispatched_all(*old(self), *final(self), updates@, answers(outcomes@)),
    {
        let mut outcomes: Vec<Vec<CarbonResult<()>>> = Vec::new();
        let ghost all = updates@;
        for sent in stream: updates
            invariant
                stream.seq() == all,
                Self::dispatched_all(
                    *old(self),
                    *self,
                    all.take(stream.index() as int),
                    answers(outcomes@),
                ),
        {
            let ghost earlier = *self;
            let ghost done = all.take(stream.index() as int);
            let ghost answered = answers(outcomes@);
            let (update, _) = sent;
            let results = self.dispatch(update);
            outcomes.push(results);
            proof {
                assert(all.take(stream.index() + 1) =~= done.push(sent));
                assert(answers(outcomes@) =~= answered.push(results@));
                lemma_account_update_fed_step(
                    old(self).account_pipes@,
                    earlier.account_pipes@,
                    self.account_pipes@,
                    done,
                    self.metrics,
                    answered,
                    sent,
                    results@,
                );
                lemma_transaction_update_fed_step(
                    old(self).transaction_pipes@,
                    earlier.transaction_pipes@,
                    self.transaction_pipes@,
                    done,
                    self.metrics,
                    answered,
                    sent,
                    results@,
                );
                lemma_account_deletion_fed_step(
                    old(self).account_deletion_pipes@,
                    earlier.account_deletion_pipes@,
                    self.account_deletion_pipes@,
                    done,
                    self.metrics,
                    answered,
                    sent,
                    results@,
                );
                lemma_block_details_fed_step(
                    old(self).block_details_pipes@,
                    earlier.block_details_pipes@,
                    self.block_details_pipes@,
                    done,
                    self.metrics,
                    answered,
                    sent,
                    results@,
                );
            }
        }
        proof {
            assert(all.take(all.len() as int) =~= all);
        }
        outcomes
    }
}

} // verus!
