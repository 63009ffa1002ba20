use std::collections::HashSet;
use std::sync::{Arc, Mutex};

use carbon_core::account::{AccountUpdatePipe, AccountUpdatePipes};
use carbon_core::account_deletion::{AccountDeletionPipe, AccountDeletionPipes};
use carbon_core::block_details::{BlockDetailsPipe, BlockDetailsPipes};
use carbon_core::datasource::{
    AccountDeletion, AccountUpdate, BlockDetails, TransactionUpdate, Update, UpdateType,
};
use carbon_core::error::{CarbonResult, Error};
use carbon_core::filter::{judge, Filter, RecordedFilter};
use carbon_core::metrics::{MetricKind, MetricsCollection};
use carbon_core::processor::{Processor, RecordedProcessor};
use carbon_core::transaction::{TransactionPipe, TransactionPipes};
use solana_sdk::account::Account;
use solana_sdk::pubkey::Pubkey;
use solana_sdk::signature::Signature;
use solana_sdk::transaction::VersionedTransaction;
use solana_transaction_status::TransactionStatusMeta;

type Journal = Arc<Mutex<Vec<String>>>;

fn journal() -> Journal {
    Arc::new(Mutex::new(Vec::new()))
}

fn entries(journal: &Journal) -> Vec<String> {
    journal.lock().unwrap().clone()
}

/// A filter that notes each update it is shown and accepts by a rule on the slot.
struct Gate {
    name: &'static str,
    journal: Journal,
    accepts: fn(u64) -> bool,
}

impl Filter for Gate {
    fn filter(&mut self, update: &Update) -> bool {
        self.journal.lock().unwrap().push(format!("{}:{}", self.name, update.slot()));
        (self.accepts)(update.slot())
    }
}

fn gate(name: &'static str, journal: &Journal, accepts: fn(u64) -> bool) -> Box<dyn Filter> {
    Box::new(Gate { name, journal: journal.clone(), accepts })
}

/// A filter that lets each slot pass once.
struct Unseen {
    seen: HashSet<u64>,
}

impl Filter for Unseen {
    fn filter(&mut self, update: &Update) -> bool {
        self.seen.insert(update.slot())
    }
}

/// A filter that accepts one kind of update only.
struct OnlyKind(UpdateType);

impl Filter for OnlyKind {
    fn filter(&mut self, update: &Update) -> bool {
        update.kind() == self.0
    }
}

/// A processor that notes the slot of what it is handed and fails on one slot.
struct Sink<T> {
    journal: Journal,
    slot_of: fn(&T) -> u64,
    fail_on: Option<u64>,
    metric: Option<&'static str>,
}

impl<T> Processor for Sink<T> {
    type InputType = T;

    fn process(&mut self, data: T, metrics: Arc<MetricsCollection>) -> CarbonResult<()> {
        let slot = (self.slot_of)(&data);
        self.journal.lock().unwrap().push(format!("process:{}", slot));
        if let Some(name) = self.metric {
            metrics.increment_counter(name, 1)?;
        }
        if self.fail_on == Some(slot) {
            return Err(Error::Custom(format!("cannot handle slot {}", slot)));
        }
        Ok(())
    }
}

fn sink<T>(journal: &Journal, slot_of: fn(&T) -> u64) -> Sink<T> {
    Sink { journal: journal.clone(), slot_of, fail_on: None, metric: None }
}

fn no_metrics() -> Arc<MetricsCollection> {
    Arc::new(MetricsCollection::new())
}

fn deletion(slot: u64) -> AccountDeletion {
    AccountDeletion { pubkey: Pubkey::new_from_array([1; 32]), slot, transaction_signature: None }
}

fn account_update(slot: u64) -> AccountUpdate {
    AccountUpdate {
        pubkey: Pubkey::new_from_array([2; 32]),
        account: Account::default(),
        slot,
        transaction_signature: None,
    }
}

fn transaction(slot: u64) -> TransactionUpdate {
    TransactionUpdate {
        signature: Signature::from([3u8; 64]),
        transaction: VersionedTransaction::default(),
        meta: TransactionStatusMeta::default(),
        is_vote: false,
        slot,
        block_time: None,
        block_hash: None,
    }
}

fn block(slot: u64) -> BlockDetails {
    BlockDetails {
        slot,
        block_hash: None,
        previous_block_hash: None,
        rewards: None,
        num_reward_partitions: None,
        block_time: None,
        block_height: None,
    }
}

fn even(slot: u64) -> bool {
    slot % 2 == 0
}

fn any(_slot: u64) -> bool {
    true
}

fn none(_slot: u64) -> bool {
    false
}

fn deletion_slot(deletion: &AccountDeletion) -> u64 {
    deletion.slot
}

fn account_slot(update: &AccountUpdate) -> u64 {
    update.slot
}

fn transaction_slot(update: &TransactionUpdate) -> u64 {
    update.slot
}

fn block_slot(details: &BlockDetails) -> u64 {
    details.slot
}

#[test]
fn a_filter_on_even_slots_lets_slots_two_and_four_through_in_order() {
    let log = journal();
    let filters = journal();
    let mut pipe = AccountDeletionPipe::new(
        sink(&log, deletion_slot),
        vec![gate("even", &filters, even)],
    );
    for slot in [1u64, 2, 3, 4] {
        assert_eq!(pipe.run(deletion(slot), no_metrics()), Ok(()));
    }
    assert_eq!(entries(&log), vec!["process:2", "process:4"]);
    assert_eq!(entries(&filters), vec!["even:1", "even:2", "even:3", "even:4"]);
}

#[test]
fn filters_are_asked_in_order_and_none_after_the_first_rejection() {
    let log = journal();
    let mut pipe = AccountDeletionPipe::new(
        sink(&log, deletion_slot),
        vec![gate("a", &log, any), gate("b", &log, none), gate("c", &log, any)],
    );
    assert_eq!(pipe.run(deletion(5), no_metrics()), Ok(()));
    assert_eq!(entries(&log), vec!["a:5", "b:5"]);
}

#[test]
fn the_processor_runs_after_every_filter_has_accepted() {
    let log = journal();
    let mut pipe = AccountDeletionPipe::new(
        sink(&log, deletion_slot),
        vec![gate("a", &log, any), gate("b", &log, any), gate("c", &log, any)],
    );
    assert_eq!(pipe.run(deletion(6), no_metrics()), Ok(()));
    assert_eq!(entries(&log), vec!["a:6", "b:6", "c:6", "process:6"]);
}

#[test]
fn a_rejection_by_the_first_filter_asks_no_other() {
    let log = journal();
    let mut pipe = AccountDeletionPipe::new(
        sink(&log, deletion_slot),
        vec![gate("a", &log, none), gate("b", &log, any)],
    );
    assert_eq!(pipe.run(deletion(1), no_metrics()), Ok(()));
    assert_eq!(entries(&log), vec!["a:1"]);
}

#[test]
fn a_pipe_without_filters_processes_everything() {
    let log = journal();
    let mut pipe = AccountDeletionPipe::new(sink(&log, deletion_slot), Vec::new());
    for slot in [9u64, 7, 8] {
        assert_eq!(pipe.run(deletion(slot), no_metrics()), Ok(()));
    }
    assert_eq!(entries(&log), vec!["process:9", "process:7", "process:8"]);
    assert!(pipe.filters().is_empty());
}

#[test]
fn the_error_of_the_processor_is_returned_as_it_is() {
    let log = journal();
    let mut failing = sink(&log, deletion_slot);
    failing.fail_on = Some(3);
    let mut pipe = AccountDeletionPipe::new(failing, vec![gate("a", &log, any)]);
    assert_eq!(
        pipe.run(deletion(3), no_metrics()),
        Err(Error::Custom("cannot handle slot 3".to_string()))
    );
}

#[test]
fn a_failure_does_not_keep_the_next_update_from_the_processor() {
    let log = journal();
    let mut failing = sink(&log, deletion_slot);
    failing.fail_on = Some(1);
    let mut pipe = AccountDeletionPipe::new(failing, Vec::new());
    assert!(pipe.run(deletion(1), no_metrics()).is_err());
    assert_eq!(pipe.run(deletion(2), no_metrics()), Ok(()));
    assert_eq!(entries(&log), vec!["process:1", "process:2"]);
}

#[test]
fn a_rejected_update_that_would_fail_is_no_error() {
    let log = journal();
    let mut failing = sink(&log, deletion_slot);
    failing.fail_on = Some(1);
    let mut pipe = AccountDeletionPipe::new(failing, vec![gate("even", &log, even)]);
    assert_eq!(pipe.run(deletion(1), no_metrics()), Ok(()));
    assert_eq!(entries(&log), vec!["even:1"]);
}

#[test]
fn a_filter_may_remember_what_it_has_seen() {
    let log = journal();
    let mut pipe = AccountDeletionPipe::new(
        sink(&log, deletion_slot),
        vec![Box::new(Unseen { seen: HashSet::new() }) as Box<dyn Filter>],
    );
    for slot in [4u64, 4, 5, 4, 5, 6] {
        assert_eq!(pipe.run(deletion(slot), no_metrics()), Ok(()));
    }
    assert_eq!(entries(&log), vec!["process:4", "process:5", "process:6"]);
}

#[test]
fn the_filters_of_a_pipe_can_be_inspected() {
    let log = journal();
    let pipe = AccountDeletionPipe::new(
        sink(&log, deletion_slot),
        vec![gate("a", &log, any), gate("b", &log, even)],
    );
    assert_eq!(pipe.filters().len(), 2);
    assert_eq!(pipe.filters.len(), 2);
    assert!(entries(&log).is_empty());
}

#[test]
fn the_processor_is_handed_the_metrics() {
    let log = journal();
    let mut metrics = MetricsCollection::new();
    metrics.register("deletions", MetricKind::Counter).unwrap();
    let metrics = Arc::new(metrics);
    let mut counting = sink(&log, deletion_slot);
    counting.metric = Some("deletions");
    let mut pipe = AccountDeletionPipe::new(counting, vec![gate("even", &log, even)]);
    for slot in [1u64, 2, 3, 4, 6] {
        assert_eq!(pipe.run(deletion(slot), metrics.clone()), Ok(()));
    }
    assert_eq!(metrics.read("deletions"), Some(3));
}

#[test]
fn the_filters_of_a_deletion_pipe_see_an_account_deletion() {
    let log = journal();
    let mut pipe = AccountDeletionPipe::new(
        sink(&log, deletion_slot),
        vec![Box::new(OnlyKind(UpdateType::AccountDeletion)) as Box<dyn Filter>],
    );
    assert_eq!(pipe.run(deletion(1), no_metrics()), Ok(()));
    assert_eq!(entries(&log), vec!["process:1"]);
}

#[test]
fn an_account_pipe_filters_and_processes_account_updates() {
    let log = journal();
    let mut failing = sink(&log, account_slot);
    failing.fail_on = Some(4);
    let mut pipe = AccountUpdatePipe::new(
        failing,
        vec![
            Box::new(OnlyKind(UpdateType::AccountUpdate)) as Box<dyn Filter>,
            gate("even", &log, even),
        ],
    );
    assert_eq!(pipe.run(account_update(1), no_metrics()), Ok(()));
    assert_eq!(pipe.run(account_update(2), no_metrics()), Ok(()));
    assert_eq!(
        pipe.run(account_update(4), no_metrics()),
        Err(Error::Custom("cannot handle slot 4".to_string()))
    );
    assert_eq!(
        entries(&log),
        vec!["even:1", "even:2", "process:2", "even:4", "process:4"]
    );
    assert_eq!(pipe.filters().len(), 2);
}

#[test]
fn a_transaction_pipe_filters_and_processes_transactions() {
    let log = journal();
    let mut failing = sink(&log, transaction_slot);
    failing.fail_on = Some(4);
    let mut pipe = TransactionPipe::new(
        failing,
        vec![
            Box::new(OnlyKind(UpdateType::Transaction)) as Box<dyn Filter>,
            gate("even", &log, even),
        ],
    );
    assert_eq!(pipe.run(transaction(1), no_metrics()), Ok(()));
    assert_eq!(pipe.run(transaction(2), no_metrics()), Ok(()));
    assert_eq!(
        pipe.run(transaction(4), no_metrics()),
        Err(Error::Custom("cannot handle slot 4".to_string()))
    );
    assert_eq!(
        entries(&log),
        vec!["even:1", "even:2", "process:2", "even:4", "process:4"]
    );
    assert_eq!(pipe.filters().len(), 2);
}

#[test]
fn a_block_details_pipe_filters_and_processes_blocks() {
    let log = journal();
    let mut failing = sink(&log, block_slot);
    failing.fail_on = Some(4);
    let mut pipe = BlockDetailsPipe::new(
        failing,
        vec![
            Box::new(OnlyKind(UpdateType::BlockDetails)) as Box<dyn Filter>,
            gate("even", &log, even),
        ],
    );
    assert_eq!(pipe.run(block(1), no_metrics()), Ok(()));
    assert_eq!(pipe.run(block(2), no_metrics()), Ok(()));
    assert_eq!(
        pipe.run(block(4), no_metrics()),
        Err(Error::Custom("cannot handle slot 4".to_string()))
    );
    assert_eq!(
        entries(&log),
        vec!["even:1", "even:2", "process:2", "even:4", "process:4"]
    );
    assert_eq!(pipe.filters().len(), 2);
}

#[test]
fn judge_counts_the_filters_that_accepted() {
    let log = journal();
    let update = Update::AccountDeletion(deletion(3));
    let mut all: Vec<Box<dyn Filter>> = vec![gate("a", &log, any), gate("b", &log, any)];
    assert_eq!(judge(&mut all, &update), 2);
    let mut second_rejects: Vec<Box<dyn Filter>> =
        vec![gate("c", &log, any), gate("d", &log, even), gate("e", &log, any)];
    assert_eq!(judge(&mut second_rejects, &update), 1);
    let mut first_rejects: Vec<Box<dyn Filter>> = vec![gate("f", &log, none)];
    assert_eq!(judge(&mut first_rejects, &update), 0);
    let mut empty: Vec<Box<dyn Filter>> = Vec::new();
    assert_eq!(judge(&mut empty, &update), 0);
    assert_eq!(entries(&log), vec!["a:3", "b:3", "c:3", "d:3", "f:3"]);
}

#[test]
fn a_recorded_filter_decides_as_the_filter_it_holds() {
    let log = journal();
    let update = Update::AccountDeletion(deletion(3));
    let mut recorded =
        RecordedFilter::new(Gate { name: "even", journal: log.clone(), accepts: even });
    assert!(!recorded.filter(&update));
    assert!(recorded.filter(&Update::AccountDeletion(deletion(4))));
    assert_eq!(entries(&log), vec!["even:3", "even:4"]);
}

#[test]
fn a_recorded_processor_handles_as_the_processor_it_holds() {
    let log = journal();
    let mut failing = sink(&log, deletion_slot);
    failing.fail_on = Some(2);
    let mut recorded = RecordedProcessor::new(failing);
    assert_eq!(recorded.process(deletion(1), no_metrics()), Ok(()));
    assert_eq!(
        recorded.process(deletion(2), no_metrics()),
        Err(Error::Custom("cannot handle slot 2".to_string()))
    );
    assert_eq!(entries(&log), vec!["process:1", "process:2"]);
}

#[test]
fn a_pipe_of_recorded_parts_runs_like_any_other() {
    let log = journal();
    let mut pipe = AccountDeletionPipe::new(
        RecordedProcessor::new(sink(&log, deletion_slot)),
        vec![Box::new(RecordedFilter::new(Gate {
            name: "even",
            journal: log.clone(),
            accepts: even,
        })) as Box<dyn Filter>],
    );
    for slot in [1u64, 2, 3, 4] {
        assert_eq!(pipe.run(deletion(slot), no_metrics()), Ok(()));
    }
    assert_eq!(
        entries(&log),
        vec!["even:1", "even:2", "process:2", "even:3", "even:4", "process:4"]
    );
}
