//! The update distribution core of an indexing pipeline for Solana.
//!
//! Datasources emit [`datasource::Update`]s. The [`pipeline::Pipeline`] routes
//! each one to the pipes registered for its kind. A pipe shows it to its
//! [`filter::Filter`]s in order and, if all of them accept, hands the payload
//! to its [`processor::Processor`]. The loop that feeds the pipeline is
//! decided by [`consumer::step`], and [`metrics::MetricsCollection`] holds the
//! counters and gauges that all of them share.
//!
//! Filters, processors and pipes may keep a record of what they were asked:
//! the contracts of this crate say what the pipeline does through those
//! records.

pub mod account;
pub mod account_deletion;
pub mod account_utils;
pub mod block_details;
pub mod collection;
pub mod consumer;
pub mod datasource;
pub mod deserialize;
pub mod error;
pub mod filter;
pub mod instruction;
pub mod metrics;
pub mod pipe;
pub mod pipeline;
pub mod processor;
pub mod routing;
pub mod sdk;
pub mod transaction;
