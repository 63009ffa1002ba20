//! The faults that the pipeline reports.

use crate::datasource::UpdateType;
use vstd::prelude::*;

verus! {

/// A fault reported by a processor, by the wiring check or by the metrics.
#[derive(Debug, Clone, PartialEq, Eq)]
pub enum Error {
    /// A processor failed, and says why in its own words.
    Custom(String),
    /// A pipe is registered for a kind of update that no datasource declares.
    MissingUpdateTypeInDatasource(UpdateType),
    /// A metric of this name is registered already.
    MetricAlreadyRegistered(String),
    /// No metric of this name and kind is registered.
    MetricNotRegistered(String),
}

pub type CarbonResult<T> = Result<T, Error>;

} // verus!
