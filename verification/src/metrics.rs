//! Named counters and gauges that pipes, processors and datasources share.
//!
//! A metric is registered once, while the collection is being built, and
//! updated as often as needed afterwards through a shared reference. Each
//! metric is one atomic cell, so concurrent updates of one metric are never
//! lost, and no update of one metric waits for another.

use crate::error::{CarbonResult, Error};
use std::sync::atomic::{AtomicU64, Ordering};
use vstd::prelude::*;

verus! {

/// What a metric measures.
#[derive(Debug, Clone, Copy, PartialEq, Eq, Structural)]
pub enum MetricKind {
    /// A count that only grows.
    Counter,
    /// A level that is set anew each time.
    Gauge,
}

/// The registry of metrics.
pub struct MetricsCollection {
    names: Vec<String>,
    kinds: Vec<MetricKind>,
    cells: Vec<AtomicU64>,
}

impl View for MetricsCollection {
    type V = Seq<(Seq<char>, MetricKind)>;

    /// The registered metrics, in the order of their registration.
    closed spec fn view(&self) -> Seq<(Seq<char>, MetricKind)> {
        Seq::new(self.names.len() as nat, |i: int| (self.names[i]@, self.kinds[i]))
    }
}

/// Whether `metrics` holds a metric called `name`.
pub open spec fn is_registered(metrics: Seq<(Seq<char>, MetricKind)>, name: Seq<char>) -> bool {
    exists|i: int| 0 <= i < metrics.len() && (#[trigger] metrics[i]).0 == name
}

/// Whether `metrics` holds a metric called `name` that is of kind `kind`.
pub open spec fn is_registered_as(
    metrics: Seq<(Seq<char>, MetricKind)>,
    name: Seq<char>,
    kind: MetricKind,
) -> bool {
    exists|i: int| 0 <= i < metrics.len() && #[trigger] metrics[i] == (name, kind)
}

/// Whether no two metrics of `metrics` share a name.
pub open spec fn names_distinct(metrics: Seq<(Seq<char>, MetricKind)>) -> bool {
    forall|i: int, j: int|
        0 <= i < j < metrics.len() ==> (#[trigger] metrics[i]).0 != (#[trigger] metrics[j]).0
}

fn add_to(cell: &AtomicU64, value: u64) {
    cell.fetch_add(value, Ordering::Relaxed);
}

fn set_to(cell: &AtomicU64, value: u64) {
    cell.store(value, Ordering::Relaxed);
}

/// What `cell` holds at the moment of the call. Other holders of the
/// collection may change the cell at any time, so nothing is stated of the
/// number.
fn reading_of(cell: &AtomicU64) -> u64 {
    cell.load(Ordering::Relaxed)
}

impl MetricsCollection {
    #[verifier::type_invariant]
    spec fn well_formed(&self) -> bool {
        &&& self.names.len() == self.kinds.len()
        &&& self.names.len() == self.cells.len()
        &&& names_distinct(self@)
    }

    /// A collection without metrics.
    pub fn new() -> (metrics: Self)
        ensures
            metrics@ == Seq::<(Seq<char>, MetricKind)>::empty(),
    {
        MetricsCollection { names: Vec::new(), kinds: Vec::new(), cells: Vec::new() }
    }

    /// The number of registered metrics.
    pub fn len(&self) -> (len: usize)
        ensures
            len == self@.len(),
    {
        self.names.len()
    }

    fn position(&self, name: &String) -> (found: Option<usize>)
        ensures
            match found {
                Some(i) => i < self@.len() && self@[i as int].0 == name@,
                None => !is_registered(self@, name@),
            },
    {
        let mut i: usize = 0;
        while i < self.names.len()
            invariant
                i <= self.names.len(),
                forall|j: int| 0 <= j < i ==> (#[trigger] self@[j]).0 != name@,
            decreases self.names.len() - i,
        {
            if self.names[i] == *name {
                return Some(i);
            }
            i += 1;
        }
        None
    }

    /// Registers a metric called `name`, starting at zero, unless the name is
    /// taken.
    pub fn register(&mut self, name: &str, kind: MetricKind) -> (result: CarbonResult<()>)
        ensures
            match result {
                Ok(()) => !is_registered(old(self)@, name@) && final(self)@ == old(self)@.push(
                    (name@, kind),
                ),
                Err(Error::MetricAlreadyRegistered(taken)) => is_registered(old(self)@, name@)
                    && final(self)@ == old(self)@ && taken@ == name@,
                Err(_) => false,
            },
    {
        proof {
            use_type_invariant(&*self);
        }
        let owned = name.to_string();
        match self.position(&owned) {
            Some(_) => Err(Error::MetricAlreadyRegistered(owned)),
            None => {
                let ghost before = self@;
                let mut taken = MetricsCollection::new();
                core::mem::swap(self, &mut taken);
                proof {
                    use_type_invariant(&taken);
                }
                let MetricsCollection { mut names, mut kinds, mut cells } = taken;
                names.push(owned);
                kinds.push(kind);
                cells.push(AtomicU64::new(0u64));
                proof {
                    let after = Seq::new(names.len() as nat, |i: int| (names[i]@, kinds[i]));
                    assert(after =~= before.push((name@, kind)));
                    assert forall|i: int, j: int| 0 <= i < j < after.len() implies (
                    #[trigger] after[i]).0 != (#[trigger] after[j]).0 by {
                        if j < before.len() {
                            assert(before[i].0 != before[j].0);
                        } else {
                            assert(before[i].0 != name@);
                        }
                    }
                }
                *self = MetricsCollection { names, kinds, cells };
                Ok(())
            },
        }
    }

    /// The kind of the metric called `name`, if there is one. A name stands
    /// for one metric, so it has no other kind besides.
    pub fn kind_of(&self, name: &str) -> (kind: Option<MetricKind>)
        ensures
            kind is Some <==> is_registered(self@, name@),
            forall|other: MetricKind|
                is_registered_as(self@, name@, other) <==> kind == Some(other),
    {
        proof {
            use_type_invariant(self);
        }
        let owned = name.to_string();
        match self.position(&owned) {
            Some(i) => {
                let kind = self.kinds[i];
                proof {
                    assert(self@[i as int] == (name@, kind));
                    assert forall|other: MetricKind|
                        is_registered_as(self@, name@, other) implies other == kind by {
                        let j = choose|j: int|
                            0 <= j < self@.len() && #[trigger] self@[j] == (name@, other);
                        if j < i {
                            assert(self@[j].0 != self@[i as int].0);
                        } else if i < j {
                            assert(self@[i as int].0 != self@[j].0);
                        }
                    }
                }
                Some(kind)
            },
            None => {
                proof {
                    assert forall|other: MetricKind| !is_registered_as(self@, name@, other) by {
                        if is_registered_as(self@, name@, other) {
                            let j = choose|j: int|
                                0 <= j < self@.len() && #[trigger] self@[j] == (name@, other);
                            assert(self@[j].0 == name@);
                        }
                    }
                }
                None
            },
        }
    }

    /// Adds `value` to the counter called `name`; the count wraps around at
    /// the largest `u64`. Fails if no counter of that name is registered.
    pub fn increment_counter(&self, name: &str, value: u64) -> (result: CarbonResult<()>)
        ensures
            match result {
                Ok(()) => is_registered_as(self@, name@, MetricKind::Counter),
                Err(Error::MetricNotRegistered(missing)) => !is_registered_as(
                    self@,
                    name@,
                    MetricKind::Counter,
                ) && missing@ == name@,
                Err(_) => false,
            },
    {
        proof {
            use_type_invariant(self);
        }
        let owned = name.to_string();
        match self.position(&owned) {
            Some(i) => {
                match self.kinds[i] {
                    MetricKind::Counter => {
                        assert(self@[i as int] == (name@, MetricKind::Counter));
                        add_to(&self.cells[i], value);
                        Ok(())
                    },
                    MetricKind::Gauge => {
                        assert(self@[i as int] == (name@, MetricKind::Gauge));
                        Err(Error::MetricNotRegistered(owned))
                    },
                }
            },
            None => Err(Error::MetricNotRegistered(owned)),
        }
    }

    /// Sets the gauge called `name` to `value`. Fails if no gauge of that
    /// name is registered.
    pub fn update_gauge(&self, name: &str, value: u64) -> (result: CarbonResult<()>)
        ensures
            match result {
                Ok(()) => is_registered_as(self@, name@, MetricKind::Gauge),
                Err(Error::MetricNotRegistered(missing)) => !is_registered_as(
                    self@,
                    name@,
                    MetricKind::Gauge,
                ) && missing@ == name@,
                Err(_) => false,
            },
    {
        proof {
            use_type_invariant(self);
        }
        let owned = name.to_string();
        match self.position(&owned) {
            Some(i) => {
                match self.kinds[i] {
                    MetricKind::Gauge => {
                        assert(self@[i as int] == (name@, MetricKind::Gauge));
                        set_to(&self.cells[i], value);
                        Ok(())
                    },
                    MetricKind::Counter => {
                        assert(self@[i as int] == (name@, MetricKind::Counter));
                        Err(Error::MetricNotRegistered(owned))
                    },
                }
            },
            None => Err(Error::MetricNotRegistered(owned)),
        }
    }

    /// What the metric called `name` reads at this moment, if there is such a
    /// metric.
    pub fn read(&self, name: &str) -> (value: Option<u64>)
        ensures
            value is Some <==> is_registered(self@, name@),
    {
        proof {
            use_type_invariant(self);
        }
        let owned = name.to_string();
        match self.position(&owned) {
            Some(i) => Some(reading_of(&self.cells[i])),
            None => None,
        }
    }

    /// Every metric with what it reads at this moment, in the order of
    /// registration: what is flushed when the pipeline shuts down.
    pub fn snapshot(&self) -> (readings: Vec<(String, u64)>)
        ensures
            readings.len() == self@.len(),
            forall|i: int| 0 <= i < readings.len() ==> (#[trigger] readings[i]).0@ == self@[i].0,
    {
        proof {
            use_type_invariant(self);
        }
        let mut readings: Vec<(String, u64)> = Vec::new();
        let mut i: usize = 0;
        while i < self.names.len()
            invariant
                i <= self.names.len(),
                self.names.len() == self.cells.len(),
                readings.len() == i,
                forall|j: int| 0 <= j < i ==> (#[trigger] readings[j]).0@ == self@[j].0,
            decreases self.names.len() - i,
        {
            let name = self.names[i].clone();
            let value = reading_of(&self.cells[i]);
            readings.push((name, value));
            i += 1;
        }
        readings
    }
}

} // verus!
