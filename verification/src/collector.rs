use std::marker::PhantomData;
use std::time::Duration;
use vstd::prelude::*;

verus! {

/// A collector that, once every `interval`, emits the value that `f` gives.
pub struct IntervalCollector<T, F> {
    interval: Duration,
    f: F,
    _phantom: PhantomData<T>,
}

impl<T, F> IntervalCollector<T, F> where F: Fn() -> T {
    /// The time between two events.
    pub closed spec fn interval_value(self) -> Duration {
        self.interval
    }

    /// The function that produces each event.
    pub closed spec fn produce_fn(self) -> F {
        self.f
    }

    pub fn new(interval: Duration, f: F) -> (r: Self)
        ensures
            r.interval_value() == interval,
            r.produce_fn() == f,
    {
        IntervalCollector { interval, f, _phantom: PhantomData }
    }

    /// The name under which this collector reports itself.
    pub fn name(&self) -> (r: &'static str)
        ensures
            r@ == "IntervalCollector"@,
    {
        "IntervalCollector"
    }

    pub fn interval(&self) -> (r: Duration)
        ensures
            r == self.interval_value(),
    {
        self.interval
    }

    /// The event emitted at the end of an interval: the result of one call
    /// of the collector's function.
    ///
    /// The contract says that the result is one that the function can
    /// return; it does not say how many times the function is called. A
    /// closure's `ensures` is a relation on its arguments and result with no
    /// notion of the closure's own state, so a call count can only be kept in
    /// tracked ghost state, which this crate does not use.
    pub fn produce(&self) -> (r: T)
        requires
            self.produce_fn().requires(()),
        ensures
            self.produce_fn().ensures((), r),
    {
        (self.f)()
    }
}

} // verus!
