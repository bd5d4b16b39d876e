use std::marker::PhantomData;
use vstd::prelude::*;

verus! {

/// Receives the actions that strategies produce.
pub trait ActionSubmitter<A>: Send + Sync where A: Send + Sync + 'static {
    fn submit(&self, action: A);
}

/// A boxed submitter submits what it is given to the submitter it holds.
impl<A> ActionSubmitter<A> for Box<dyn ActionSubmitter<A>> where A: Send + Sync + 'static {
    fn submit(&self, action: A) {
        (**self).submit(action)
    }
}

/// Picks the part of an action that an executor of `Sub` handles, if the
/// action has one.
pub trait Extract<Sub> {
    fn extract(&self) -> Option<&Sub>;
}

/// A collector whose events are those of `inner`, each passed through `f`.
pub struct CollectorMap<C, F> {
    inner: C,
    f: F,
}

impl<C, F> CollectorMap<C, F> {
    /// The collector whose events are mapped.
    pub closed spec fn inner_collector(self) -> C {
        self.inner
    }

    /// The function applied to each event.
    pub closed spec fn map_fn(self) -> F {
        self.f
    }

    pub fn new(collector: C, f: F) -> (r: Self)
        ensures
            r.inner_collector() == collector,
            r.map_fn() == f,
    {
        CollectorMap { inner: collector, f }
    }

    pub fn inner(&self) -> (r: &C)
        ensures
            *r == self.inner_collector(),
    {
        &self.inner
    }

    /// The event that this collector emits for an event `event` of the inner
    /// collector.
    pub fn map_event<E1, E2>(&self, event: E1) -> (r: E2) where F: Fn(E1) -> E2
        requires
            self.map_fn().requires((event,)),
        ensures
            self.map_fn().ensures((event,), r),
    {
        (self.f)(event)
    }
}

/// A collector that passes each event of `inner` through `f`, emits the
/// result where `f` gives `Some` and drops the event where it gives `None`.
pub struct CollectorFilterMap<C, F> {
    inner: C,
    f: F,
}

impl<C, F> CollectorFilterMap<C, F> {
    /// The collector whose events are filtered and mapped.
    pub closed spec fn inner_collector(self) -> C {
        self.inner
    }

    /// The function applied to each event.
    pub closed spec fn filter_map_fn(self) -> F {
        self.f
    }

    pub fn new(collector: C, f: F) -> (r: Self)
        ensures
            r.inner_collector() == collector,
            r.filter_map_fn() == f,
    {
        CollectorFilterMap { inner: collector, f }
    }

    pub fn inner(&self) -> (r: &C)
        ensures
            *r == self.inner_collector(),
    {
        &self.inner
    }

    /// What this collector emits for an event `event` of the inner collector:
    /// `Some(e)` is emitted as `e`, `None` means that nothing is emitted.
    pub fn filter_map_event<E1, E2>(&self, event: E1) -> (r: Option<E2>) where
        F: Fn(E1) -> Option<E2>,

        requires
            self.filter_map_fn().requires((event,)),
        ensures
            self.filter_map_fn().ensures((event,), r),
    {
        (self.f)(event)
    }
}

/// Dispatches the `Sub` part of an action, where it has one, to `executor`.
pub struct Route<E, Sub> {
    executor: E,
    _sub: PhantomData<Sub>,
}

impl<E, Sub> Route<E, Sub> {
    /// The executor that the route hands sub-actions to.
    pub closed spec fn executor_value(self) -> E {
        self.executor
    }

    pub fn new(executor: E) -> (r: Self)
        ensures
            r.executor_value() == executor,
    {
        Route { executor, _sub: PhantomData }
    }

    pub fn executor(&self) -> (r: &E)
        ensures
            *r == self.executor_value(),
    {
        &self.executor
    }
}

/// Dispatches each part of an action whose type is listed in the tuple
/// `Subs`, where the action has one, to `executor`, in the order of the tuple.
pub struct Routes<E, Subs> {
    executor: E,
    _subs: PhantomData<Subs>,
}

impl<E, Subs> Routes<E, Subs> {
    /// The executor that the routes hand sub-actions to.
    pub closed spec fn executor_value(self) -> E {
        self.executor
    }

    pub fn new(executor: E) -> (r: Self)
        ensures
            r.executor_value() == executor,
    {
        Routes { executor, _subs: PhantomData }
    }

    pub fn executor(&self) -> (r: &E)
        ensures
            *r == self.executor_value(),
    {
        &self.executor
    }
}

} // verus!
