use vstd::prelude::*;

verus! {

/// How many events the channel from collectors to strategies holds unless
/// the engine is configured otherwise.
pub const DEFAULT_EVENT_CHANNEL_CAPACITY: usize = 512;

/// The engine's configuration: its collectors, its strategies, the dispatch
/// pipeline for actions and the capacity of the event channel.
pub struct Engine<C, S, D> {
    collectors: Vec<C>,
    strategies: Vec<S>,
    dispatch: D,
    event_channel_capacity: usize,
}

/// The parts of an engine, taken apart to be run.
pub struct EngineParts<C, S, D> {
    pub collectors: Vec<C>,
    pub strategies: Vec<S>,
    pub dispatch: D,
    pub event_channel_capacity: usize,
}

impl<C, S, D> Engine<C, S, D> {
    /// The collectors, in the order in which they were added.
    pub closed spec fn collector_list(self) -> Seq<C> {
        self.collectors@
    }

    /// The strategies, in the order in which they were added.
    pub closed spec fn strategy_list(self) -> Seq<S> {
        self.strategies@
    }

    /// The dispatch pipeline that actions are handed to.
    pub closed spec fn dispatch_value(self) -> D {
        self.dispatch
    }

    /// The number of events that the event channel holds.
    pub closed spec fn capacity(self) -> usize {
        self.event_channel_capacity
    }

    /// An engine with no collector and no strategy, whose event channel holds
    /// `DEFAULT_EVENT_CHANNEL_CAPACITY` events.
    pub fn new(dispatch: D) -> (r: Self)
        ensures
            r.collector_list() == Seq::<C>::empty(),
            r.strategy_list() == Seq::<S>::empty(),
            r.dispatch_value() == dispatch,
            r.capacity() == DEFAULT_EVENT_CHANNEL_CAPACITY,
    {
        Engine {
            collectors: Vec::new(),
            strategies: Vec::new(),
            dispatch,
            event_channel_capacity: DEFAULT_EVENT_CHANNEL_CAPACITY,
        }
    }

    pub fn with_event_channel_capacity(self, capacity: usize) -> (r: Self)
        ensures
            r.capacity() == capacity,
            r.collector_list() == self.collector_list(),
            r.strategy_list() == self.strategy_list(),
            r.dispatch_value() == self.dispatch_value(),
    {
        let mut engine = self;
        engine.event_channel_capacity = capacity;
        engine
    }

    pub fn strategy_count(&self) -> (r: usize)
        ensures
            r == self.strategy_list().len(),
    {
        self.strategies.len()
    }

    pub fn add_collector(&mut self, collector: C)
        ensures
            final(self).collector_list() == old(self).collector_list().push(collector),
            final(self).strategy_list() == old(self).strategy_list(),
            final(self).dispatch_value() == old(self).dispatch_value(),
            final(self).capacity() == old(self).capacity(),
    {
        self.collectors.push(collector);
    }

    pub fn add_strategy(&mut self, strategy: S)
        ensures
            final(self).strategy_list() == old(self).strategy_list().push(strategy),
            final(self).collector_list() == old(self).collector_list(),
            final(self).dispatch_value() == old(self).dispatch_value(),
            final(self).capacity() == old(self).capacity(),
    {
        self.strategies.push(strategy);
    }

    /// The plan by which a run of this engine starts its tasks.
    pub fn run_plan(&self) -> (r: RunPlan)
        ensures
            r.n_collectors == self.collector_list().len(),
            r.n_strategies == self.strategy_list().len(),
    {
        RunPlan { n_collectors: self.collectors.len(), n_strategies: self.strategies.len() }
    }

    pub fn into_parts(self) -> (r: EngineParts<C, S, D>)
        ensures
            r.collectors@ == self.collector_list(),
            r.strategies@ == self.strategy_list(),
            r.dispatch == self.dispatch_value(),
            r.event_channel_capacity == self.capacity(),
    {
        EngineParts {
            collectors: self.collectors,
            strategies: self.strategies,
            dispatch: self.dispatch,
            event_channel_capacity: self.event_channel_capacity,
        }
    }
}

/// A call that changes an engine's configuration.
pub enum EngineCall<C, S> {
    AddCollector(C),
    AddStrategy(S),
    SetEventChannelCapacity(usize),
}

/// `after` is what the call `call` makes of `before`, as the contracts of
/// `add_collector`, `add_strategy` and `with_event_channel_capacity` state.
pub open spec fn call_effect<C, S, D>(
    before: Engine<C, S, D>,
    call: EngineCall<C, S>,
    after: Engine<C, S, D>,
) -> bool {
    &&& after.dispatch_value() == before.dispatch_value()
    &&& match call {
        EngineCall::AddCollector(c) => {
            &&& after.collector_list() == before.collector_list().push(c)
            &&& after.strategy_list() == before.strategy_list()
            &&& after.capacity() == before.capacity()
        },
        EngineCall::AddStrategy(st) => {
            &&& after.strategy_list() == before.strategy_list().push(st)
            &&& after.collector_list() == before.collector_list()
            &&& after.capacity() == before.capacity()
        },
        EngineCall::SetEventChannelCapacity(n) => {
            &&& after.capacity() == n
            &&& after.collector_list() == before.collector_list()
            &&& after.strategy_list() == before.strategy_list()
        },
    }
}

/// How many of `calls` add a strategy.
pub open spec fn strategies_added<C, S>(calls: Seq<EngineCall<C, S>>) -> nat
    decreases calls.len(),
{
    if calls.len() == 0 {
        0
    } else {
        strategies_added(calls.drop_last()) + if calls.last() is AddStrategy {
            1nat
        } else {
            0nat
        }
    }
}

/// After any sequence of configuration calls on a new engine, its strategy
/// count (what `strategy_count` returns) is the number of `add_strategy`
/// calls among them, whatever other calls come in between.
pub proof fn law_strategy_count_counts_additions<C, S, D>(
    engines: Seq<Engine<C, S, D>>,
    calls: Seq<EngineCall<C, S>>,
)
    requires
        engines.len() == calls.len() + 1,
        engines[0].strategy_list() == Seq::<S>::empty(),
        forall|i: int| 0 <= i < calls.len() ==> call_effect(engines[i], #[trigger] calls[i], engines[i + 1]),
    ensures
        engines.last().strategy_list().len() == strategies_added(calls),
    decreases calls.len(),
{
    if calls.len() > 0 {
        let n = calls.len() - 1;
        let prefix = engines.drop_last();
        assert forall|i: int| 0 <= i < calls.drop_last().len() implies call_effect(
            prefix[i],
            #[trigger] calls.drop_last()[i],
            prefix[i + 1],
        ) by {
            assert(call_effect(engines[i], calls[i], engines[i + 1]));
        }
        law_strategy_count_counts_additions(prefix, calls.drop_last());
        assert(call_effect(engines[n], calls[n], engines[n + 1]));
    }
}

/// Why a run of the engine did not start.
#[derive(Clone, Copy, Debug, PartialEq, Eq, Structural)]
pub enum EngineError {
    NoCollectors,
    NoStrategies,
    /// The strategy at this index failed to sync its state.
    SyncStateFailed(usize),
}

/// One step of starting a run.
#[derive(Clone, Copy, Debug, PartialEq, Eq, Structural)]
pub enum RunStep {
    /// Subscribe the strategy at this index to the event channel and sync its
    /// state; report whether the sync succeeded.
    SyncStrategy(usize),
    /// Start the event loop of the strategy at this index.
    SpawnStrategy(usize),
    /// Start the event loop of the collector at this index.
    SpawnCollector(usize),
    /// Every task has been started: the run is up.
    Finished,
    /// The run stops with this error; the tasks started so far are cancelled.
    Aborted(EngineError),
}

impl RunStep {
    pub open spec fn is_final(self) -> bool {
        self is Finished || self is Aborted
    }
}

/// How many collectors and strategies a run starts.
#[derive(Clone, Copy, Debug, PartialEq, Eq, Structural)]
pub struct RunPlan {
    pub n_collectors: usize,
    pub n_strategies: usize,
}

impl RunPlan {
    /// The step that a run begins with.
    pub open spec fn first_step_spec(self) -> RunStep {
        if self.n_collectors == 0 {
            RunStep::Aborted(EngineError::NoCollectors)
        } else if self.n_strategies == 0 {
            RunStep::Aborted(EngineError::NoStrategies)
        } else {
            RunStep::SyncStrategy(0)
        }
    }

    /// The steps that can occur in a run of this plan.
    pub open spec fn step_in_range(self, step: RunStep) -> bool {
        match step {
            RunStep::SyncStrategy(i) => i < self.n_strategies && self.n_collectors > 0,
            RunStep::SpawnStrategy(i) => i < self.n_strategies && self.n_collectors > 0,
            RunStep::SpawnCollector(j) => j < self.n_collectors,
            _ => true,
        }
    }

    /// The step after `step`; `sync_ok` is whether the sync that a
    /// `SyncStrategy` step asked for succeeded, and matters for no other step.
    pub open spec fn next_step_spec(self, step: RunStep, sync_ok: bool) -> RunStep {
        match step {
            RunStep::SyncStrategy(i) => if sync_ok {
                RunStep::SpawnStrategy(i)
            } else {
                RunStep::Aborted(EngineError::SyncStateFailed(i))
            },
            RunStep::SpawnStrategy(i) => if i + 1 < self.n_strategies {
                RunStep::SyncStrategy((i + 1) as usize)
            } else {
                RunStep::SpawnCollector(0)
            },
            RunStep::SpawnCollector(j) => if j + 1 < self.n_collectors {
                RunStep::SpawnCollector((j + 1) as usize)
            } else {
                RunStep::Finished
            },
            _ => step,
        }
    }

    pub fn first_step(&self) -> (r: RunStep)
        ensures
            r == self.first_step_spec(),
            self.step_in_range(r),
    {
        if self.n_collectors == 0 {
            RunStep::Aborted(EngineError::NoCollectors)
        } else if self.n_strategies == 0 {
            RunStep::Aborted(EngineError::NoStrategies)
        } else {
            RunStep::SyncStrategy(0)
        }
    }

    pub fn next_step(&self, step: RunStep, sync_ok: bool) -> (r: RunStep)
        requires
            self.step_in_range(step),
        ensures
            r == self.next_step_spec(step, sync_ok),
            self.step_in_range(r),
    {
        match step {
            RunStep::SyncStrategy(i) => if sync_ok {
                RunStep::SpawnStrategy(i)
            } else {
                RunStep::Aborted(EngineError::SyncStateFailed(i))
            },
            RunStep::SpawnStrategy(i) => if i + 1 < self.n_strategies {
                RunStep::SyncStrategy(i + 1)
            } else {
                RunStep::SpawnCollector(0)
            },
            RunStep::SpawnCollector(j) => if j + 1 < self.n_collectors {
                RunStep::SpawnCollector(j + 1)
            } else {
                RunStep::Finished
            },
            _ => step,
        }
    }

    /// The steps of a run from `step` on, taking at most `fuel` more steps,
    /// where `synced[i]` is whether strategy `i` syncs its state.
    pub open spec fn trace_from(self, step: RunStep, synced: Seq<bool>, fuel: nat) -> Seq<RunStep>
        decreases fuel,
    {
        if fuel == 0 || step.is_final() {
            seq![step]
        } else {
            let sync_ok = match step {
                RunStep::SyncStrategy(i) => synced[i as int],
                _ => true,
            };
            seq![step] + self.trace_from(self.next_step_spec(step, sync_ok), synced, (fuel - 1) as nat)
        }
    }

    /// The most steps a run of this plan takes after its first.
    pub open spec fn step_bound(self) -> nat {
        (2 * self.n_strategies + self.n_collectors + 1) as nat
    }

    /// The steps of a whole run, where `synced[i]` is whether strategy `i`
    /// syncs its state.
    pub open spec fn run_trace(self, synced: Seq<bool>) -> Seq<RunStep> {
        self.trace_from(self.first_step_spec(), synced, self.step_bound())
    }
}

/// Strategies `from` up to `to` (excluded) each synced and then started, in
/// index order.
pub open spec fn strategies_started(from: nat, to: nat) -> Seq<RunStep> {
    Seq::new(
        (2 * (to - from)) as nat,
        |t: int|
            if t % 2 == 0 {
                RunStep::SyncStrategy((from + t / 2) as usize)
            } else {
                RunStep::SpawnStrategy((from + t / 2) as usize)
            },
    )
}

/// Collectors `from` up to `to` (excluded) started in index order.
pub open spec fn collectors_started(from: nat, to: nat) -> Seq<RunStep> {
    Seq::new((to - from) as nat, |t: int| RunStep::SpawnCollector((from + t) as usize))
}

proof fn lemma_collectors_from(plan: RunPlan, j: nat, synced: Seq<bool>, fuel: nat)
    requires
        j < plan.n_collectors,
        fuel >= plan.n_collectors - j,
    ensures
        plan.trace_from(RunStep::SpawnCollector(j as usize), synced, fuel) == collectors_started(
            j,
            plan.n_collectors as nat,
        ) + seq![RunStep::Finished],
    decreases plan.n_collectors - j,
{
    let step = RunStep::SpawnCollector(j as usize);
    let next = plan.next_step_spec(step, true);
    if j + 1 < plan.n_collectors {
        lemma_collectors_from(plan, j + 1, synced, (fuel - 1) as nat);
        assert(plan.trace_from(step, synced, fuel) == seq![step] + plan.trace_from(
            next,
            synced,
            (fuel - 1) as nat,
        ));
        assert(seq![step] + collectors_started(j + 1, plan.n_collectors as nat) =~= collectors_started(
            j,
            plan.n_collectors as nat,
        ));
        assert(seq![step] + (collectors_started(j + 1, plan.n_collectors as nat) + seq![
            RunStep::Finished,
        ]) =~= collectors_started(j, plan.n_collectors as nat) + seq![RunStep::Finished]);
    } else {
        assert(plan.trace_from(next, synced, (fuel - 1) as nat) == seq![RunStep::Finished]);
        assert(seq![step] =~= collectors_started(j, plan.n_collectors as nat));
    }
}

proof fn lemma_strategies_from(plan: RunPlan, i: nat, synced: Seq<bool>, fuel: nat)
    requires
        plan.n_collectors > 0,
        i < plan.n_strategies,
        synced.len() == plan.n_strategies,
        forall|m: int| i <= m < plan.n_strategies ==> #[trigger] synced[m],
        fuel >= 2 * (plan.n_strategies - i) + plan.n_collectors,
    ensures
        plan.trace_from(RunStep::SyncStrategy(i as usize), synced, fuel) == strategies_started(
            i,
            plan.n_strategies as nat,
        ) + collectors_started(0, plan.n_collectors as nat) + seq![RunStep::Finished],
    decreases plan.n_strategies - i,
{
    let ns = plan.n_strategies as nat;
    let nc = plan.n_collectors as nat;
    let sync = RunStep::SyncStrategy(i as usize);
    let spawn = RunStep::SpawnStrategy(i as usize);
    assert(synced[i as int]);
    assert(plan.next_step_spec(sync, true) == spawn);
    let next = plan.next_step_spec(spawn, true);
    let rest = plan.trace_from(next, synced, (fuel - 2) as nat);
    assert(plan.trace_from(spawn, synced, (fuel - 1) as nat) == seq![spawn] + rest);
    assert(plan.trace_from(sync, synced, fuel) == seq![sync] + (seq![spawn] + rest));
    if i + 1 < ns {
        lemma_strategies_from(plan, i + 1, synced, (fuel - 2) as nat);
        assert(seq![sync] + (seq![spawn] + strategies_started(i + 1, ns)) =~= strategies_started(
            i,
            ns,
        ));
        assert(seq![sync] + (seq![spawn] + rest) =~= strategies_started(i, ns) + collectors_started(
            0,
            nc,
        ) + seq![RunStep::Finished]);
    } else {
        lemma_collectors_from(plan, 0, synced, (fuel - 2) as nat);
        assert(seq![sync] + seq![spawn] =~= strategies_started(i, ns));
        assert(seq![sync] + (seq![spawn] + rest) =~= strategies_started(i, ns) + collectors_started(
            0,
            nc,
        ) + seq![RunStep::Finished]);
    }
}

proof fn lemma_failure_from(plan: RunPlan, i: nat, k: nat, synced: Seq<bool>, fuel: nat)
    requires
        plan.n_collectors > 0,
        i <= k < plan.n_strategies,
        synced.len() == plan.n_strategies,
        forall|m: int| i <= m < k ==> #[trigger] synced[m],
        !synced[k as int],
        fuel >= 2 * (k - i) + 1,
    ensures
        plan.trace_from(RunStep::SyncStrategy(i as usize), synced, fuel) == strategies_started(i, k)
            + seq![
            RunStep::SyncStrategy(k as usize),
            RunStep::Aborted(EngineError::SyncStateFailed(k as usize)),
        ],
    decreases k - i,
{
    let sync = RunStep::SyncStrategy(i as usize);
    let tail = seq![
        RunStep::SyncStrategy(k as usize),
        RunStep::Aborted(EngineError::SyncStateFailed(k as usize)),
    ];
    if i == k {
        let abort = RunStep::Aborted(EngineError::SyncStateFailed(k as usize));
        assert(plan.trace_from(abort, synced, (fuel - 1) as nat) == seq![abort]);
        assert(seq![sync] + seq![abort] =~= strategies_started(i, k) + tail);
    } else {
        let spawn = RunStep::SpawnStrategy(i as usize);
        assert(synced[i as int]);
        let next = plan.next_step_spec(spawn, true);
        assert(next == RunStep::SyncStrategy((i + 1) as usize));
        lemma_failure_from(plan, i + 1, k, synced, (fuel - 2) as nat);
        let rest = plan.trace_from(next, synced, (fuel - 2) as nat);
        assert(plan.trace_from(spawn, synced, (fuel - 1) as nat) == seq![spawn] + rest);
        assert(seq![sync] + (seq![spawn] + strategies_started(i + 1, k)) =~= strategies_started(
            i,
            k,
        ));
        assert(seq![sync] + (seq![spawn] + rest) =~= strategies_started(i, k) + tail);
    }
}

/// A run of an engine without collectors stops with `NoCollectors` before it
/// starts anything; one with collectors and without strategies stops with
/// `NoStrategies`.
pub proof fn law_run_needs_collectors_and_strategies(plan: RunPlan, synced: Seq<bool>)
    ensures
        plan.n_collectors == 0 ==> plan.run_trace(synced) == seq![
            RunStep::Aborted(EngineError::NoCollectors),
        ],
        plan.n_collectors > 0 && plan.n_strategies == 0 ==> plan.run_trace(synced) == seq![
            RunStep::Aborted(EngineError::NoStrategies),
        ],
{
}

/// When every strategy syncs its state, a run syncs and then starts each
/// strategy in the order in which they were added, then starts every
/// collector in order, and is then up.
pub proof fn law_run_starts_every_task_in_order(plan: RunPlan, synced: Seq<bool>)
    requires
        plan.n_collectors > 0,
        plan.n_strategies > 0,
        synced.len() == plan.n_strategies,
        forall|i: int| 0 <= i < synced.len() ==> #[trigger] synced[i],
    ensures
        plan.run_trace(synced) == strategies_started(0, plan.n_strategies as nat)
            + collectors_started(0, plan.n_collectors as nat) + seq![RunStep::Finished],
{
    lemma_strategies_from(plan, 0, synced, plan.step_bound());
}

/// When strategy `k` is the first whose sync fails, a run stops with
/// `SyncStateFailed(k)` right after that sync: strategies before `k` have
/// been synced and started, no later strategy is synced and no collector is
/// started.
pub proof fn law_run_stops_at_first_failed_sync(plan: RunPlan, synced: Seq<bool>, k: nat)
    requires
        plan.n_collectors > 0,
        k < plan.n_strategies,
        synced.len() == plan.n_strategies,
        forall|i: int| 0 <= i < k ==> #[trigger] synced[i],
        !synced[k as int],
    ensures
        plan.run_trace(synced) == strategies_started(0, k) + seq![
            RunStep::SyncStrategy(k as usize),
            RunStep::Aborted(EngineError::SyncStateFailed(k as usize)),
        ],
{
    lemma_failure_from(plan, 0, k, synced, plan.step_bound());
}

} // verus!
