use burberry::{Engine, EngineError, RunPlan, RunStep, DEFAULT_EVENT_CHANNEL_CAPACITY};

fn drive(plan: &RunPlan, synced: &[bool]) -> Vec<RunStep> {
    let mut trace = Vec::new();
    let mut step = plan.first_step();
    loop {
        trace.push(step);
        match step {
            RunStep::Finished | RunStep::Aborted(_) => return trace,
            _ => {}
        }
        let ok = match step {
            RunStep::SyncStrategy(i) => synced[i],
            _ => true,
        };
        step = plan.next_step(step, ok);
    }
}

#[test]
fn new_engine_is_empty_with_default_capacity() {
    let engine: Engine<u8, u16, &str> = Engine::new("dispatch");
    assert_eq!(engine.strategy_count(), 0);
    let plan = engine.run_plan();
    assert_eq!(plan, RunPlan { n_collectors: 0, n_strategies: 0 });
    let parts = engine.into_parts();
    assert!(parts.collectors.is_empty());
    assert!(parts.strategies.is_empty());
    assert_eq!(parts.dispatch, "dispatch");
    assert_eq!(parts.event_channel_capacity, 512);
    assert_eq!(DEFAULT_EVENT_CHANNEL_CAPACITY, 512);
}

#[test]
fn capacity_can_be_configured() {
    let mut engine: Engine<u8, u16, ()> = Engine::new(()).with_event_channel_capacity(7);
    engine.add_collector(1);
    let engine = engine.with_event_channel_capacity(64);
    let parts = engine.into_parts();
    assert_eq!(parts.event_channel_capacity, 64);
    assert_eq!(parts.collectors, vec![1]);
}

#[test]
fn added_strategies_and_collectors_keep_their_order() {
    let mut engine: Engine<u8, u16, ()> = Engine::new(());
    engine.add_strategy(10);
    assert_eq!(engine.strategy_count(), 1);
    engine.add_collector(3);
    engine.add_strategy(20);
    engine.add_collector(4);
    engine.add_strategy(30);
    assert_eq!(engine.strategy_count(), 3);
    assert_eq!(engine.run_plan(), RunPlan { n_collectors: 2, n_strategies: 3 });
    let parts = engine.into_parts();
    assert_eq!(parts.strategies, vec![10, 20, 30]);
    assert_eq!(parts.collectors, vec![3, 4]);
}

#[test]
fn run_without_collectors_fails_first() {
    let plan = RunPlan { n_collectors: 0, n_strategies: 0 };
    assert_eq!(plan.first_step(), RunStep::Aborted(EngineError::NoCollectors));
    let plan = RunPlan { n_collectors: 0, n_strategies: 2 };
    assert_eq!(drive(&plan, &[true, true]), vec![RunStep::Aborted(EngineError::NoCollectors)]);
}

#[test]
fn run_without_strategies_fails() {
    let plan = RunPlan { n_collectors: 3, n_strategies: 0 };
    assert_eq!(drive(&plan, &[]), vec![RunStep::Aborted(EngineError::NoStrategies)]);
}

#[test]
fn run_starts_every_task_in_order() {
    let plan = RunPlan { n_collectors: 2, n_strategies: 2 };
    assert_eq!(
        drive(&plan, &[true, true]),
        vec![
            RunStep::SyncStrategy(0),
            RunStep::SpawnStrategy(0),
            RunStep::SyncStrategy(1),
            RunStep::SpawnStrategy(1),
            RunStep::SpawnCollector(0),
            RunStep::SpawnCollector(1),
            RunStep::Finished,
        ]
    );
}

#[test]
fn run_stops_at_first_failed_sync() {
    let plan = RunPlan { n_collectors: 1, n_strategies: 3 };
    assert_eq!(
        drive(&plan, &[true, false, false]),
        vec![
            RunStep::SyncStrategy(0),
            RunStep::SpawnStrategy(0),
            RunStep::SyncStrategy(1),
            RunStep::Aborted(EngineError::SyncStateFailed(1)),
        ]
    );
    assert_eq!(
        drive(&plan, &[false, true, true]),
        vec![RunStep::SyncStrategy(0), RunStep::Aborted(EngineError::SyncStateFailed(0))]
    );
}

#[test]
fn single_steps() {
    let plan = RunPlan { n_collectors: 2, n_strategies: 1 };
    assert_eq!(plan.next_step(RunStep::SyncStrategy(0), true), RunStep::SpawnStrategy(0));
    assert_eq!(
        plan.next_step(RunStep::SyncStrategy(0), false),
        RunStep::Aborted(EngineError::SyncStateFailed(0))
    );
    assert_eq!(plan.next_step(RunStep::SpawnStrategy(0), true), RunStep::SpawnCollector(0));
    assert_eq!(plan.next_step(RunStep::SpawnCollector(0), true), RunStep::SpawnCollector(1));
    assert_eq!(plan.next_step(RunStep::SpawnCollector(1), false), RunStep::Finished);
    assert_eq!(plan.next_step(RunStep::Finished, false), RunStep::Finished);
    assert_eq!(
        plan.next_step(RunStep::Aborted(EngineError::NoStrategies), true),
        RunStep::Aborted(EngineError::NoStrategies)
    );
}

#[test]
fn strategy_count_is_the_number_of_added_strategies() {
    let mut engine: Engine<u8, u16, ()> = Engine::new(());
    for k in 0..5u16 {
        assert_eq!(engine.strategy_count(), k as usize);
        engine.add_collector(k as u8);
        engine = engine.with_event_channel_capacity(k as usize + 1);
        engine.add_strategy(k);
        assert_eq!(engine.strategy_count(), k as usize + 1);
    }
}
