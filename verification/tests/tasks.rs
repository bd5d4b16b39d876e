use burberry::{collector_step, strategy_step, CollectorStep, Received, StrategyStep};

fn run_strategy(received: Vec<Received<u32>>) -> (Vec<u32>, Vec<u64>) {
    let mut processed = Vec::new();
    let mut lags = Vec::new();
    for r in received {
        match strategy_step(r) {
            StrategyStep::Process(e) => processed.push(e),
            StrategyStep::ReportLag(n) => lags.push(n),
            StrategyStep::Stop => break,
        }
    }
    (processed, lags)
}

fn run_collector(items: Vec<Option<u32>>) -> Vec<u32> {
    let mut sent = Vec::new();
    for item in items {
        match collector_step(item) {
            CollectorStep::Forward(e) => sent.push(e),
            CollectorStep::Stop => break,
        }
    }
    sent
}

#[test]
fn strategy_step_decisions() {
    assert_eq!(strategy_step(Received::Event(5u8)), StrategyStep::Process(5));
    assert_eq!(strategy_step(Received::<u8>::Lagged(3)), StrategyStep::ReportLag(3));
    assert_eq!(strategy_step(Received::<u8>::Closed), StrategyStep::Stop);
}

#[test]
fn strategy_processes_events_in_order_through_lags_until_close() {
    let (processed, lags) = run_strategy(vec![
        Received::Event(1),
        Received::Lagged(4),
        Received::Event(2),
        Received::Event(3),
        Received::Closed,
        Received::Event(9),
    ]);
    assert_eq!(processed, vec![1, 2, 3]);
    assert_eq!(lags, vec![4]);
}

#[test]
fn collector_step_decisions() {
    assert_eq!(collector_step(Some('a')), CollectorStep::Forward('a'));
    assert_eq!(collector_step(None::<char>), CollectorStep::Stop);
}

#[test]
fn collector_forwards_until_stream_end() {
    assert_eq!(run_collector(vec![Some(7), Some(8), None, Some(9)]), vec![7, 8]);
    assert_eq!(run_collector(vec![None, Some(1)]), Vec::<u32>::new());
}
