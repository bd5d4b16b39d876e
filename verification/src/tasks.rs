use vstd::prelude::*;

verus! {

/// What a strategy's receiver of the event channel hands it.
#[derive(Debug, PartialEq, Eq)]
pub enum Received<E> {
    /// The next event.
    Event(E),
    /// The receiver fell behind and this many events were lost to it.
    Lagged(u64),
    /// The channel is closed: no event will come any more.
    Closed,
}

/// What a strategy's event loop does with what it received.
#[derive(Debug, PartialEq, Eq)]
pub enum StrategyStep<E> {
    /// Hand the event to the strategy, then receive again.
    Process(E),
    /// Report that this many events were lost, then receive again.
    ReportLag(u64),
    /// Report that the channel closed, and end the loop.
    Stop,
}

pub open spec fn strategy_step_spec<E>(received: Received<E>) -> StrategyStep<E> {
    match received {
        Received::Event(e) => StrategyStep::Process(e),
        Received::Lagged(n) => StrategyStep::ReportLag(n),
        Received::Closed => StrategyStep::Stop,
    }
}

/// The decision of a strategy's event loop on what its receiver gave.
pub fn strategy_step<E>(received: Received<E>) -> (r: StrategyStep<E>)
    ensures
        r == strategy_step_spec(received),
{
    match received {
        Received::Event(e) => StrategyStep::Process(e),
        Received::Lagged(n) => StrategyStep::ReportLag(n),
        Received::Closed => StrategyStep::Stop,
    }
}

/// The events that a strategy processes, in order, when its receiver hands
/// it `received` in turn.
pub open spec fn processed_events<E>(received: Seq<Received<E>>) -> Seq<E>
    decreases received.len(),
{
    if received.len() == 0 {
        Seq::empty()
    } else {
        match strategy_step_spec(received[0]) {
            StrategyStep::Process(e) => seq![e] + processed_events(received.drop_first()),
            StrategyStep::ReportLag(_) => processed_events(received.drop_first()),
            StrategyStep::Stop => Seq::empty(),
        }
    }
}

/// A strategy processes nothing that its receiver would give after the
/// channel closed: it has stopped.
pub proof fn law_strategy_stops_when_channel_closes<E>(received: Seq<Received<E>>, c: int)
    requires
        0 <= c < received.len(),
        received[c] == Received::<E>::Closed,
    ensures
        processed_events(received) == processed_events(received.take(c)),
    decreases c,
{
    if c == 0 {
        assert(received.take(0).len() == 0);
    } else {
        let taken = received.take(c);
        assert(taken[0] == received[0]);
        assert(taken.drop_first() =~= received.drop_first().take(c - 1));
        law_strategy_stops_when_channel_closes(received.drop_first(), c - 1);
    }
}

/// A lag report neither stops a strategy nor changes which events it
/// processes.
pub proof fn law_strategy_continues_after_lag<E>(received: Seq<Received<E>>, i: int, n: u64)
    requires
        0 <= i <= received.len(),
    ensures
        processed_events(received.insert(i, Received::Lagged(n))) == processed_events(received),
    decreases i,
{
    let inserted = received.insert(i, Received::Lagged(n));
    if i == 0 {
        assert(inserted.drop_first() =~= received);
    } else {
        assert(inserted[0] == received[0]);
        assert(inserted.drop_first() =~= received.drop_first().insert(i - 1, Received::Lagged(n)));
        law_strategy_continues_after_lag(received.drop_first(), i - 1, n);
    }
}

/// While the channel is open, each event that the receiver gives is
/// processed, after those given before it.
pub proof fn law_strategy_processes_each_event_in_order<E>(received: Seq<Received<E>>, e: E)
    requires
        forall|i: int| 0 <= i < received.len() ==> #[trigger] received[i] != Received::<E>::Closed,
    ensures
        processed_events(received.push(Received::Event(e))) == processed_events(received).push(e),
    decreases received.len(),
{
    let pushed = received.push(Received::Event(e));
    if received.len() == 0 {
        assert(pushed.drop_first() =~= Seq::<Received<E>>::empty());
        assert(pushed[0] == Received::Event(e));
        assert(processed_events(pushed.drop_first()) == Seq::<E>::empty());
        assert(processed_events(received) == Seq::<E>::empty());
        assert(seq![e] + Seq::<E>::empty() =~= Seq::<E>::empty().push(e));
    } else {
        assert(pushed[0] == received[0]);
        assert(pushed.drop_first() =~= received.drop_first().push(Received::Event(e)));
        assert(received[0] != Received::<E>::Closed);
        law_strategy_processes_each_event_in_order(received.drop_first(), e);
        match received[0] {
            Received::Event(x) => {
                assert(seq![x] + processed_events(received.drop_first()).push(e) =~= (seq![x]
                    + processed_events(received.drop_first())).push(e));
            },
            _ => {},
        }
    }
}

/// What a collector's event loop does with the next item of its stream.
#[derive(Debug, PartialEq, Eq)]
pub enum CollectorStep<E> {
    /// Send the event to the strategies, then take the next item; a failed
    /// send is reported and does not end the loop.
    Forward(E),
    /// The stream has ended: report it and end the loop.
    Stop,
}

pub open spec fn collector_step_spec<E>(item: Option<E>) -> CollectorStep<E> {
    match item {
        Some(e) => CollectorStep::Forward(e),
        None => CollectorStep::Stop,
    }
}

/// The decision of a collector's event loop on the next item of its stream.
pub fn collector_step<E>(item: Option<E>) -> (r: CollectorStep<E>)
    ensures
        r == collector_step_spec(item),
{
    match item {
        Some(e) => CollectorStep::Forward(e),
        None => CollectorStep::Stop,
    }
}

/// The events that a collector sends, in order, when its stream yields
/// `items` in turn (`None` for the end of the stream).
pub open spec fn forwarded_events<E>(items: Seq<Option<E>>) -> Seq<E>
    decreases items.len(),
{
    if items.len() == 0 {
        Seq::empty()
    } else {
        match collector_step_spec(items[0]) {
            CollectorStep::Forward(e) => seq![e] + forwarded_events(items.drop_first()),
            CollectorStep::Stop => Seq::empty(),
        }
    }
}

/// A collector sends nothing after its stream has ended.
pub proof fn law_collector_stops_at_stream_end<E>(items: Seq<Option<E>>, c: int)
    requires
        0 <= c < items.len(),
        items[c] == Option::<E>::None,
    ensures
        forwarded_events(items) == forwarded_events(items.take(c)),
    decreases c,
{
    if c == 0 {
        assert(items.take(0).len() == 0);
    } else {
        let taken = items.take(c);
        assert(taken[0] == items[0]);
        assert(taken.drop_first() =~= items.drop_first().take(c - 1));
        law_collector_stops_at_stream_end(items.drop_first(), c - 1);
    }
}

/// Until its stream ends, a collector sends each event of the stream, after
/// those that came before it.
pub proof fn law_collector_forwards_each_event_in_order<E>(items: Seq<Option<E>>, e: E)
    requires
        forall|i: int| 0 <= i < items.len() ==> #[trigger] items[i] != Option::<E>::None,
    ensures
        forwarded_events(items.push(Some(e))) == forwarded_events(items).push(e),
    decreases items.len(),
{
    let pushed = items.push(Some(e));
    if items.len() == 0 {
        assert(pushed.drop_first() =~= Seq::<Option<E>>::empty());
        assert(pushed[0] == Some(e));
        assert(forwarded_events(pushed.drop_first()) == Seq::<E>::empty());
        assert(forwarded_events(items) == Seq::<E>::empty());
        assert(seq![e] + Seq::<E>::empty() =~= Seq::<E>::empty().push(e));
    } else {
        assert(pushed[0] == items[0]);
        assert(pushed.drop_first() =~= items.drop_first().push(Some(e)));
        assert(items[0] != Option::<E>::None);
        law_collector_forwards_each_event_in_order(items.drop_first(), e);
        let x = items[0].unwrap();
        assert(seq![x] + forwarded_events(items.drop_first()).push(e) =~= (seq![x]
            + forwarded_events(items.drop_first())).push(e));
    }
}

} // verus!
