use std::sync::{Arc, Mutex};
use std::time::Duration;

use burberry::{
    ActionSubmitter, ActionSubmitterMap, CollectorFilterMap, CollectorMap, DispatchSubmitter,
    Extract, IntervalCollector, Route, Routes,
};

struct Recorder {
    seen: Arc<Mutex<Vec<u32>>>,
}

impl ActionSubmitter<u32> for Recorder {
    fn submit(&self, action: u32) {
        self.seen.lock().unwrap().push(action);
    }
}

#[test]
fn action_submitter_map_forwards_only_some() {
    let seen = Arc::new(Mutex::new(Vec::new()));
    let inner = Recorder { seen: Arc::clone(&seen) };
    let boxed: Box<dyn ActionSubmitter<u32>> = Box::new(inner);
    let map = ActionSubmitterMap::new(boxed, |a: i64| {
        if a >= 0 {
            Some(a as u32 * 2)
        } else {
            None
        }
    });
    assert_eq!(map.map_action(4), Some(8));
    assert_eq!(map.map_action(-1), None);
    map.submit(1);
    map.submit(-5);
    map.submit(10);
    assert_eq!(*seen.lock().unwrap(), vec![2, 20]);
}

#[test]
fn action_submitter_map_forwards_to_its_submitter() {
    let seen = Arc::new(Mutex::new(Vec::new()));
    let map = ActionSubmitterMap::new(Recorder { seen: Arc::clone(&seen) }, |a: u32| Some(a + 100));
    map.submit(1);
    map.submit(2);
    assert_eq!(*seen.lock().unwrap(), vec![101, 102]);
}

#[test]
fn dispatch_submitter_shares_its_dispatch() {
    let dispatch = Arc::new(String::from("pipeline"));
    let submitter = DispatchSubmitter::new(Arc::clone(&dispatch));
    let copy = submitter.clone();
    assert!(Arc::ptr_eq(&submitter.dispatcher(), &dispatch));
    assert!(Arc::ptr_eq(&copy.dispatcher(), &dispatch));
    assert_eq!(*copy.dispatcher(), "pipeline");
}

#[test]
fn interval_collector_keeps_interval_and_produces() {
    let collector = IntervalCollector::new(Duration::from_millis(250), || 42u64);
    assert_eq!(collector.interval(), Duration::from_millis(250));
    assert_eq!(collector.name(), "IntervalCollector");
    assert_eq!(collector.produce(), 42);
    assert_eq!(collector.produce(), 42);
}

#[test]
fn collector_map_applies_its_function() {
    let map = CollectorMap::new("inner", |e: u32| e + 1);
    assert_eq!(*map.inner(), "inner");
    assert_eq!(map.map_event(41u32), 42);
}

#[test]
fn collector_filter_map_drops_none() {
    let fm = CollectorFilterMap::new(3u8, |e: u32| if e % 2 == 0 { Some(e / 2) } else { None });
    assert_eq!(*fm.inner(), 3);
    assert_eq!(fm.filter_map_event(10u32), Some(5));
    assert_eq!(fm.filter_map_event(7u32), None);
}

#[derive(Debug)]
enum Action {
    Swap(u64),
    Notify(String),
}

impl Extract<u64> for Action {
    fn extract(&self) -> Option<&u64> {
        match self {
            Action::Swap(v) => Some(v),
            _ => None,
        }
    }
}

impl Extract<String> for Action {
    fn extract(&self) -> Option<&String> {
        match self {
            Action::Notify(v) => Some(v),
            _ => None,
        }
    }
}

#[test]
fn extract_picks_the_matching_variant() {
    let swap = Action::Swap(3);
    let note = Action::Notify("hi".to_string());
    assert_eq!(<Action as Extract<u64>>::extract(&swap), Some(&3));
    assert_eq!(<Action as Extract<String>>::extract(&swap), None);
    assert_eq!(<Action as Extract<String>>::extract(&note), Some(&"hi".to_string()));
}

#[test]
fn routes_hold_their_executor() {
    let route: Route<&str, u64> = Route::new("exec");
    assert_eq!(*route.executor(), "exec");
    let routes: Routes<u8, (u64, String)> = Routes::new(9);
    assert_eq!(*routes.executor(), 9);
}
