use local_athena::lifecycle::enqueue;
use local_athena::lifecycle::next_transition;
use local_athena::lifecycle::observe;
use local_athena::lifecycle::tick;
use local_athena::lifecycle::TickOutcome;
use local_athena::lifecycle::DEFAULT_TICK_SECS;
use local_athena::lifecycle::Transition;
use local_athena::model::QueryProcess;
use local_athena::state::QueryState;
use local_athena::store::ExecutionStore;

fn record(table: &str, state: &str) -> QueryProcess {
    QueryProcess { table_name: table.to_string(), state: state.to_string() }
}

#[test]
fn drivers_tick_every_five_seconds_by_default() {
    assert_eq!(DEFAULT_TICK_SECS, 5);
}

#[test]
fn transitions_follow_the_lifecycle() {
    assert_eq!(next_transition(None), Transition::Create);
    assert_eq!(
        next_transition(Some(QueryState::Queued)),
        Transition::Advance(QueryState::Running)
    );
    assert_eq!(
        next_transition(Some(QueryState::Running)),
        Transition::Advance(QueryState::Succeeded)
    );
    assert_eq!(next_transition(Some(QueryState::Succeeded)), Transition::Finish);
}

#[test]
fn an_enqueued_execution_is_queued_at_once() {
    let mut store = ExecutionStore::new();
    assert!(enqueue(&mut store, "a", "events"));
    assert_eq!(store.read("a"), Some(record("events", "QUEUED")));
    assert_eq!(observe(&store, "a"), Some(QueryState::Queued));
}

#[test]
fn an_identifier_is_enqueued_once() {
    let mut store = ExecutionStore::new();
    assert!(enqueue(&mut store, "a", "events"));
    assert!(!enqueue(&mut store, "a", "users"));
    assert_eq!(store.read("a"), Some(record("events", "QUEUED")));
}

#[test]
fn two_ticks_lead_from_queued_to_succeeded() {
    let mut store = ExecutionStore::new();
    enqueue(&mut store, "a", "events");
    assert_eq!(tick(&mut store, "a", "events"), TickOutcome::Advanced(QueryState::Running));
    assert_eq!(observe(&store, "a"), Some(QueryState::Running));
    assert_eq!(tick(&mut store, "a", "events"), TickOutcome::Advanced(QueryState::Succeeded));
    assert_eq!(observe(&store, "a"), Some(QueryState::Succeeded));
    assert_eq!(store.read("a"), Some(record("events", "SUCCEEDED")));
}

#[test]
fn a_tick_after_the_end_changes_nothing() {
    let mut store = ExecutionStore::new();
    enqueue(&mut store, "a", "events");
    tick(&mut store, "a", "events");
    tick(&mut store, "a", "events");
    assert_eq!(tick(&mut store, "a", "events"), TickOutcome::Finished);
    assert_eq!(tick(&mut store, "a", "events"), TickOutcome::Finished);
    assert_eq!(store.read("a"), Some(record("events", "SUCCEEDED")));
}

#[test]
fn a_tick_without_a_record_creates_it() {
    let mut store = ExecutionStore::new();
    assert_eq!(tick(&mut store, "a", "events"), TickOutcome::Created);
    assert_eq!(store.read("a"), Some(record("events", "QUEUED")));
    assert_eq!(tick(&mut store, "a", "events"), TickOutcome::Advanced(QueryState::Running));
}

#[test]
fn a_tick_keeps_the_table_of_the_record() {
    let mut store = ExecutionStore::new();
    enqueue(&mut store, "a", "events");
    tick(&mut store, "a", "something else");
    assert_eq!(store.read("a"), Some(record("events", "RUNNING")));
}

#[test]
fn drivers_do_not_touch_each_other() {
    let mut store = ExecutionStore::new();
    enqueue(&mut store, "a", "events");
    enqueue(&mut store, "b", "users");
    tick(&mut store, "a", "events");
    tick(&mut store, "a", "events");
    assert_eq!(observe(&store, "a"), Some(QueryState::Succeeded));
    assert_eq!(observe(&store, "b"), Some(QueryState::Queued));
    tick(&mut store, "b", "users");
    assert_eq!(observe(&store, "a"), Some(QueryState::Succeeded));
    assert_eq!(observe(&store, "b"), Some(QueryState::Running));
}

#[test]
fn a_failed_record_stops_its_driver_and_stays() {
    let mut store = ExecutionStore::new();
    enqueue(&mut store, "a", "events");
    enqueue(&mut store, "b", "users");
    store.write("a", QueryState::Failed);
    store.publish();
    assert_eq!(tick(&mut store, "a", "events"), TickOutcome::Violation);
    assert_eq!(store.read("a"), Some(record("events", "FAILED")));
    assert_eq!(tick(&mut store, "b", "users"), TickOutcome::Advanced(QueryState::Running));
}

#[test]
fn observing_an_unknown_identifier_finds_nothing() {
    let store = ExecutionStore::new();
    assert_eq!(observe(&store, "nobody"), None);
}

#[test]
fn states_seen_while_ticking_are_those_of_the_lifecycle() {
    let mut store = ExecutionStore::new();
    let reader = store.reader();
    enqueue(&mut store, "a", "events");
    let mut seen = Vec::new();
    for _ in 0..4 {
        seen.push(reader.read("a").and_then(|r| r.query_state()));
        tick(&mut store, "a", "events");
    }
    assert_eq!(
        seen,
        vec![
            Some(QueryState::Queued),
            Some(QueryState::Running),
            Some(QueryState::Succeeded),
            Some(QueryState::Succeeded),
        ]
    );
}
