use local_athena::model::QueryProcess;
use local_athena::state::QueryState;
use local_athena::store::ExecutionStore;

fn record(table: &str, state: &str) -> QueryProcess {
    QueryProcess { table_name: table.to_string(), state: state.to_string() }
}

#[test]
fn a_new_store_holds_nothing() {
    let store = ExecutionStore::new();
    assert_eq!(store.read("a"), None);
    assert!(!store.is_staged("a"));
}

#[test]
fn a_created_record_is_hidden_until_published() {
    let mut store = ExecutionStore::new();
    assert!(store.create("a", "events"));
    assert!(store.is_staged("a"));
    assert_eq!(store.read("a"), None);
    store.publish();
    assert_eq!(store.read("a"), Some(record("events", "QUEUED")));
    assert!(store.is_staged("a"));
}

#[test]
fn create_leaves_an_existing_record_alone() {
    let mut store = ExecutionStore::new();
    assert!(store.create("a", "events"));
    assert!(!store.create("a", "other"));
    store.publish();
    assert!(!store.create("a", "third"));
    store.publish();
    assert_eq!(store.read("a"), Some(record("events", "QUEUED")));
}

#[test]
fn records_are_kept_apart_by_identifier() {
    let mut store = ExecutionStore::new();
    assert!(store.create("a", "events"));
    assert!(store.create("b", "users"));
    store.publish();
    assert_eq!(store.read("a"), Some(record("events", "QUEUED")));
    assert_eq!(store.read("b"), Some(record("users", "QUEUED")));
    assert_eq!(store.read("c"), None);
    assert_eq!(store.read(""), None);
}

#[test]
fn a_written_state_is_hidden_until_published() {
    let mut store = ExecutionStore::new();
    store.create("a", "events");
    store.publish();
    assert!(store.write("a", QueryState::Running));
    assert_eq!(store.read("a"), Some(record("events", "QUEUED")));
    store.publish();
    assert_eq!(store.read("a"), Some(record("events", "RUNNING")));
}

#[test]
fn the_last_write_before_a_publish_stands() {
    let mut store = ExecutionStore::new();
    store.create("a", "events");
    store.publish();
    assert!(store.write("a", QueryState::Running));
    assert!(store.write("a", QueryState::Succeeded));
    store.publish();
    assert_eq!(store.read("a"), Some(record("events", "SUCCEEDED")));
}

#[test]
fn write_needs_a_visible_record() {
    let mut store = ExecutionStore::new();
    assert!(!store.write("a", QueryState::Running));
    store.create("a", "events");
    assert!(!store.write("a", QueryState::Running));
    store.publish();
    assert_eq!(store.read("a"), Some(record("events", "QUEUED")));
    assert!(store.write("a", QueryState::Running));
}

#[test]
fn a_write_touches_one_record_only() {
    let mut store = ExecutionStore::new();
    store.create("a", "events");
    store.create("b", "users");
    store.publish();
    store.write("a", QueryState::Succeeded);
    store.publish();
    assert_eq!(store.read("a"), Some(record("events", "SUCCEEDED")));
    assert_eq!(store.read("b"), Some(record("users", "QUEUED")));
}

#[test]
fn publishing_twice_changes_nothing() {
    let mut store = ExecutionStore::new();
    store.create("a", "events");
    store.publish();
    store.publish();
    assert_eq!(store.read("a"), Some(record("events", "QUEUED")));
    store.publish();
    assert_eq!(store.read("a"), Some(record("events", "QUEUED")));
}

#[test]
fn a_reader_sees_what_is_published() {
    let mut store = ExecutionStore::new();
    let reader = store.reader();
    assert_eq!(reader.read("a"), None);
    store.create("a", "events");
    assert_eq!(reader.read("a"), None);
    store.publish();
    assert_eq!(reader.read("a"), Some(record("events", "QUEUED")));
    store.write("a", QueryState::Running);
    assert_eq!(reader.read("a"), Some(record("events", "QUEUED")));
    store.publish();
    assert_eq!(reader.read("a"), Some(record("events", "RUNNING")));
    assert_eq!(reader.read("b"), None);
}

#[test]
fn readers_taken_at_any_time_see_the_same_store() {
    let mut store = ExecutionStore::new();
    let early = store.reader();
    store.create("a", "events");
    store.publish();
    let late = store.reader();
    assert_eq!(early.read("a"), late.read("a"));
    assert_eq!(late.read("a"), Some(record("events", "QUEUED")));
}

#[test]
fn many_records_survive_many_publishes() {
    let mut store = ExecutionStore::new();
    for i in 0..50 {
        let id = format!("id-{}", i);
        assert!(store.create(&id, "events"));
        store.publish();
    }
    for i in 0..50 {
        let id = format!("id-{}", i);
        assert_eq!(store.read(&id), Some(record("events", "QUEUED")));
        assert!(!store.create(&id, "events"));
    }
}

#[test]
fn a_record_read_by_a_reader_names_a_state() {
    let mut store = ExecutionStore::new();
    let reader = store.reader();
    store.create("a", "events");
    store.publish();
    for state in [QueryState::Running, QueryState::Succeeded, QueryState::Failed] {
        let seen = reader.read("a").unwrap();
        assert!(seen.query_state().is_some());
        store.write("a", state);
        store.publish();
        assert_eq!(reader.read("a").unwrap().query_state(), Some(state));
        assert_eq!(reader.read("a").unwrap().state, state.as_str());
    }
}
