use prayerflow::store::TaskStore;
use rusqlite::Connection;

fn fresh_store() -> TaskStore {
    let conn = Connection::open_in_memory().expect("open in-memory database");
    TaskStore::new(conn).expect("initialize store")
}

fn shared_conn(name: &str) -> Connection {
    let uri = format!("file:{}?mode=memory&cache=shared", name);
    Connection::open(uri).expect("open shared in-memory database")
}

#[test]
fn round_trip() {
    let mut store = fresh_store();
    let created = store
        .create_task("Write report".to_string(), 3, "high".to_string())
        .expect("create");
    assert!(created.id >= 1);
    let tasks = store.list_tasks().expect("list");
    assert_eq!(tasks.len(), 1);
    let t = &tasks[0];
    assert_eq!(t.id, created.id);
    assert_eq!(t.name, "Write report");
    assert_eq!(t.estimated_pomodoros, 3);
    assert_eq!(t.completed_pomodoros, 0);
    assert!(!t.is_complete);
    assert_eq!(t.priority, "high");
    assert_eq!(t.notes, None);
}

#[test]
fn ordering_most_recent_first() {
    let mut store = fresh_store();
    store.create_task("A".to_string(), 1, "low".to_string()).expect("create A");
    store.create_task("B".to_string(), 1, "medium".to_string()).expect("create B");
    store.create_task("C".to_string(), 1, "high".to_string()).expect("create C");
    let tasks = store.list_tasks().expect("list");
    let names: Vec<&str> = tasks.iter().map(|t| t.name.as_str()).collect();
    assert_eq!(names, vec!["C", "B", "A"]);
}

#[test]
fn update_overwrites_all_mutable_fields() {
    let mut store = fresh_store();
    let created = store
        .create_task("draft".to_string(), 1, "low".to_string())
        .expect("create");
    store
        .update_task(created.id, "final".to_string(), 5, 2, true, "high".to_string())
        .expect("update");
    let tasks = store.list_tasks().expect("list");
    assert_eq!(tasks.len(), 1);
    let t = &tasks[0];
    assert_eq!(t.id, created.id);
    assert_eq!(t.name, "final");
    assert_eq!(t.estimated_pomodoros, 5);
    assert_eq!(t.completed_pomodoros, 2);
    assert!(t.is_complete);
    assert_eq!(t.priority, "high");
    assert_eq!(t.notes, None);
}

#[test]
fn update_refreshes_updated_at() {
    // A second connection to the same shared in-memory database lets the
    // test plant a row whose timestamps lie in the past and read the
    // timestamps back after the store has updated it.
    let probe = shared_conn("update_refreshes_updated_at");
    let conn = shared_conn("update_refreshes_updated_at");
    let mut store = TaskStore::new(conn).expect("initialize store");
    probe
        .execute(
            "INSERT INTO tasks (name, estimated_pomodoros, priority, created_at, updated_at)
             VALUES ('old', 1, 'low', '2000-01-01 00:00:00', '2000-01-01 00:00:00')",
            [],
        )
        .expect("plant row");
    let id = probe.last_insert_rowid();
    store
        .update_task(id, "new".to_string(), 2, 1, false, "medium".to_string())
        .expect("update");
    let (created_at, updated_at): (String, String) = probe
        .query_row(
            "SELECT created_at, updated_at FROM tasks WHERE id = ?1",
            [id],
            |row| Ok((row.get(0)?, row.get(1)?)),
        )
        .expect("read timestamps");
    assert_eq!(created_at, "2000-01-01 00:00:00");
    assert!(updated_at > created_at);
}

#[test]
fn update_missing_id_is_silent_no_op() {
    let mut store = fresh_store();
    let created = store
        .create_task("keep".to_string(), 2, "medium".to_string())
        .expect("create");
    store
        .update_task(created.id + 100, "ghostly".to_string(), 9, 9, true, "high".to_string())
        .expect("update of a missing id still succeeds");
    let tasks = store.list_tasks().expect("list");
    assert_eq!(tasks.len(), 1);
    assert_eq!(tasks[0].name, "keep");
    assert_eq!(tasks[0].estimated_pomodoros, 2);
}

#[test]
fn delete_removes_and_is_idempotent() {
    let mut store = fresh_store();
    let created = store
        .create_task("doomed".to_string(), 1, "low".to_string())
        .expect("create");
    store.delete_task(created.id).expect("delete");
    let tasks = store.list_tasks().expect("list");
    assert!(tasks.is_empty());
    store.delete_task(created.id).expect("second delete still succeeds");
    let tasks = store.list_tasks().expect("list again");
    assert!(tasks.is_empty());
}

#[test]
fn serialized_creates_get_distinct_ids() {
    let mut store = fresh_store();
    let n = 10;
    let mut ids = Vec::new();
    for k in 0..n {
        let t = store
            .create_task(format!("task {}", k), 1, "medium".to_string())
            .expect("create");
        ids.push(t.id);
    }
    for i in 0..ids.len() {
        for j in 0..i {
            assert_ne!(ids[i], ids[j]);
        }
    }
    let tasks = store.list_tasks().expect("list");
    assert_eq!(tasks.len(), n);
}

#[test]
fn deleted_ids_are_never_reassigned() {
    let mut store = fresh_store();
    let a = store.create_task("a".to_string(), 1, "low".to_string()).expect("create a");
    let b = store.create_task("b".to_string(), 1, "low".to_string()).expect("create b");
    store.delete_task(b.id).expect("delete the row with the largest id");
    let c = store.create_task("c".to_string(), 1, "low".to_string()).expect("create c");
    assert!(b.id > a.id);
    assert!(c.id > b.id);
}

#[test]
fn foreign_tasks_table_is_refused() {
    let probe = shared_conn("foreign_tasks_table_refused");
    probe
        .execute("CREATE TABLE tasks (id TEXT, name TEXT)", [])
        .expect("plant a foreign table");
    let conn = shared_conn("foreign_tasks_table_refused");
    assert!(TaskStore::new(conn).is_err());
}

#[test]
fn reopening_preserves_rows_and_schema() {
    let first = shared_conn("reopening_preserves_rows");
    let mut store = TaskStore::new(first).expect("initialize store");
    store.create_task("one".to_string(), 1, "low".to_string()).expect("create one");
    store.create_task("two".to_string(), 2, "high".to_string()).expect("create two");

    let second = shared_conn("reopening_preserves_rows");
    let reopened = TaskStore::new(second).expect("reopen over existing data");
    let tasks = reopened.list_tasks().expect("list");
    assert_eq!(tasks.len(), 2);
    assert_eq!(tasks[0].name, "two");
    assert_eq!(tasks[1].name, "one");
}

#[test]
fn statement_failure_is_reported_and_nonfatal() {
    let saboteur = shared_conn("statement_failure_reported");
    let conn = shared_conn("statement_failure_reported");
    let mut store = TaskStore::new(conn).expect("initialize store");
    store.create_task("victim".to_string(), 1, "low".to_string()).expect("create");
    saboteur.execute("ALTER TABLE tasks RENAME TO gone", []).expect("hide table");
    assert!(store.list_tasks().is_err());
    assert!(store.create_task("x".to_string(), 1, "low".to_string()).is_err());
    assert!(store.update_task(1, "x".to_string(), 1, 1, false, "low".to_string()).is_err());
    assert!(store.delete_task(1).is_err());
    saboteur.execute("ALTER TABLE gone RENAME TO tasks", []).expect("restore table");
    let tasks = store.list_tasks().expect("list after recovery");
    assert_eq!(tasks.len(), 1);
    assert_eq!(tasks[0].name, "victim");
}
