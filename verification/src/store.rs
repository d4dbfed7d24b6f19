//! The task store: one SQLite connection owning one `tasks` table, with the
//! four operations (list, create, update, delete) verified against the model
//! of `crate::model`.
//!
//! The table itself lives in the database, so the calls into `rusqlite` stand
//! behind trusted wrappers. `db_tasks` names what the `tasks` table of a
//! connection holds, as a sequence in creation order; every wrapper states
//! its effect over that name, and everything else is proved.

use vstd::prelude::*;
use crate::task::{Task, TaskView};
use crate::model::{ids_unique, created_task, update_model, delete_model, fresh_id};

verus! {

#[verifier::external_type_specification]
#[verifier::external_body]
pub struct ExConnection(rusqlite::Connection);

/// The rows of the `tasks` table reachable through a connection, in
/// ascending id order, as task views. For a table with this store's schema
/// that is also creation order, since each insert is assigned an id above
/// every earlier one.
pub uninterp spec fn db_tasks(c: rusqlite::Connection) -> Seq<TaskView>;

/// The largest id the `tasks` table has ever assigned, or zero when it has
/// never assigned one. With this store's `AUTOINCREMENT` key it never
/// shrinks, not even when the row that carried it is deleted, so an id is
/// never handed out twice.
pub uninterp spec fn db_high_id(c: rusqlite::Connection) -> int;

/// Relies on rusqlite's `Connection::execute` running
/// `CREATE TABLE IF NOT EXISTS tasks (...)`, and on `Connection::query_row`
/// reading the table's declared SQL back from `sqlite_master`, where SQLite
/// keeps each `CREATE TABLE` text with only the `IF NOT EXISTS` words
/// dropped. An existing table and its rows are left untouched, whatever its
/// shape; the call succeeds only when the table's declaration is exactly
/// this store's, so on success `id` is the table's `INTEGER PRIMARY KEY
/// AUTOINCREMENT`: no two rows share an id, no stored id exceeds the largest
/// ever assigned, and neither statement assigns one.
#[verifier::external_body]
fn exec_create_schema(conn: &mut rusqlite::Connection) -> (r: Result<(), String>)
    ensures
        db_tasks(*final(conn)) == db_tasks(*old(conn)),
        db_high_id(*final(conn)) == db_high_id(*old(conn)),
        r is Ok ==> ids_unique(db_tasks(*final(conn))),
        r is Ok ==> db_high_id(*final(conn)) >= 0,
        r is Ok ==> forall|i: int| 0 <= i < db_tasks(*final(conn)).len()
            ==> db_tasks(*final(conn))[i].id <= db_high_id(*final(conn)),
{
    let create = "CREATE TABLE IF NOT EXISTS tasks (
            id INTEGER PRIMARY KEY AUTOINCREMENT, name TEXT NOT NULL,
            estimated_pomodoros INTEGER DEFAULT 1, completed_pomodoros INTEGER DEFAULT 0,
            is_complete BOOLEAN DEFAULT FALSE, priority TEXT DEFAULT 'medium', notes TEXT,
            created_at DATETIME DEFAULT CURRENT_TIMESTAMP,
            updated_at DATETIME DEFAULT CURRENT_TIMESTAMP)";
    conn.execute(create, []).map_err(|e| e.to_string())?;
    let sql: String = conn
        .query_row("SELECT sql FROM sqlite_master WHERE type = 'table' AND name = 'tasks'",
            [], |row| row.get(0))
        .map_err(|e| e.to_string())?;
    if sql != create.replacen("IF NOT EXISTS ", "", 1) {
        return Err(format!("the tasks table does not carry this store's schema: {sql}"));
    }
    Ok(())
}

/// Relies on rusqlite's `Connection::execute` running the three-column
/// `INSERT INTO tasks`, and on `Connection::last_insert_rowid` returning the
/// rowid of that insert: the new row holds the given name, estimate and
/// priority with zero completed work, an unset completion flag and no notes;
/// `id`, the `AUTOINCREMENT` key of the schema `TaskStore::new` has checked,
/// comes out positive and strictly above every id the table ever assigned,
/// and becomes the largest assigned; timestamps default to the current time.
/// A failed insert is rolled back and changes nothing.
#[verifier::external_body]
fn exec_insert_task(
    conn: &mut rusqlite::Connection,
    name: &str,
    estimated_pomodoros: i32,
    priority: &str,
) -> (r: Result<i64, String>)
    ensures
        match r {
            Ok(id) => {
                &&& fresh_id(db_tasks(*old(conn)), id as int)
                &&& id as int > db_high_id(*old(conn))
                &&& db_high_id(*final(conn)) == id as int
                &&& db_tasks(*final(conn)) == db_tasks(*old(conn)).push(
                    created_task(id as int, name@, estimated_pomodoros as int, priority@))
            },
            Err(_) => db_tasks(*final(conn)) == db_tasks(*old(conn))
                && db_high_id(*final(conn)) == db_high_id(*old(conn)),
        },
{
    conn.execute(
        "INSERT INTO tasks (name, estimated_pomodoros, priority) VALUES (?1, ?2, ?3)",
        (&name, &estimated_pomodoros, &priority),
    ).map_err(|e| e.to_string())?;
    Ok(conn.last_insert_rowid())
}

/// Relies on rusqlite's `Connection::execute` running the
/// `UPDATE tasks ... WHERE id = ?` statement: every row whose id matches has
/// its name, estimate, completed count, completion flag and priority
/// replaced and its `updated_at` refreshed to the current time, while its
/// id, notes and `created_at` are kept; no row is added, removed or moved,
/// no id is assigned, and a row with no match means no change. The returned
/// count is the number of matching rows. A failed statement changes
/// nothing.
#[verifier::external_body]
fn exec_update_task(
    conn: &mut rusqlite::Connection,
    id: i64,
    name: &str,
    estimated_pomodoros: i32,
    completed_pomodoros: i32,
    is_complete: bool,
    priority: &str,
) -> (r: Result<usize, String>)
    ensures
        match r {
            Ok(n) => {
                &&& db_tasks(*final(conn)) == update_model(db_tasks(*old(conn)), id as int,
                    name@, estimated_pomodoros as int, completed_pomodoros as int,
                    is_complete, priority@)
                &&& n == db_tasks(*old(conn)).filter(|t: TaskView| t.id == id as int).len()
            },
            Err(_) => db_tasks(*final(conn)) == db_tasks(*old(conn)),
        },
        db_high_id(*final(conn)) == db_high_id(*old(conn)),
{
    conn.execute(
        "UPDATE tasks SET name = ?1, estimated_pomodoros = ?2, completed_pomodoros = ?3,
             is_complete = ?4, priority = ?5, updated_at = CURRENT_TIMESTAMP WHERE id = ?6",
        (&name, &estimated_pomodoros, &completed_pomodoros, &is_complete, &priority, &id),
    ).map_err(|e| e.to_string())
}

/// Relies on rusqlite's `Connection::execute` running
/// `DELETE FROM tasks WHERE id = ?`: every row whose id matches is removed,
/// the rest keep their order, a row with no match means no change, and the
/// largest id ever assigned stands whether or not its row goes. The
/// returned count is the number of matching rows. A failed statement
/// changes nothing.
#[verifier::external_body]
fn exec_delete_task(conn: &mut rusqlite::Connection, id: i64) -> (r: Result<usize, String>)
    ensures
        match r {
            Ok(n) => {
                &&& db_tasks(*final(conn)) == delete_model(db_tasks(*old(conn)), id as int)
                &&& n == db_tasks(*old(conn)).filter(|t: TaskView| t.id == id as int).len()
            },
            Err(_) => db_tasks(*final(conn)) == db_tasks(*old(conn)),
        },
        db_high_id(*final(conn)) == db_high_id(*old(conn)),
{
    conn.execute("DELETE FROM tasks WHERE id = ?1", (&id,))
        .map_err(|e| e.to_string())
}

/// Relies on rusqlite's `Connection::prepare` and `Statement::query_map`
/// over `SELECT ... FROM tasks ORDER BY id ASC`: the rows come out in
/// ascending id order — the order `db_tasks` denotes — each decoded into a
/// task with the stored field values. Any query or decoding failure, such
/// as a stored count outside its column's range, is an error.
#[verifier::external_body]
fn exec_query_tasks(conn: &rusqlite::Connection) -> (r: Result<Vec<Task>, String>)
    ensures
        r matches Ok(v) ==> v@.map_values(|t: Task| t@) == db_tasks(*conn),
{
    let mut stmt = conn.prepare(
        "SELECT id, name, estimated_pomodoros, completed_pomodoros, is_complete,
             priority, notes FROM tasks ORDER BY id ASC",
    ).map_err(|e| e.to_string())?;
    let rows = stmt.query_map([], |row| Ok(Task {
        id: row.get(0)?, name: row.get(1)?, estimated_pomodoros: row.get(2)?,
        completed_pomodoros: row.get(3)?, is_complete: row.get(4)?,
        priority: row.get(5)?, notes: row.get(6)?,
    })).map_err(|e| e.to_string())?;
    rows.collect::<Result<Vec<Task>, _>>().map_err(|e| e.to_string())
}

/// The store: the sole owner of the connection. Callers reach the table only
/// through its four operations, so holding a store behind an exclusive lock
/// serializes every statement, as the `&mut` methods already require. The
/// model reads the table as a function of the connection value, which
/// presumes the store's connection is the database's only access path —
/// exactly the single-connection discipline above. A second connection
/// writing the same database falsifies the model between calls.
pub struct TaskStore {
    conn: rusqlite::Connection,
}

impl TaskStore {
    /// The model of the store: the stored tasks in creation order.
    pub closed spec fn view(&self) -> Seq<TaskView> {
        db_tasks(self.conn)
    }

    /// The high watermark: the largest id the store has ever assigned, to
    /// stored rows and to since-deleted ones alike, or zero if none yet.
    pub closed spec fn high_id(&self) -> int {
        db_high_id(self.conn)
    }

    /// A well-formed store never holds two tasks with one id, and no stored
    /// id exceeds the high watermark — so a created task's id, which the
    /// contracts place strictly above the watermark, repeats no id the
    /// store ever assigned, deleted rows included.
    pub open spec fn wf(&self) -> bool {
        &&& ids_unique(self@)
        &&& self.high_id() >= 0
        &&& forall|i: int| 0 <= i < self@.len() ==> self@[i].id <= self.high_id()
    }

    /// Opens the store over a connection: makes sure the `tasks` table
    /// exists, creating it if absent, and touches no stored row, so opening
    /// the store over an existing database keeps everything it held. A
    /// `tasks` table whose declaration is not this store's schema is
    /// refused, since nothing could then be promised of its ids.
    pub fn new(conn: rusqlite::Connection) -> (r: Result<TaskStore, String>)
        ensures
            r matches Ok(s) ==> s@ == db_tasks(conn) && s.wf(),
    {
        let mut c = conn;
        exec_create_schema(&mut c)?;
        Ok(TaskStore { conn: c })
    }

    /// Lists every stored task, the most recently created first: the result
    /// is exactly the store's contents in reverse creation order. Nothing is
    /// filtered and nothing is paginated. A failed query yields an error and
    /// no rows.
    pub fn list_tasks(&self) -> (r: Result<Vec<Task>, String>)
        ensures
            r matches Ok(v) ==> v@.map_values(|t: Task| t@) == self@.reverse(),
    {
        let mut rows = exec_query_tasks(&self.conn)?;
        let ghost full: Seq<Task> = rows@;
        let mut out: Vec<Task> = Vec::new();
        while rows.len() > 0
            invariant
                rows@ == full.subrange(0, rows@.len() as int),
                out@.len() + rows@.len() == full.len(),
                forall|k: int| 0 <= k < out@.len() ==> out@[k] == full[full.len() - 1 - k],
            decreases rows@.len(),
        {
            let t = rows.pop().unwrap();
            out.push(t);
        }
        proof {
            assert(out@.map_values(|t: Task| t@) =~= self@.reverse());
        }
        Ok(out)
    }

    /// Creates a task from the caller's name, estimate and priority. The new
    /// row is appended to the store with zero completed work, an unset
    /// completion flag and no notes, under a fresh id that is positive,
    /// strictly above every id the store holds, and strictly above the high
    /// watermark — every id ever assigned, since-deleted rows included — and
    /// the returned task is exactly that row. A failed insert leaves the
    /// store unchanged.
    pub fn create_task(
        &mut self,
        name: String,
        estimated_pomodoros: i32,
        priority: String,
    ) -> (r: Result<Task, String>)
        ensures
            match r {
                Ok(t) => {
                    &&& t@ == created_task(t@.id, name@, estimated_pomodoros as int, priority@)
                    &&& fresh_id(old(self)@, t@.id)
                    &&& t@.id > old(self).high_id()
                    &&& final(self).high_id() == t@.id
                    &&& final(self)@ == old(self)@.push(t@)
                },
                Err(_) => final(self)@ == old(self)@
                    && final(self).high_id() == old(self).high_id(),
            },
            old(self).wf() ==> final(self).wf(),
    {
        let id = exec_insert_task(&mut self.conn, name.as_str(), estimated_pomodoros, priority.as_str())?;
        let t = Task {
            id,
            name,
            estimated_pomodoros,
            completed_pomodoros: 0,
            is_complete: false,
            priority,
            notes: None,
        };
        proof {
            assert(t@ == created_task(id as int, name@, estimated_pomodoros as int, priority@));
            if old(self).wf() {
                crate::laws::lemma_create_keeps_ids_unique(old(self)@, t@);
                assert forall|i: int| 0 <= i < self@.len()
                    implies self@[i].id <= self.high_id() by {
                    if i < old(self)@.len() {
                        assert(old(self)@[i].id <= old(self).high_id());
                    }
                }
            }
        }
        Ok(t)
    }

    /// Overwrites every mutable field of the task with the given id — name,
    /// estimate, completed count, completion flag, priority — in one step,
    /// leaving its id and notes as they were and every other task untouched.
    /// When no task has the id, the call succeeds and changes nothing. A
    /// failed statement leaves the store unchanged.
    pub fn update_task(
        &mut self,
        id: i64,
        name: String,
        estimated_pomodoros: i32,
        completed_pomodoros: i32,
        is_complete: bool,
        priority: String,
    ) -> (r: Result<(), String>)
        ensures
            match r {
                Ok(_) => final(self)@ == update_model(old(self)@, id as int, name@,
                    estimated_pomodoros as int, completed_pomodoros as int, is_complete,
                    priority@),
                Err(_) => final(self)@ == old(self)@,
            },
            final(self).high_id() == old(self).high_id(),
            old(self).wf() ==> final(self).wf(),
    {
        exec_update_task(&mut self.conn, id, name.as_str(), estimated_pomodoros,
            completed_pomodoros, is_complete, priority.as_str())?;
        proof {
            if old(self).wf() {
                crate::laws::lemma_update_keeps_ids_unique(old(self)@, id as int, name@,
                    estimated_pomodoros as int, completed_pomodoros as int, is_complete,
                    priority@);
            }
        }
        Ok(())
    }

    /// Removes the task with the given id; the remaining tasks keep their
    /// order. When no task has the id, the call succeeds and changes
    /// nothing, so deleting an id twice is the same as deleting it once. A
    /// failed statement leaves the store unchanged.
    pub fn delete_task(&mut self, id: i64) -> (r: Result<(), String>)
        ensures
            match r {
                Ok(_) => final(self)@ == delete_model(old(self)@, id as int),
                Err(_) => final(self)@ == old(self)@,
            },
            final(self).high_id() == old(self).high_id(),
            old(self).wf() ==> final(self).wf(),
    {
        exec_delete_task(&mut self.conn, id)?;
        proof {
            if old(self).wf() {
                crate::laws::lemma_delete_keeps_ids_unique(old(self)@, id as int);
                crate::laws::lemma_delete_keeps_ids_bounded(old(self)@, id as int,
                    old(self).high_id());
            }
        }
        Ok(())
    }
}

} // verus!
