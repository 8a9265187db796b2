use vstd::prelude::*;

use crate::task::Priority;

verus! {

#[verifier::external_type_specification]
#[verifier::external_body]
pub struct ExConnection(rusqlite::Connection);

#[verifier::external_type_specification]
#[verifier::external_body]
pub struct ExSqlError(rusqlite::Error);

/// A stored task's columns but its id: title, description, completed flag, priority code and
/// due date text.
pub type RowFields = (Seq<char>, Seq<char>, bool, int, Option<Seq<char>>);

/// The rows of the `tasks` table that a connection reaches, keyed by id; empty while there is
/// no such table.
pub uninterp spec fn stored_rows(c: rusqlite::Connection) -> Map<
    int,
    (Seq<char>, Seq<char>, bool, int, Option<Seq<char>>),
>;

pub open spec fn opt_text(o: Option<String>) -> Option<Seq<char>> {
    match o {
        Some(s) => Some(s@),
        None => None,
    }
}

/// A row of the `tasks` table as it is read.
#[derive(Debug, Clone, PartialEq, Eq)]
pub struct TaskRow {
    pub id: i64,
    pub title: String,
    pub description: String,
    pub completed: bool,
    pub priority: i64,
    pub date: Option<String>,
}

impl TaskRow {
    pub open spec fn fields(self) -> RowFields {
        (self.title@, self.description@, self.completed, self.priority as int, opt_text(self.date))
    }
}

/// The orders in which the rows of the table can be listed.
pub enum RowOrder {
    /// By id, which is the order of insertion.
    ById,
    /// Highest priority code first; rows of equal priority by id.
    PriorityDesc,
    /// Lowest priority code first; rows of equal priority by id.
    PriorityAsc,
}

/// Whether row `a` comes strictly before row `b` in the given order.
pub open spec fn comes_before(a: TaskRow, b: TaskRow, order: RowOrder) -> bool {
    match order {
        RowOrder::ById => a.id < b.id,
        RowOrder::PriorityDesc => a.priority > b.priority || (a.priority == b.priority && a.id
            < b.id),
        RowOrder::PriorityAsc => a.priority < b.priority || (a.priority == b.priority && a.id
            < b.id),
    }
}

/// Whether `s` lists the rows of `m`, each once, in the given order.
pub open spec fn lists_rows(m: Map<int, RowFields>, s: Seq<TaskRow>, order: RowOrder) -> bool {
    &&& forall|i: int|
        0 <= i < s.len() ==> m.contains_key(#[trigger] s[i].id as int) && m[s[i].id as int]
            == s[i].fields()
    &&& forall|k: int| m.contains_key(k) ==> exists|i: int| 0 <= i < s.len() && #[trigger] s[i].id == k
    &&& forall|i: int, j: int| 0 <= i < j < s.len() ==> comes_before(s[i], s[j], order)
}

/// The fields of a row after its completed flag is set.
pub open spec fn with_completed(f: RowFields, completed: bool) -> RowFields {
    (f.0, f.1, completed, f.3, f.4)
}

/// The fields of a row after its priority code is set.
pub open spec fn with_priority(f: RowFields, code: int) -> RowFields {
    (f.0, f.1, f.2, code, f.4)
}

/// The rows after the row `id`, if there is one, takes new fields.
pub open spec fn rows_updated(m: Map<int, RowFields>, id: int, f: RowFields) -> Map<int, RowFields> {
    if m.contains_key(id) {
        m.insert(id, f)
    } else {
        m
    }
}

/// The number of rows that a statement on the row `id` changes.
pub open spec fn rows_touched(m: Map<int, RowFields>, id: int) -> nat {
    if m.contains_key(id) {
        1
    } else {
        0
    }
}

/// Relies on rusqlite's `Connection::open_in_memory`: a new, empty database.
#[verifier::external_body]
fn sql_open_in_memory() -> (r: Result<rusqlite::Connection, rusqlite::Error>)
    ensures
        r matches Ok(conn) ==> stored_rows(conn).dom().finite() && stored_rows(conn).dom().len() == 0,
{
    rusqlite::Connection::open_in_memory()
}

/// Relies on rusqlite's `Connection::open`: the database in the file at `path`, of finitely
/// many rows.
#[verifier::external_body]
fn sql_open(path: &str) -> (r: Result<rusqlite::Connection, rusqlite::Error>)
    ensures
        r matches Ok(conn) ==> stored_rows(conn).dom().finite(),
{
    rusqlite::Connection::open(path)
}

/// Relies on rusqlite's `Connection::execute` with `CREATE TABLE IF NOT EXISTS`: rows that are
/// there stay, and a new table is empty. Ids are given by `AUTOINCREMENT`.
#[verifier::external_body]
fn sql_create_table(c: &mut rusqlite::Connection) -> (r: Result<usize, rusqlite::Error>)
    ensures
        r is Ok ==> stored_rows(*final(c)) == stored_rows(*old(c)),
        r is Err ==> stored_rows(*final(c)) == stored_rows(*old(c)),
{
    c.execute(
        "CREATE TABLE IF NOT EXISTS tasks (id INTEGER PRIMARY KEY AUTOINCREMENT, title TEXT NOT NULL, description TEXT NOT NULL, completed BOOLEAN NOT NULL, priority INTEGER NOT NULL, date TEXT)",
        (),
    )
}

/// Relies on rusqlite's `Connection::execute` with `INSERT`, run to completion, and
/// `Connection::last_insert_rowid`: one new row, under the id that SQLite picked among those
/// not in the table and reports as the last inserted; nothing changes on failure.
#[verifier::external_body]
fn sql_insert(
    c: &mut rusqlite::Connection,
    title: &str,
    description: &str,
    completed: bool,
    priority: i64,
    date: Option<&str>,
) -> (r: Result<i64, rusqlite::Error>)
    ensures
        r matches Ok(id) ==> {
            &&& !stored_rows(*old(c)).contains_key(id as int)
            &&& stored_rows(*final(c)) == stored_rows(*old(c)).insert(
                id as int,
                (title@, description@, completed, priority as int, match date {
                    Some(s) => Some(s@),
                    None => None,
                }),
            )
        },
        r is Err ==> stored_rows(*final(c)) == stored_rows(*old(c)),
{
    c.execute(
        "INSERT INTO tasks (title, description, completed, priority, date) VALUES (?1, ?2, ?3, ?4, ?5)",
        (title, description, completed, priority, date),
    )?;
    Ok(c.last_insert_rowid())
}

/// Relies on rusqlite's `Connection::execute` with `UPDATE ... WHERE id = ?1` on every column
/// but the id: the number of rows changed, the row `id` if there is one.
#[verifier::external_body]
fn sql_update(
    c: &mut rusqlite::Connection,
    id: i64,
    title: &str,
    description: &str,
    completed: bool,
    priority: i64,
    date: Option<&str>,
) -> (r: Result<usize, rusqlite::Error>)
    ensures
        r matches Ok(n) ==> {
            &&& n == rows_touched(stored_rows(*old(c)), id as int)
            &&& stored_rows(*final(c)) == rows_updated(
                stored_rows(*old(c)),
                id as int,
                (title@, description@, completed, priority as int, match date {
                    Some(s) => Some(s@),
                    None => None,
                }),
            )
        },
        r is Err ==> stored_rows(*final(c)) == stored_rows(*old(c)),
{
    c.execute(
        "UPDATE tasks SET title = ?2, description = ?3, completed = ?4, priority = ?5, date = ?6 WHERE id = ?1",
        (id, title, description, completed, priority, date),
    )
}

/// Relies on rusqlite's `Connection::execute` with `UPDATE tasks SET completed`: the number of
/// rows changed, the row `id` if there is one.
#[verifier::external_body]
fn sql_set_completed(c: &mut rusqlite::Connection, id: i64, completed: bool) -> (r: Result<
    usize,
    rusqlite::Error,
>)
    ensures
        r matches Ok(n) ==> {
            let m = stored_rows(*old(c));
            &&& n == rows_touched(m, id as int)
            &&& stored_rows(*final(c)) == rows_updated(m, id as int, with_completed(m[id as int], completed))
        },
        r is Err ==> stored_rows(*final(c)) == stored_rows(*old(c)),
{
    c.execute("UPDATE tasks SET completed = ?2 WHERE id = ?1", (id, completed))
}

/// Relies on rusqlite's `Connection::execute` with `UPDATE tasks SET priority`: the number of
/// rows changed, the row `id` if there is one.
#[verifier::external_body]
fn sql_set_priority(c: &mut rusqlite::Connection, id: i64, priority: i64) -> (r: Result<
    usize,
    rusqlite::Error,
>)
    ensures
        r matches Ok(n) ==> {
            let m = stored_rows(*old(c));
            &&& n == rows_touched(m, id as int)
            &&& stored_rows(*final(c)) == rows_updated(m, id as int, with_priority(m[id as int], priority as int))
        },
        r is Err ==> stored_rows(*final(c)) == stored_rows(*old(c)),
{
    c.execute("UPDATE tasks SET priority = ?2 WHERE id = ?1", (id, priority))
}

/// Relies on rusqlite's `Connection::execute` with `DELETE ... WHERE id = ?1`: the number of
/// rows removed, the row `id` if there is one.
#[verifier::external_body]
fn sql_delete(c: &mut rusqlite::Connection, id: i64) -> (r: Result<usize, rusqlite::Error>)
    ensures
        r matches Ok(n) ==> {
            &&& n == rows_touched(stored_rows(*old(c)), id as int)
            &&& stored_rows(*final(c)) == stored_rows(*old(c)).remove(id as int)
        },
        r is Err ==> stored_rows(*final(c)) == stored_rows(*old(c)),
{
    c.execute("DELETE FROM tasks WHERE id = ?1", (id,))
}

/// Relies on rusqlite's `Connection::execute` with `DELETE FROM tasks`: every row removed, and
/// their number.
#[verifier::external_body]
fn sql_delete_all(c: &mut rusqlite::Connection) -> (r: Result<usize, rusqlite::Error>)
    ensures
        r matches Ok(n) ==> {
            &&& n == stored_rows(*old(c)).dom().len()
            &&& stored_rows(*final(c)) == Map::<int, RowFields>::empty()
        },
        r is Err ==> stored_rows(*final(c)) == stored_rows(*old(c)),
{
    c.execute("DELETE FROM tasks", ())
}

/// Relies on rusqlite's `Connection::query_row` with `SELECT count(*)`: the number of rows.
#[verifier::external_body]
fn sql_count(c: &rusqlite::Connection) -> (r: Result<i64, rusqlite::Error>)
    ensures
        r matches Ok(n) ==> n == stored_rows(*c).dom().len(),
{
    c.query_row("SELECT count(*) FROM tasks", (), |row| row.get(0))
}

/// Relies on rusqlite's `Connection::query_row` with `SELECT ... WHERE id = ?1`: the row `id`,
/// or `QueryReturnedNoRows` where there is none.
#[verifier::external_body]
fn sql_select_one(c: &rusqlite::Connection, id: i64) -> (r: Result<Option<TaskRow>, rusqlite::Error>)
    ensures
        r matches Ok(Some(row)) ==> row.id == id && stored_rows(*c).contains_key(id as int)
            && stored_rows(*c)[id as int] == row.fields(),
        r matches Ok(None) ==> !stored_rows(*c).contains_key(id as int),
{
    let q = "SELECT id, title, description, completed, priority, date FROM tasks WHERE id = ?1";
    match c.query_row(q, (id,), |r| Ok(TaskRow { id: r.get(0)?, title: r.get(1)?, description: r.get(2)?, completed: r.get(3)?, priority: r.get(4)?, date: r.get(5)? })) {
        Ok(row) => Ok(Some(row)),
        Err(rusqlite::Error::QueryReturnedNoRows) => Ok(None),
        Err(e) => Err(e),
    }
}

/// Relies on rusqlite's `Connection::prepare` and `Statement::query_map` with `SELECT ... ORDER BY id`: every row, in
/// the order of their ids.
#[verifier::external_body]
fn sql_select_by_id(c: &rusqlite::Connection) -> (r: Result<Vec<TaskRow>, rusqlite::Error>)
    ensures
        r matches Ok(v) ==> lists_rows(stored_rows(*c), v@, RowOrder::ById),
{
    let mut s = c.prepare("SELECT id, title, description, completed, priority, date FROM tasks ORDER BY id")?;
    let rows = s.query_map((), |r| Ok(TaskRow { id: r.get(0)?, title: r.get(1)?, description: r.get(2)?, completed: r.get(3)?, priority: r.get(4)?, date: r.get(5)? }))?;
    rows.collect()
}

/// Relies on rusqlite's `Connection::prepare` and `Statement::query_map` with `ORDER BY priority DESC, id`: every row,
/// highest priority first, rows of equal priority in the order of their ids.
#[verifier::external_body]
fn sql_select_priority_desc(c: &rusqlite::Connection) -> (r: Result<Vec<TaskRow>, rusqlite::Error>)
    ensures
        r matches Ok(v) ==> lists_rows(stored_rows(*c), v@, RowOrder::PriorityDesc),
{
    let mut s = c.prepare("SELECT id, title, description, completed, priority, date FROM tasks ORDER BY priority DESC, id")?;
    let rows = s.query_map((), |r| Ok(TaskRow { id: r.get(0)?, title: r.get(1)?, description: r.get(2)?, completed: r.get(3)?, priority: r.get(4)?, date: r.get(5)? }))?;
    rows.collect()
}

/// Relies on rusqlite's `Connection::prepare` and `Statement::query_map` with `ORDER BY priority ASC, id`: every row,
/// lowest priority first, rows of equal priority in the order of their ids.
#[verifier::external_body]
fn sql_select_priority_asc(c: &rusqlite::Connection) -> (r: Result<Vec<TaskRow>, rusqlite::Error>)
    ensures
        r matches Ok(v) ==> lists_rows(stored_rows(*c), v@, RowOrder::PriorityAsc),
{
    let mut s = c.prepare("SELECT id, title, description, completed, priority, date FROM tasks ORDER BY priority ASC, id")?;
    let rows = s.query_map((), |r| Ok(TaskRow { id: r.get(0)?, title: r.get(1)?, description: r.get(2)?, completed: r.get(3)?, priority: r.get(4)?, date: r.get(5)? }))?;
    rows.collect()
}

/// A failure of the storage engine, with its message.
#[derive(Debug, Clone, PartialEq, Eq)]
pub struct StorageError {
    pub message: String,
}

fn storage_error(e: rusqlite::Error) -> (r: StorageError) {
    StorageError { message: e.to_string() }
}

/// The durable store of tasks: a table of rows keyed by an id that the store assigns.
pub struct DB {
    connection: rusqlite::Connection,
}

impl DB {
    /// The rows of the store, by id.
    pub closed spec fn rows(&self) -> Map<int, RowFields> {
        stored_rows(self.connection)
    }

    pub open spec fn wf(&self) -> bool {
        self.rows().dom().finite()
    }

    /// Opens the store in the file at `path`, or a new one in memory where `path` is empty,
    /// and makes sure that it has a table of tasks.
    pub fn create_and_return_connection(path: &str) -> (r: Result<DB, StorageError>)
        ensures
            r matches Ok(db) ==> db.wf(),
            r matches Ok(db) ==> (path@.len() == 0 ==> db.rows().dom().len() == 0),
    {
        let opened = if path.is_empty() {
            sql_open_in_memory()
        } else {
            sql_open(path)
        };
        let mut connection = match opened {
            Ok(c) => c,
            Err(e) => return Err(storage_error(e)),
        };
        match sql_create_table(&mut connection) {
            Ok(_) => Ok(DB { connection }),
            Err(e) => Err(storage_error(e)),
        }
    }

    /// Stores a new row and returns the id that the store gave it, one not already there.
    pub fn insert_task(
        &mut self,
        title: &str,
        description: &str,
        completed: bool,
        priority: Priority,
        date: Option<&str>,
    ) -> (r: Result<i64, StorageError>)
        requires
            old(self).wf(),
        ensures
            final(self).wf(),
            r matches Ok(id) ==> {
                &&& !old(self).rows().contains_key(id as int)
                &&& final(self).rows() == old(self).rows().insert(
                    id as int,
                    (title@, description@, completed, priority.rank() as int, match date {
                        Some(s) => Some(s@),
                        None => None,
                    }),
                )
            },
            r is Err ==> final(self).rows() == old(self).rows(),
    {
        let code = priority.to_usize() as i64;
        match sql_insert(&mut self.connection, title, description, completed, code, date) {
            Ok(id) => Ok(id),
            Err(e) => Err(storage_error(e)),
        }
    }

    /// Stores a new task with this description, low priority, no title and no due date.
    pub fn add_task(&mut self, description: &str) -> (r: Result<i64, StorageError>)
        requires
            old(self).wf(),
        ensures
            final(self).wf(),
            r matches Ok(id) ==> {
                &&& !old(self).rows().contains_key(id as int)
                &&& final(self).rows() == old(self).rows().insert(
                    id as int,
                    (Seq::<char>::empty(), description@, false, 0, None),
                )
            },
            r is Err ==> final(self).rows() == old(self).rows(),
    {
        self.add_task_with_priority(description, Priority::Low)
    }

    /// Stores a new task with this description and priority, no title and no due date.
    pub fn add_task_with_priority(&mut self, description: &str, priority: Priority) -> (r: Result<
        i64,
        StorageError,
    >)
        requires
            old(self).wf(),
        ensures
            final(self).wf(),
            r matches Ok(id) ==> {
                &&& !old(self).rows().contains_key(id as int)
                &&& final(self).rows() == old(self).rows().insert(
                    id as int,
                    (Seq::<char>::empty(), description@, false, priority.rank() as int, None),
                )
            },
            r is Err ==> final(self).rows() == old(self).rows(),
    {
        let title = String::new();
        let r = self.insert_task(title.as_str(), description, false, priority, None);
        proof {
            if r is Ok {
                assert(title@ == Seq::<char>::empty());
            }
        }
        r
    }

    /// Every row, in the order of their ids.
    pub fn get_all_tasks(&self) -> (r: Result<Vec<TaskRow>, StorageError>)
        ensures
            r matches Ok(v) ==> lists_rows(self.rows(), v@, RowOrder::ById),
    {
        match sql_select_by_id(&self.connection) {
            Ok(v) => Ok(v),
            Err(e) => Err(storage_error(e)),
        }
    }

    /// The row `task_id`, or `None` where there is none.
    pub fn get_task_by_id(&self, task_id: i64) -> (r: Result<Option<TaskRow>, StorageError>)
        ensures
            r matches Ok(Some(row)) ==> row.id == task_id && self.rows().contains_key(task_id as int)
                && self.rows()[task_id as int] == row.fields(),
            r matches Ok(None) ==> !self.rows().contains_key(task_id as int),
    {
        match sql_select_one(&self.connection, task_id) {
            Ok(v) => Ok(v),
            Err(e) => Err(storage_error(e)),
        }
    }

    /// Every row, highest priority first; rows of equal priority in the order of their ids.
    pub fn get_all_task_by_highest_priority(&self) -> (r: Result<Vec<TaskRow>, StorageError>)
        ensures
            r matches Ok(v) ==> lists_rows(self.rows(), v@, RowOrder::PriorityDesc),
    {
        match sql_select_priority_desc(&self.connection) {
            Ok(v) => Ok(v),
            Err(e) => Err(storage_error(e)),
        }
    }

    /// Every row, lowest priority first; rows of equal priority in the order of their ids.
    pub fn get_all_task_by_lowest_priority(&self) -> (r: Result<Vec<TaskRow>, StorageError>)
        ensures
            r matches Ok(v) ==> lists_rows(self.rows(), v@, RowOrder::PriorityAsc),
    {
        match sql_select_priority_asc(&self.connection) {
            Ok(v) => Ok(v),
            Err(e) => Err(storage_error(e)),
        }
    }

    /// Sets the completed flag of the row `task_id`; returns the number of rows changed.
    pub fn set_task_completed(&mut self, task_id: i64, completed: bool) -> (r: Result<
        usize,
        StorageError,
    >)
        requires
            old(self).wf(),
        ensures
            final(self).wf(),
            r matches Ok(n) ==> {
                let m = old(self).rows();
                &&& n == rows_touched(m, task_id as int)
                &&& final(self).rows() == rows_updated(m, task_id as int, with_completed(m[task_id as int], completed))
            },
            r is Err ==> final(self).rows() == old(self).rows(),
    {
        match sql_set_completed(&mut self.connection, task_id, completed) {
            Ok(n) => Ok(n),
            Err(e) => Err(storage_error(e)),
        }
    }

    /// Sets the priority of the row `task_id`; returns the number of rows changed.
    pub fn update_task_priority(&mut self, task_id: i64, priority: Priority) -> (r: Result<
        usize,
        StorageError,
    >)
        requires
            old(self).wf(),
        ensures
            final(self).wf(),
            r matches Ok(n) ==> {
                let m = old(self).rows();
                &&& n == rows_touched(m, task_id as int)
                &&& final(self).rows() == rows_updated(m, task_id as int, with_priority(m[task_id as int], priority.rank() as int))
            },
            r is Err ==> final(self).rows() == old(self).rows(),
    {
        let code = priority.to_usize() as i64;
        match sql_set_priority(&mut self.connection, task_id, code) {
            Ok(n) => Ok(n),
            Err(e) => Err(storage_error(e)),
        }
    }

    /// Writes every column of the row `task_id`; returns the number of rows changed.
    pub fn update_task(
        &mut self,
        task_id: i64,
        title: &str,
        description: &str,
        completed: bool,
        priority: Priority,
        date: Option<&str>,
    ) -> (r: Result<usize, StorageError>)
        requires
            old(self).wf(),
        ensures
            final(self).wf(),
            r matches Ok(n) ==> {
                &&& n == rows_touched(old(self).rows(), task_id as int)
                &&& final(self).rows() == rows_updated(
                    old(self).rows(),
                    task_id as int,
                    (title@, description@, completed, priority.rank() as int, match date {
                        Some(s) => Some(s@),
                        None => None,
                    }),
                )
            },
            r is Err ==> final(self).rows() == old(self).rows(),
    {
        let code = priority.to_usize() as i64;
        match sql_update(&mut self.connection, task_id, title, description, completed, code, date) {
            Ok(n) => Ok(n),
            Err(e) => Err(storage_error(e)),
        }
    }

    /// Removes the row `task_id`; returns the number of rows removed.
    pub fn delete_task(&mut self, task_id: i64) -> (r: Result<usize, StorageError>)
        requires
            old(self).wf(),
        ensures
            final(self).wf(),
            r matches Ok(n) ==> {
                &&& n == rows_touched(old(self).rows(), task_id as int)
                &&& final(self).rows() == old(self).rows().remove(task_id as int)
            },
            r is Err ==> final(self).rows() == old(self).rows(),
    {
        match sql_delete(&mut self.connection, task_id) {
            Ok(n) => Ok(n),
            Err(e) => Err(storage_error(e)),
        }
    }

    /// The number of rows.
    pub fn get_record_count(&self) -> (r: Result<i64, StorageError>)
        ensures
            r matches Ok(n) ==> n == self.rows().dom().len(),
    {
        match sql_count(&self.connection) {
            Ok(n) => Ok(n),
            Err(e) => Err(storage_error(e)),
        }
    }

    /// Removes every row; returns their number.
    pub fn clear(&mut self) -> (r: Result<usize, StorageError>)
        requires
            old(self).wf(),
        ensures
            final(self).wf(),
            r matches Ok(n) ==> n == old(self).rows().dom().len() && final(self).rows() == Map::<
                int,
                RowFields,
            >::empty(),
            r is Err ==> final(self).rows() == old(self).rows(),
    {
        match sql_delete_all(&mut self.connection) {
            Ok(n) => Ok(n),
            Err(e) => Err(storage_error(e)),
        }
    }
}

} // verus!
