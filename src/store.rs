//! The task store: one SQLite table of tasks and the four operations on it.
//!
//! What a statement does to the table is decided by the database engine, so
//! each operation hands the engine exactly the statement and bound values that
//! `statement_for` gives for it, and states which error a failure becomes; the
//! decoding of the rows that a query returns is stated exactly.
use rusqlite::types::Value;
use rusqlite::Connection;
use std::path::PathBuf;
use vstd::prelude::*;

use crate::error::TaskError;
use crate::task::Task;

verus! {

#[verifier::external_type_specification]
#[verifier::external_body]
pub struct ExConnection(Connection);

#[verifier::external_type_specification]
#[verifier::external_body]
pub struct ExSqlError(rusqlite::Error);

#[verifier::external_type_specification]
#[verifier::external_body]
pub struct ExSqlValue(Value);

/// Creates the task table unless it is already there.
pub const CREATE_TABLE_SQL: &'static str = "CREATE TABLE IF NOT EXISTS tasks (
             id          INTEGER PRIMARY KEY,
             description TEXT NOT NULL,
             completed   BOOLEAN NOT NULL
         )";

/// Inserts a task from its description and completion flag.
pub const INSERT_TASK_SQL: &'static str = "INSERT INTO tasks (description, completed) VALUES (?1, ?2)";

/// Reads every task, in the engine's own row order.
pub const SELECT_TASKS_SQL: &'static str = "SELECT id, description, completed FROM tasks";

/// Marks the task with the given id as completed.
pub const COMPLETE_TASK_SQL: &'static str = "UPDATE tasks SET completed = 1 WHERE id = ?1";

/// Deletes the task with the given id.
pub const DELETE_TASK_SQL: &'static str = "DELETE FROM tasks WHERE id = ?1";

/// Relies on rusqlite::Connection::open: opens the database at `path`,
/// creating the file when it does not exist.
#[verifier::external_body]
fn open_connection(path: &PathBuf) -> (r: Result<Connection, rusqlite::Error>) {
    Connection::open(path)
}

/// Relies on rusqlite::types::Value: each bound value becomes the SQLite value
/// of the same kind, in the same order; a boolean becomes the integer 0 or 1
/// (`Value::from`).
#[verifier::external_body]
fn bind_values(params: Vec<SqlValue>) -> (r: Vec<Value>) {
    let mut values: Vec<Value> = Vec::new();
    for v in params {
        values.push(
            match v {
                SqlValue::Integer(i) => Value::Integer(i),
                SqlValue::Text(t) => Value::Text(t),
                SqlValue::Bool(b) => Value::from(b),
            },
        );
    }
    values
}

/// Relies on rusqlite::Connection::execute: runs one statement with `values`
/// bound to its placeholders, and returns how many rows it changed.
#[verifier::external_body]
fn execute(conn: &Connection, sql: &str, values: Vec<Value>) -> (r: Result<usize, rusqlite::Error>) {
    conn.execute(sql, rusqlite::params_from_iter(values))
}

/// Relies on rusqlite::Connection::prepare and rusqlite::Statement::query_map:
/// runs a query with `values` bound and reads the first three columns of each
/// row as an integer, a text and a boolean, stopping at the first failure.
#[verifier::external_body]
fn query_rows(conn: &Connection, sql: &str, values: Vec<Value>) -> (r: Result<
    Vec<(i64, String, bool)>,
    rusqlite::Error,
>) {
    let mut stmt = conn.prepare(sql)?;
    let rows = stmt.query_map(
        rusqlite::params_from_iter(values),
        |row| Ok((row.get(0)?, row.get(1)?, row.get(2)?)),
    )?;
    let collected = rows.collect();
    collected
}

/// The text of a database failure.
pub uninterp spec fn sql_error_text(e: rusqlite::Error) -> Seq<char>;

/// Relies on the `Display` impl of rusqlite::Error: the message that describes
/// the failure, which depends on the error alone.
#[verifier::external_body]
fn error_message(e: &rusqlite::Error) -> (r: String)
    ensures
        r@ == sql_error_text(*e),
{
    e.to_string()
}

/// Turns a failure of the database into the storage error, keeping its message.
pub fn storage_error<T>(r: Result<T, rusqlite::Error>) -> (out: Result<T, TaskError>)
    ensures
        r is Ok <==> out is Ok,
        r is Ok ==> out == Ok::<T, TaskError>(r->Ok_0),
        r is Err ==> out is Err && out->Err_0 is Storage && out->Err_0->Storage_0@
            == sql_error_text(r->Err_0),
{
    match r {
        Ok(v) => Ok(v),
        Err(e) => Err(TaskError::Storage(error_message(&e))),
    }
}

/// A value bound to a placeholder of a statement.
#[derive(Debug, Clone, PartialEq, Eq)]
pub enum SqlValue {
    Integer(i64),
    Text(String),
    Bool(bool),
}

/// One of the operations that the store runs against its table.
#[derive(Debug, Clone, PartialEq, Eq)]
pub enum Operation {
    /// Create the task table unless it exists.
    CreateTable,
    /// Insert a task with this description, not completed.
    Insert(String),
    /// Read every task.
    SelectAll,
    /// Mark the task with this id as completed.
    Complete(i64),
    /// Delete the task with this id.
    Delete(i64),
}

/// The statement that runs an operation, and the values bound to its
/// placeholders, in order.
pub fn statement_for(op: &Operation) -> (r: (&'static str, Vec<SqlValue>))
    ensures
        op is CreateTable ==> r.0@ == CREATE_TABLE_SQL@ && r.1@.len() == 0,
        op is Insert ==> r.0@ == INSERT_TASK_SQL@ && r.1@.len() == 2 && r.1@[0] is Text
            && r.1@[0]->Text_0@ == op->Insert_0@ && r.1@[1] == SqlValue::Bool(false),
        op is SelectAll ==> r.0@ == SELECT_TASKS_SQL@ && r.1@.len() == 0,
        op is Complete ==> r.0@ == COMPLETE_TASK_SQL@ && r.1@ == seq![
            SqlValue::Integer(op->Complete_0),
        ],
        op is Delete ==> r.0@ == DELETE_TASK_SQL@ && r.1@ == seq![
            SqlValue::Integer(op->Delete_0),
        ],
{
    match op {
        Operation::CreateTable => (CREATE_TABLE_SQL, Vec::new()),
        Operation::Insert(description) => {
            let values = vec![SqlValue::Text(description.clone()), SqlValue::Bool(false)];
            (INSERT_TASK_SQL, values)
        },
        Operation::SelectAll => (SELECT_TASKS_SQL, Vec::new()),
        Operation::Complete(id) => {
            let values = vec![SqlValue::Integer(*id)];
            assert(values@ =~= seq![SqlValue::Integer(*id)]);
            (COMPLETE_TASK_SQL, values)
        },
        Operation::Delete(id) => {
            let values = vec![SqlValue::Integer(*id)];
            assert(values@ =~= seq![SqlValue::Integer(*id)]);
            (DELETE_TASK_SQL, values)
        },
    }
}

/// Runs an operation that returns no rows.
fn run(conn: &Connection, op: &Operation) -> (r: Result<(), TaskError>)
    ensures
        r is Err ==> r->Err_0 is Storage,
{
    let (sql, values) = statement_for(op);
    storage_error(execute(conn, sql, bind_values(values)))?;
    Ok(())
}

/// The task that a row `(id, description, completed)` describes.
pub open spec fn row_matches(t: Task, row: (i64, String, bool)) -> bool {
    &&& t.id == row.0
    &&& t.description@ == row.1@
    &&& t.completed == row.2
}

/// Turns rows `(id, description, completed)` into tasks, one for each row, in
/// the same order.
pub fn tasks_from_rows(rows: &Vec<(i64, String, bool)>) -> (r: Vec<Task>)
    ensures
        r.len() == rows.len(),
        forall|i: int| 0 <= i < r.len() ==> row_matches(#[trigger] r[i], rows[i]),
{
    let mut tasks: Vec<Task> = Vec::new();
    let mut i: usize = 0;
    while i < rows.len()
        invariant
            i <= rows.len(),
            tasks.len() == i,
            forall|j: int| 0 <= j < i ==> row_matches(#[trigger] tasks[j], rows[j]),
        decreases rows.len() - i,
    {
        let row = &rows[i];
        tasks.push(Task { id: row.0, description: row.1.clone(), completed: row.2 });
        i = i + 1;
    }
    tasks
}

/// An open task database.
pub struct TaskStore {
    conn: Connection,
}

impl TaskStore {
    /// Opens, or creates, the database at `path` and makes sure that the task
    /// table exists. Any failure is a storage error.
    pub fn open(path: &PathBuf) -> (r: Result<TaskStore, TaskError>)
        ensures
            r is Err ==> r->Err_0 is Storage,
    {
        let conn = storage_error(open_connection(path))?;
        run(&conn, &Operation::CreateTable)?;
        Ok(TaskStore { conn })
    }

    /// Adds a task with this description that is not completed; the engine
    /// assigns its id. Any failure is a storage error.
    pub fn add(&self, description: &str) -> (r: Result<(), TaskError>)
        ensures
            r is Err ==> r->Err_0 is Storage,
    {
        run(&self.conn, &Operation::Insert(description.to_owned()))
    }

    /// Every task, in the engine's row order. Any failure is a storage error.
    pub fn list(&self) -> (r: Result<Vec<Task>, TaskError>)
        ensures
            r is Err ==> r->Err_0 is Storage,
    {
        let (sql, values) = statement_for(&Operation::SelectAll);
        let rows = storage_error(query_rows(&self.conn, sql, bind_values(values)))?;
        Ok(tasks_from_rows(&rows))
    }

    /// Marks the task with this id as completed; with no such task nothing
    /// changes and it is no error. Any failure is a storage error.
    pub fn complete(&self, id: i64) -> (r: Result<(), TaskError>)
        ensures
            r is Err ==> r->Err_0 is Storage,
    {
        run(&self.conn, &Operation::Complete(id))
    }

    /// Deletes the task with this id; with no such task nothing changes and it
    /// is no error. Any failure is a storage error.
    pub fn delete(&self, id: i64) -> (r: Result<(), TaskError>)
        ensures
            r is Err ==> r->Err_0 is Storage,
    {
        run(&self.conn, &Operation::Delete(id))
    }
}

} // verus!
