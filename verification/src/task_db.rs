//! The table of tasks in SQLite.
//!
//! SQLite decides what a statement does and what a query finds, so nothing
//! here says what the table holds. What is stated is what the library hands
//! to SQLite, statement by statement and query by query, and what it makes of
//! the rows that come back.

use crate::date::{placeholder_day, Date};
use crate::sqlite::{
    execute, last_insert_rowid, open_file, open_memory, query_integer, query_rows, value_views,
    SqlValue, TaskRow, ValueView,
};
use crate::task::{task_views, Priority, Task, TaskView};
use crate::text::{trim_text, trimmed};
use vstd::prelude::*;

verus! {

/// Why a call on the store failed.
#[derive(Debug)]
pub enum StoreError {
    /// No row has the id that was asked for.
    NotFound { id: i32 },
    /// SQLite failed or refused the call.
    Access(rusqlite::Error),
    /// A row holds a priority that is none of the levels.
    BadPriority { code: u8 },
    /// The rows did not come in the order that was asked for.
    OutOfOrder,
    /// The id of a new row is more than a task can carry.
    IdOutOfRange { rowid: i64 },
}

/// A statement handed to SQLite: its text and the values bound to it.
pub struct Request {
    pub sql: Seq<char>,
    pub params: Seq<ValueView>,
}

pub const CREATE_TABLE: &'static str = "CREATE TABLE IF NOT EXISTS tasks (
            id INTEGER PRIMARY KEY,
            title TEXT NOT NULL,
            description TEXT NOT NULL,
            completed BOOLEAN NOT NULL,
            priority INTEGER NOT NULL
        )";

pub const INSERT_TASK: &'static str =
    "INSERT INTO tasks (title, description, completed, priority) VALUES (?1,?2, 0, ?3)";

pub const SELECT_ALL: &'static str =
    "SELECT id, title, description, completed, priority FROM tasks";

pub const SELECT_BY_ID: &'static str =
    "SELECT id, title, description, completed, priority FROM tasks where id = ?1";

pub const SELECT_HIGHEST_FIRST: &'static str =
    "SELECT id, title, description, completed, priority FROM tasks order by priority desc";

pub const SELECT_LOWEST_FIRST: &'static str =
    "SELECT id, title, description, completed, priority FROM tasks order by priority asc";

pub const UPDATE_COMPLETED: &'static str = "UPDATE tasks SET completed = ?2 WHERE id = ?1";

pub const UPDATE_PRIORITY: &'static str = "UPDATE tasks SET priority = ?2 WHERE id = ?1";

pub const UPDATE_TEXTS: &'static str =
    "UPDATE tasks SET title = ?2, description = ?3 WHERE id = ?1";

pub const DELETE_TASK: &'static str = "delete from tasks where id = ?1";

pub const COUNT_TASKS: &'static str = "SELECT count(*) FROM tasks";

pub const DELETE_ALL: &'static str = "DELETE FROM tasks";

/// The statement that creates the table of tasks unless it is there.
pub open spec fn create_table_request() -> Request {
    Request { sql: CREATE_TABLE@, params: Seq::empty() }
}

/// The query for every task, in whatever order SQLite has them.
pub open spec fn select_all_request() -> Request {
    Request { sql: SELECT_ALL@, params: Seq::empty() }
}

/// The query for every task, ordered by priority: the highest first where
/// `descending`, the lowest first otherwise.
pub open spec fn select_ordered_request(descending: bool) -> Request {
    Request {
        sql: if descending {
            SELECT_HIGHEST_FIRST@
        } else {
            SELECT_LOWEST_FIRST@
        },
        params: Seq::empty(),
    }
}

/// The query for the task `id`.
pub open spec fn select_by_id_request(id: int) -> Request {
    Request { sql: SELECT_BY_ID@, params: seq![ValueView::Integer(id)] }
}

/// The query for the number of tasks.
pub open spec fn count_request() -> Request {
    Request { sql: COUNT_TASKS@, params: Seq::empty() }
}

/// The statement that stores a new task: its texts without the white space
/// around them, not completed, with its priority's code. The id is SQLite's
/// to choose, and the date is not stored.
pub open spec fn insert_request(task: TaskView) -> Request {
    Request {
        sql: INSERT_TASK@,
        params: seq![
            ValueView::Text(trimmed(task.title)),
            ValueView::Text(trimmed(task.description)),
            ValueView::Integer(task.priority.code()),
        ],
    }
}

/// The statement that marks the task `id` as completed or open.
pub open spec fn completed_request(id: int, completed: bool) -> Request {
    Request {
        sql: UPDATE_COMPLETED@,
        params: seq![ValueView::Integer(id), ValueView::Integer(if completed { 1 } else { 0 })],
    }
}

/// The statement that gives the task `id` another priority.
pub open spec fn priority_request(id: int, priority: Priority) -> Request {
    Request {
        sql: UPDATE_PRIORITY@,
        params: seq![ValueView::Integer(id), ValueView::Integer(priority.code())],
    }
}

/// The statement that overwrites the texts of the stored task with those of
/// `task`, without the white space around them.
pub open spec fn texts_request(task: TaskView) -> Request {
    Request {
        sql: UPDATE_TEXTS@,
        params: seq![
            ValueView::Integer(task.id),
            ValueView::Text(trimmed(task.title)),
            ValueView::Text(trimmed(task.description)),
        ],
    }
}

/// The statement that removes the task `id`.
pub open spec fn delete_request(id: int) -> Request {
    Request { sql: DELETE_TASK@, params: seq![ValueView::Integer(id)] }
}

/// The statement that removes every task.
pub open spec fn clear_request() -> Request {
    Request { sql: DELETE_ALL@, params: Seq::empty() }
}

/// The task that a row stands for. Every stored task shows the same day.
pub open spec fn loaded_task(row: TaskRow) -> Result<TaskView, StoreError> {
    match Priority::of_code(row.priority as int) {
        Some(priority) => Ok(
            TaskView {
                id: row.id as int,
                title: row.title@,
                description: row.description@,
                completed: row.completed,
                priority,
                date: Some(placeholder_day()),
            },
        ),
        None => Err(StoreError::BadPriority { code: row.priority }),
    }
}

/// Whether the tasks are what the rows stand for, one by one and in the rows'
/// order.
pub open spec fn stand_for(rows: Seq<TaskRow>, tasks: Seq<TaskView>) -> bool {
    &&& tasks.len() == rows.len()
    &&& forall|i: int|
        0 <= i < rows.len() ==> (loaded_task(#[trigger] rows[i]) matches Ok(v) && v == tasks[i])
}

/// Whether a row holds what an insert statement carried: its two texts and
/// its priority, and the task as open.
pub open spec fn holds_inserted(row: TaskRow, request: Request) -> bool {
    &&& request.params.len() == 3
    &&& request.params[0] == ValueView::Text(row.title@)
    &&& request.params[1] == ValueView::Text(row.description@)
    &&& request.params[2] == ValueView::Integer(row.priority as int)
    &&& !row.completed
}

/// Whether no two rows have the same id.
pub open spec fn distinct_ids(rows: Seq<TaskRow>) -> bool {
    forall|i: int, j: int|
        0 <= i < j < rows.len() ==> (#[trigger] rows[i]).id != (#[trigger] rows[j]).id
}

/// Whether every task of the list shows the day that stored tasks show.
pub open spec fn all_on_placeholder_day(tasks: Seq<TaskView>) -> bool {
    forall|i: int| 0 <= i < tasks.len() ==> (#[trigger] tasks[i]).date == Some(placeholder_day())
}

/// Whether the priorities never rise along the list (`descending`) or never
/// fall (otherwise).
pub open spec fn ordered_by_priority(tasks: Seq<TaskView>, descending: bool) -> bool {
    forall|i: int, j: int|
        0 <= i < j < tasks.len() ==> if descending {
            (#[trigger] tasks[i]).priority.code() >= (#[trigger] tasks[j]).priority.code()
        } else {
            tasks[i].priority.code() <= tasks[j].priority.code()
        }
}

/// The place of the first row with the id `id`, if there is one.
pub open spec fn first_with_id(rows: Seq<TaskRow>, id: int) -> Option<int> {
    if exists|i: int| 0 <= i < rows.len() && (#[trigger] rows[i]).id == id {
        Some(choose|i: int| 0 <= i < rows.len() && (#[trigger] rows[i]).id == id && forall|j: int|
                0 <= j < i ==> (#[trigger] rows[j]).id != id)
    } else {
        None
    }
}

impl Task {
    /// The task that a row of the table stands for.
    pub fn try_from(row: &TaskRow) -> (r: Result<Task, StoreError>)
        ensures
            match loaded_task(*row) {
                Ok(v) => r matches Ok(task) && task@ == v,
                Err(e) => r matches Err(f) && f == e,
            },
    {
        match Priority::from_u8(row.priority) {
            Some(priority) => Ok(
                Task {
                    id: row.id,
                    title: row.title.clone(),
                    description: row.description.clone(),
                    completed: row.completed,
                    priority,
                    date: Date::placeholder(),
                },
            ),
            None => Err(StoreError::BadPriority { code: row.priority }),
        }
    }
}

/// The tasks that the rows stand for, in the rows' order. The first row
/// whose priority is none of the levels fails the whole list.
pub fn tasks_from_rows(rows: &Vec<TaskRow>) -> (r: Result<Vec<Task>, StoreError>)
    ensures
        match r {
            Ok(tasks) => {
                &&& tasks.len() == rows.len()
                &&& forall|i: int|
                    0 <= i < rows.len() ==> (loaded_task(#[trigger] rows[i]) matches Ok(v) && v
                        == tasks[i]@)
                &&& stand_for(rows@, task_views(tasks@))
                &&& all_on_placeholder_day(task_views(tasks@))
            },
            Err(e) => exists|i: int|
                {
                    &&& 0 <= i < rows.len()
                    &&& loaded_task(#[trigger] rows[i]) matches Err(f)
                    &&& f == e
                    &&& forall|j: int| 0 <= j < i ==> loaded_task(#[trigger] rows[j]) is Ok
                },
        },
{
    let mut tasks: Vec<Task> = Vec::new();
    let mut i: usize = 0;
    while i < rows.len()
        invariant
            i <= rows.len(),
            tasks.len() == i,
            forall|k: int|
                0 <= k < i ==> (loaded_task(#[trigger] rows[k]) matches Ok(v) && v == tasks[k]@),
        decreases rows.len() - i,
    {
        match Task::try_from(&rows[i]) {
            Ok(task) => {
                tasks.push(task);
            },
            Err(e) => {
                return Err(e);
            },
        }
        i += 1;
    }
    assert forall|k: int| 0 <= k < tasks.len() implies (#[trigger] task_views(tasks@)[k]).date
        == Some(placeholder_day()) by {
        assert(loaded_task(rows[k]) is Ok);
    }
    Ok(tasks)
}

/// One row more is one task more. What SQLite answers is not the library's
/// to say; this says what the library makes of it. Where the rows after an
/// insert are the rows from before and one row that holds what the insert
/// statement for `task` carried, the list after is the list from before and
/// one task more, and that task has the new row's id, the texts of `task`
/// without the white space around them, its priority, and is open. Where no
/// two rows share an id, no task from before has the new task's id.
pub proof fn lemma_one_row_more_is_one_task_more(
    before: Seq<TaskRow>,
    row: TaskRow,
    task: TaskView,
    shown_before: Seq<TaskView>,
    shown_after: Seq<TaskView>,
)
    requires
        stand_for(before, shown_before),
        stand_for(before.push(row), shown_after),
        holds_inserted(row, insert_request(task)),
    ensures
        shown_after == shown_before.push(shown_after.last()),
        shown_after.last().id == row.id,
        shown_after.last().title == trimmed(task.title),
        shown_after.last().description == trimmed(task.description),
        shown_after.last().priority == task.priority,
        !shown_after.last().completed,
        distinct_ids(before.push(row)) ==> forall|i: int|
            0 <= i < shown_before.len() ==> (#[trigger] shown_before[i]).id != row.id,
{
    let after = before.push(row);
    assert(after[before.len() as int] == row);
    assert forall|i: int| 0 <= i < shown_before.len() implies shown_after[i]
        == shown_before[i] by {
        assert(after[i] == before[i]);
    }
    if distinct_ids(after) {
        assert forall|i: int| 0 <= i < shown_before.len() implies (#[trigger] shown_before[i]).id
            != row.id by {
            assert(after[i].id != after[before.len() as int].id);
        }
    }
}

/// Among rows of which none has the id, the id is not found: that is what a
/// lookup gives after SQLite has removed the row.
pub proof fn lemma_absent_id_is_not_found(rows: Seq<TaskRow>, id: int)
    requires
        forall|i: int| 0 <= i < rows.len() ==> (#[trigger] rows[i]).id != id,
    ensures
        first_with_id(rows, id) is None,
{
}

/// Whether the tasks come in the order of their priorities: highest first
/// where `descending`, lowest first otherwise.
pub fn in_priority_order(tasks: &Vec<Task>, descending: bool) -> (r: bool)
    ensures
        r == ordered_by_priority(task_views(tasks@), descending),
{
    if tasks.len() < 2 {
        return true;
    }
    let mut i: usize = 1;
    while i < tasks.len()
        invariant
            1 <= i <= tasks.len(),
            ordered_by_priority(task_views(tasks@).take(i as int), descending),
        decreases tasks.len() - i,
    {
        let before = tasks[i - 1].priority.to_usize();
        let here = tasks[i].priority.to_usize();
        let fits = if descending {
            before >= here
        } else {
            before <= here
        };
        let ghost views = task_views(tasks@);
        if !fits {
            assert(views[i - 1] == tasks[i - 1]@ && views[i as int] == tasks[i as int]@);
            return false;
        }
        assert forall|a: int, b: int| 0 <= a < b < i + 1 implies if descending {
            (#[trigger] views.take(i + 1)[a]).priority.code() >= (#[trigger] views.take(
                i + 1,
            )[b]).priority.code()
        } else {
            views.take(i + 1)[a].priority.code() <= views.take(i + 1)[b].priority.code()
        } by {
            let earlier = views.take(i as int);
            if b == i && a < i - 1 {
                assert(earlier[a] == views[a] && earlier[i - 1] == views[i - 1]);
            }
        }
        i += 1;
    }
    assert(task_views(tasks@).take(i as int) =~= task_views(tasks@));
    true
}

/// The tasks themselves where they come in the order of their priorities,
/// and a failure where they do not.
pub fn held_to_order(tasks: Vec<Task>, descending: bool) -> (r: Result<Vec<Task>, StoreError>)
    ensures
        match r {
            Ok(same) => same == tasks && ordered_by_priority(task_views(tasks@), descending),
            Err(e) => e is OutOfOrder && !ordered_by_priority(task_views(tasks@), descending),
        },
{
    if in_priority_order(&tasks, descending) {
        Ok(tasks)
    } else {
        Err(StoreError::OutOfOrder)
    }
}

/// The id of a new task, from the row id that SQLite chose for it.
pub fn assigned_id(rowid: i64) -> (r: Result<i32, StoreError>)
    ensures
        match r {
            Ok(id) => id == rowid,
            Err(e) => !(i32::MIN <= rowid <= i32::MAX) && e == (StoreError::IdOutOfRange { rowid }),
        },
{
    if rowid >= i32::MIN as i64 && rowid <= i32::MAX as i64 {
        Ok(rowid as i32)
    } else {
        Err(StoreError::IdOutOfRange { rowid })
    }
}

/// The task with the id `id` among the rows: the first such row counts.
pub fn task_with_id(rows: &Vec<TaskRow>, id: i32) -> (r: Result<Task, StoreError>)
    ensures
        match first_with_id(rows@, id as int) {
            Some(i) => match loaded_task(rows[i]) {
                Ok(v) => r matches Ok(task) && task@ == v && task@.id == id,
                Err(e) => r matches Err(f) && f == e,
            },
            None => r matches Err(f) && f == (StoreError::NotFound { id }),
        },
{
    let mut i: usize = 0;
    while i < rows.len()
        invariant
            i <= rows.len(),
            forall|j: int| 0 <= j < i ==> (#[trigger] rows[j]).id != id,
        decreases rows.len() - i,
    {
        if rows[i].id == id {
            assert(first_with_id(rows@, id as int) == Some(i as int));
            return Task::try_from(&rows[i]);
        }
        i += 1;
    }
    Err(StoreError::NotFound { id })
}

/// What the store reports after SQLite has answered a count: the number
/// itself, or the failure as one of the store's.
pub fn counted(outcome: Result<i64, rusqlite::Error>) -> (r: Result<i64, StoreError>)
    ensures
        match outcome {
            Ok(count) => r == Ok::<i64, StoreError>(count),
            Err(e) => r == Err::<i64, StoreError>(StoreError::Access(e)),
        },
{
    match outcome {
        Ok(count) => Ok(count),
        Err(e) => Err(StoreError::Access(e)),
    }
}

/// Where a path leads: to a database in memory where it is empty, else to
/// the database file at that path.
pub open spec fn location_of(path: Seq<char>) -> Option<Seq<char>> {
    if path.len() == 0 {
        None
    } else {
        Some(path)
    }
}

/// A connection to the table of tasks. For the proofs it remembers where it
/// was opened and which statements were handed to SQLite.
pub struct DB {
    connection: rusqlite::Connection,
    location: Ghost<Option<Seq<char>>>,
    issued: Ghost<Seq<Request>>,
}

impl DB {
    /// Where the database was opened: the path of its file, or none for a
    /// database in memory.
    pub closed spec fn location(&self) -> Option<Seq<char>> {
        self.location@
    }

    /// The statements and queries that were handed to SQLite since the
    /// database was opened, oldest first, whether they succeeded or not.
    pub closed spec fn issued(&self) -> Seq<Request> {
        self.issued@
    }

    /// Hands one statement to SQLite and records it.
    fn run(&mut self, sql: &'static str, params: Vec<SqlValue>) -> (r: Result<usize, StoreError>)
        ensures
            final(self).location() == old(self).location(),
            final(self).issued() == old(self).issued().push(
                Request { sql: sql@, params: value_views(params@) },
            ),
            r matches Err(e) ==> e is Access,
    {
        let outcome = execute(&self.connection, sql, &params);
        proof {
            self.issued = Ghost(
                self.issued@.push(Request { sql: sql@, params: value_views(params@) }),
            );
        }
        match outcome {
            Ok(changed) => Ok(changed),
            Err(e) => Err(StoreError::Access(e)),
        }
    }

    /// Hands one query for tasks to SQLite, records it, and gives the rows
    /// that came back.
    fn fetch(&mut self, sql: &'static str, params: Vec<SqlValue>) -> (r: Result<
        Vec<TaskRow>,
        StoreError,
    >)
        ensures
            final(self).location() == old(self).location(),
            final(self).issued() == old(self).issued().push(
                Request { sql: sql@, params: value_views(params@) },
            ),
            r matches Err(e) ==> e is Access,
    {
        let outcome = query_rows(&self.connection, sql, &params);
        proof {
            self.issued = Ghost(
                self.issued@.push(Request { sql: sql@, params: value_views(params@) }),
            );
        }
        match outcome {
            Ok(rows) => Ok(rows),
            Err(e) => Err(StoreError::Access(e)),
        }
    }

    /// Hands a query without parameters to SQLite and turns the rows that
    /// come back into tasks.
    fn load(&mut self, sql: &'static str) -> (r: Result<Vec<Task>, StoreError>)
        ensures
            final(self).location() == old(self).location(),
            final(self).issued() == old(self).issued().push(
                Request { sql: sql@, params: Seq::empty() },
            ),
            r matches Ok(tasks) ==> all_on_placeholder_day(task_views(tasks@)),
            r matches Err(e) ==> e is Access || e is BadPriority,
    {
        let params = Vec::new();
        proof {
            assert(value_views(params@) =~= Seq::<ValueView>::empty());
        }
        match self.fetch(sql, params) {
            Ok(rows) => tasks_from_rows(&rows),
            Err(e) => Err(e),
        }
    }

    /// Hands a query that orders by priority to SQLite and holds SQLite to
    /// that order.
    fn load_ordered(&mut self, sql: &'static str, descending: bool) -> (r: Result<
        Vec<Task>,
        StoreError,
    >)
        ensures
            final(self).location() == old(self).location(),
            final(self).issued() == old(self).issued().push(
                Request { sql: sql@, params: Seq::empty() },
            ),
            match r {
                Ok(tasks) => {
                    &&& all_on_placeholder_day(task_views(tasks@))
                    &&& ordered_by_priority(task_views(tasks@), descending)
                },
                Err(e) => e is Access || e is BadPriority || e is OutOfOrder,
            },
    {
        match self.load(sql) {
            Ok(tasks) => held_to_order(tasks, descending),
            Err(e) => Err(e),
        }
    }

    /// Opens the database file at `path`, or a database in memory where
    /// `path` is empty, and makes sure that it has the table of tasks.
    pub fn create_and_return_connection(path: &str) -> (r: Result<DB, StoreError>)
        ensures
            r matches Ok(db) ==> db.location() == location_of(path@),
            r matches Ok(db) ==> db.issued() == seq![create_table_request()],
            r matches Err(e) ==> e is Access,
    {
        if path.is_empty() {
            DB::opened(open_memory(), Ghost(None))
        } else {
            DB::opened(open_file(path), Ghost(Some(path@)))
        }
    }

    /// The store on a connection that was opened at `location`, once it has
    /// the table of tasks; the failure where the opening failed.
    fn opened(
        connection: Result<rusqlite::Connection, rusqlite::Error>,
        Ghost(location): Ghost<Option<Seq<char>>>,
    ) -> (r: Result<DB, StoreError>)
        ensures
            r matches Ok(db) ==> db.location() == location,
            r matches Ok(db) ==> db.issued() == seq![create_table_request()],
            r matches Err(e) ==> e is Access,
            connection is Err ==> r is Err,
    {
        match connection {
            Ok(connection) => {
                let mut db = DB {
                    connection,
                    location: Ghost(location),
                    issued: Ghost(Seq::empty()),
                };
                match db.init() {
                    Ok(()) => Ok(db),
                    Err(e) => Err(e),
                }
            },
            Err(e) => Err(StoreError::Access(e)),
        }
    }

    /// Creates the table of tasks unless it is there.
    fn init(&mut self) -> (r: Result<(), StoreError>)
        ensures
            final(self).location() == old(self).location(),
            final(self).issued() == old(self).issued().push(create_table_request()),
            r matches Err(e) ==> e is Access,
    {
        let params = Vec::new();
        proof {
            assert(value_views(params@) =~= create_table_request().params);
        }
        match self.run(CREATE_TABLE, params) {
            Ok(_) => Ok(()),
            Err(e) => Err(e),
        }
    }

    /// Stores a new task and returns the id that SQLite gave it.
    pub fn insert_task(&mut self, task: &Task) -> (r: Result<i32, StoreError>)
        ensures
            final(self).location() == old(self).location(),
            final(self).issued() == old(self).issued().push(insert_request(task@)),
            r matches Err(e) ==> e is Access || e is IdOutOfRange,
    {
        let mut params = Vec::new();
        params.push(SqlValue::Text(trim_text(&task.title)));
        params.push(SqlValue::Text(trim_text(&task.description)));
        params.push(SqlValue::Integer(task.priority.to_usize() as i64));
        proof {
            assert(value_views(params@) =~= insert_request(task@).params);
        }
        match self.run(INSERT_TASK, params) {
            Ok(_) => assigned_id(last_insert_rowid(&self.connection)),
            Err(e) => Err(e),
        }
    }

    /// Asks SQLite for every task and gives what it answers, in its order.
    pub fn get_all_tasks(&mut self) -> (r: Result<Vec<Task>, StoreError>)
        ensures
            final(self).location() == old(self).location(),
            final(self).issued() == old(self).issued().push(select_all_request()),
            r matches Ok(tasks) ==> all_on_placeholder_day(task_views(tasks@)),
            r matches Err(e) ==> e is Access || e is BadPriority,
    {
        self.load(SELECT_ALL)
    }

    /// Asks SQLite for the task with the id `task_id`.
    pub fn get_task_by_id(&mut self, task_id: i32) -> (r: Result<Task, StoreError>)
        ensures
            final(self).location() == old(self).location(),
            final(self).issued() == old(self).issued().push(select_by_id_request(task_id as int)),
            r matches Ok(task) ==> task@.id == task_id && task@.date == Some(placeholder_day()),
            r matches Err(e) ==> e is Access || e is BadPriority || e == (StoreError::NotFound {
                id: task_id,
            }),
    {
        let mut params = Vec::new();
        params.push(SqlValue::Integer(task_id as i64));
        proof {
            assert(value_views(params@) =~= select_by_id_request(task_id as int).params);
        }
        match self.fetch(SELECT_BY_ID, params) {
            Ok(rows) => task_with_id(&rows, task_id),
            Err(e) => Err(e),
        }
    }

    /// Asks SQLite for every task, those of the highest priority first, and
    /// gives what it answers where that is in this order.
    pub fn get_all_task_by_highest_priority(&mut self) -> (r: Result<Vec<Task>, StoreError>)
        ensures
            final(self).location() == old(self).location(),
            final(self).issued() == old(self).issued().push(select_ordered_request(true)),
            match r {
                Ok(tasks) => {
                    &&& all_on_placeholder_day(task_views(tasks@))
                    &&& ordered_by_priority(task_views(tasks@), true)
                },
                Err(e) => e is Access || e is BadPriority || e is OutOfOrder,
            },
    {
        self.load_ordered(SELECT_HIGHEST_FIRST, true)
    }

    /// Asks SQLite for every task, those of the lowest priority first, and
    /// gives what it answers where that is in this order.
    pub fn get_all_task_by_lowest_priority(&mut self) -> (r: Result<Vec<Task>, StoreError>)
        ensures
            final(self).location() == old(self).location(),
            final(self).issued() == old(self).issued().push(select_ordered_request(false)),
            match r {
                Ok(tasks) => {
                    &&& all_on_placeholder_day(task_views(tasks@))
                    &&& ordered_by_priority(task_views(tasks@), false)
                },
                Err(e) => e is Access || e is BadPriority || e is OutOfOrder,
            },
    {
        self.load_ordered(SELECT_LOWEST_FIRST, false)
    }

    /// Marks the stored task `task_id` as completed or open and returns how
    /// many rows SQLite changed.
    pub fn toggle_task_completed(&mut self, task_id: i32, completed: bool) -> (r: Result<
        usize,
        StoreError,
    >)
        ensures
            final(self).location() == old(self).location(),
            final(self).issued() == old(self).issued().push(
                completed_request(task_id as int, completed),
            ),
            r matches Err(e) ==> e is Access,
    {
        let flag: i64 = match completed {
            true => 1,
            false => 0,
        };
        let mut params = Vec::new();
        params.push(SqlValue::Integer(task_id as i64));
        params.push(SqlValue::Integer(flag));
        proof {
            assert(value_views(params@) =~= completed_request(task_id as int, completed).params);
        }
        self.run(UPDATE_COMPLETED, params)
    }

    /// Gives the stored task `task_id` another priority and returns how many
    /// rows SQLite changed.
    pub fn update_task_priority(&mut self, task_id: i32, priority: Priority) -> (r: Result<
        usize,
        StoreError,
    >)
        ensures
            final(self).location() == old(self).location(),
            final(self).issued() == old(self).issued().push(
                priority_request(task_id as int, priority),
            ),
            r matches Err(e) ==> e is Access,
    {
        let mut params = Vec::new();
        params.push(SqlValue::Integer(task_id as i64));
        params.push(SqlValue::Integer(priority.to_usize() as i64));
        proof {
            assert(value_views(params@) =~= priority_request(task_id as int, priority).params);
        }
        self.run(UPDATE_PRIORITY, params)
    }

    /// Overwrites the texts of the stored task that has `task`'s id and
    /// returns how many rows SQLite changed.
    pub fn update_task(&mut self, task: &Task) -> (r: Result<usize, StoreError>)
        ensures
            final(self).location() == old(self).location(),
            final(self).issued() == old(self).issued().push(texts_request(task@)),
            r matches Err(e) ==> e is Access,
    {
        let mut params = Vec::new();
        params.push(SqlValue::Integer(task.id as i64));
        params.push(SqlValue::Text(trim_text(&task.title)));
        params.push(SqlValue::Text(trim_text(&task.description)));
        proof {
            assert(value_views(params@) =~= texts_request(task@).params);
        }
        self.run(UPDATE_TEXTS, params)
    }

    /// Removes the stored task `task_id` and returns how many rows SQLite
    /// removed.
    pub fn delete_task(&mut self, task_id: i32) -> (r: Result<usize, StoreError>)
        ensures
            final(self).location() == old(self).location(),
            final(self).issued() == old(self).issued().push(delete_request(task_id as int)),
            r matches Err(e) ==> e is Access,
    {
        let mut params = Vec::new();
        params.push(SqlValue::Integer(task_id as i64));
        proof {
            assert(value_views(params@) =~= delete_request(task_id as int).params);
        }
        self.run(DELETE_TASK, params)
    }

    /// Asks SQLite how many tasks are stored and gives the number that it
    /// answers.
    pub fn get_record_count(&mut self) -> (r: Result<i64, StoreError>)
        ensures
            final(self).location() == old(self).location(),
            final(self).issued() == old(self).issued().push(count_request()),
            r matches Err(e) ==> e is Access,
    {
        let outcome = query_integer(&self.connection, COUNT_TASKS);
        proof {
            self.issued = Ghost(self.issued@.push(count_request()));
        }
        counted(outcome)
    }

    /// Removes every stored task and returns how many rows SQLite removed.
    pub fn clear(&mut self) -> (r: Result<usize, StoreError>)
        ensures
            final(self).location() == old(self).location(),
            final(self).issued() == old(self).issued().push(clear_request()),
            r matches Err(e) ==> e is Access,
    {
        let params = Vec::new();
        proof {
            assert(value_views(params@) =~= clear_request().params);
        }
        self.run(DELETE_ALL, params)
    }
}

} // verus!
