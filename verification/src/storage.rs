//! The storage procedures: which SQL statements each one runs against the
//! SQLite store, in which order, with which parameters, and what it gives
//! back.
//!
//! A procedure starts with the function of its name, which gives the first
//! [`Task`] and the first [`StorageAction`]. The caller runs each statement
//! on its connection, reports the outcome as an [`Event`] to
//! [`storage_step`], and repeats until the action is
//! [`StorageAction::Finish`], whose event is the procedure's result.

use vstd::prelude::*;
use crate::decimal::{format_i32, int_text};
use crate::paging::{page_offset, page_start};
use crate::routes::{Event, EventView};

verus! {

/// Creates the table of short URIs.
pub const CREATE_URI_MAP: &'static str = "CREATE TABLE IF NOT EXISTS uri_map (
                s_uri INTEGER NOT NULL PRIMARY KEY,
                r_uri TEXT(2048) NOT NULL
            )";
/// Creates the table of visits.
pub const CREATE_URI_DETAILS: &'static str = "CREATE TABLE IF NOT EXISTS uri_details (
                s_uri INT NOT NULL,
                client_ip TEXT(128) NOT NULL,
                time TIMESTAMP NOT NULL DEFAULT CURRENT_TIMESTAMP,
                FOREIGN KEY(s_uri) REFERENCES uri_map(s_uri)
            )";
/// Reads the real URI of a short URI.
pub const SELECT_REAL_URI: &'static str = "SELECT r_uri FROM  uri_map WHERE s_uri = ?1";
/// Stores a real URI under a new row id.
pub const INSERT_REAL_URI: &'static str = "INSERT INTO uri_map (r_uri) VALUES (?1)";
/// Reads the row id of the last insert on the connection.
pub const SELECT_LAST_ROW_ID: &'static str = "SELECT last_insert_rowid()";
/// Removes a short URI.
pub const DELETE_MAPPING: &'static str = "DELETE FROM uri_map WHERE s_uri = ?1";
/// Removes the visits of a short URI.
pub const DELETE_DETAILS: &'static str = "DELETE FROM uri_details WHERE s_uri = ?1";
/// Records a visit.
pub const INSERT_DETAIL: &'static str = "INSERT INTO uri_details (s_uri, client_ip) VALUES (?1, ?2)";
/// Reads one page of the visits of a short URI, oldest first.
pub const SELECT_DETAILS: &'static str =
    "SELECT s_uri, client_ip, time FROM uri_details WHERE s_uri = ?1 ORDER BY time LIMIT ?2 OFFSET ?3";

/// A parameter of a statement.
pub enum SqlValue {
    Text(String),
    /// A count, bound as a SQLite integer (an error of the statement where
    /// it exceeds `i64::MAX`).
    Count(usize),
}

pub enum SqlValueView {
    Text(Seq<char>),
    Count(usize),
}

impl View for SqlValue {
    type V = SqlValueView;

    open spec fn view(&self) -> SqlValueView {
        match self {
            SqlValue::Text(t) => SqlValueView::Text(t@),
            SqlValue::Count(n) => SqlValueView::Count(*n),
        }
    }
}

/// What running a statement yields, and so how to run it.
#[derive(Clone, Copy, Debug, PartialEq, Eq, Structural)]
pub enum Yields {
    /// Nothing: its outcome is [`Event::Ready`].
    Nothing,
    /// The text of the first column of its one row: [`Event::Text`].
    OneText,
    /// The integer of the first column of its one row: [`Event::RowId`].
    OneRowId,
    /// All its rows of (integer, text, text): [`Event::Rows`].
    AllRows,
}

/// A statement to run, with its parameters in order (`?1`, `?2`, ...).
pub struct Statement {
    pub sql: String,
    pub params: Vec<SqlValue>,
    pub yields: Yields,
}

pub struct StatementView {
    pub sql: Seq<char>,
    pub params: Seq<SqlValueView>,
    pub yields: Yields,
}

impl View for Statement {
    type V = StatementView;

    open spec fn view(&self) -> StatementView {
        StatementView {
            sql: self.sql@,
            params: self.params@.map_values(|v: SqlValue| v@),
            yields: self.yields,
        }
    }
}

/// What a procedure asks for next.
pub enum StorageAction {
    /// Run this statement.
    Run(Statement),
    /// The procedure is done, with this result.
    Finish(Event),
}

pub enum StorageActionView {
    Run(StatementView),
    Finish(EventView),
}

impl View for StorageAction {
    type V = StorageActionView;

    open spec fn view(&self) -> StorageActionView {
        match self {
            StorageAction::Run(s) => StorageActionView::Run(s@),
            StorageAction::Finish(e) => StorageActionView::Finish(e@),
        }
    }
}

/// Where a procedure stands, and what it still needs.
pub enum Task {
    /// `setup_table`: creating the table of short URIs.
    CreatingUriMap,
    /// `setup_table`: creating the table of visits.
    CreatingUriDetails,
    /// `fetch_real_uri`: reading the real URI.
    FetchingRealUri { s_uri: String },
    /// `add_real_uri`: storing the real URI.
    InsertingRealUri { r_uri: String },
    /// `add_real_uri`: reading the row id it was stored under.
    ReadingRowId,
    /// `delete_short_uri`: removing the short URI.
    DeletingMapping { s_uri: String },
    /// `delete_short_uri`: removing its visits.
    DeletingDetails { s_uri: String },
    /// `add_detail`: recording the visit.
    AddingDetail { s_uri: String, client_ip: String },
    /// `get_details`: reading the page of visits.
    GettingDetails { s_uri: String, limit: usize, offset: usize },
    /// The procedure has its result.
    Done,
}

pub enum TaskView {
    CreatingUriMap,
    CreatingUriDetails,
    FetchingRealUri { s_uri: Seq<char> },
    InsertingRealUri { r_uri: Seq<char> },
    ReadingRowId,
    DeletingMapping { s_uri: Seq<char> },
    DeletingDetails { s_uri: Seq<char> },
    AddingDetail { s_uri: Seq<char>, client_ip: Seq<char> },
    GettingDetails { s_uri: Seq<char>, limit: usize, offset: usize },
    Done,
}

impl View for Task {
    type V = TaskView;

    open spec fn view(&self) -> TaskView {
        match self {
            Task::CreatingUriMap => TaskView::CreatingUriMap,
            Task::CreatingUriDetails => TaskView::CreatingUriDetails,
            Task::FetchingRealUri { s_uri } => TaskView::FetchingRealUri { s_uri: s_uri@ },
            Task::InsertingRealUri { r_uri } => TaskView::InsertingRealUri { r_uri: r_uri@ },
            Task::ReadingRowId => TaskView::ReadingRowId,
            Task::DeletingMapping { s_uri } => TaskView::DeletingMapping { s_uri: s_uri@ },
            Task::DeletingDetails { s_uri } => TaskView::DeletingDetails { s_uri: s_uri@ },
            Task::AddingDetail { s_uri, client_ip } =>
                TaskView::AddingDetail { s_uri: s_uri@, client_ip: client_ip@ },
            Task::GettingDetails { s_uri, limit, offset } =>
                TaskView::GettingDetails { s_uri: s_uri@, limit: *limit, offset: *offset },
            Task::Done => TaskView::Done,
        }
    }
}

/// A statement, as the procedures state it.
pub open spec fn statement(sql: Seq<char>, params: Seq<SqlValueView>, yields: Yields) -> StorageActionView {
    StorageActionView::Run(StatementView { sql, params, yields })
}

/// The statement that task `t` waits on.
pub open spec fn task_statement(t: TaskView) -> StorageActionView {
    match t {
        TaskView::CreatingUriMap => statement(CREATE_URI_MAP@, seq![], Yields::Nothing),
        TaskView::CreatingUriDetails => statement(CREATE_URI_DETAILS@, seq![], Yields::Nothing),
        TaskView::FetchingRealUri { s_uri } =>
            statement(SELECT_REAL_URI@, seq![SqlValueView::Text(s_uri)], Yields::OneText),
        TaskView::InsertingRealUri { r_uri } =>
            statement(INSERT_REAL_URI@, seq![SqlValueView::Text(r_uri)], Yields::Nothing),
        TaskView::ReadingRowId => statement(SELECT_LAST_ROW_ID@, seq![], Yields::OneRowId),
        TaskView::DeletingMapping { s_uri } =>
            statement(DELETE_MAPPING@, seq![SqlValueView::Text(s_uri)], Yields::Nothing),
        TaskView::DeletingDetails { s_uri } =>
            statement(DELETE_DETAILS@, seq![SqlValueView::Text(s_uri)], Yields::Nothing),
        TaskView::AddingDetail { s_uri, client_ip } => statement(
            INSERT_DETAIL@,
            seq![SqlValueView::Text(s_uri), SqlValueView::Text(client_ip)],
            Yields::Nothing,
        ),
        TaskView::GettingDetails { s_uri, limit, offset } => statement(
            SELECT_DETAILS@,
            seq![SqlValueView::Text(s_uri), SqlValueView::Count(limit), SqlValueView::Count(offset)],
            Yields::AllRows,
        ),
        TaskView::Done => StorageActionView::Finish(EventView::Ready),
    }
}

/// Whether `e` is an outcome of the statement that task `t` waits on: a
/// failure, or what its [`Yields`] names.
pub open spec fn statement_answered(t: TaskView, e: EventView) -> bool {
    match task_statement(t) {
        StorageActionView::Run(st) => match e {
            EventView::Failed(_) => true,
            EventView::Ready => st.yields == Yields::Nothing,
            EventView::Text(_) => st.yields == Yields::OneText,
            EventView::RowId(_) => st.yields == Yields::OneRowId,
            EventView::Rows(_) => st.yields == Yields::AllRows,
        },
        StorageActionView::Finish(_) => false,
    }
}

pub open spec fn finish_with(e: EventView) -> (TaskView, StorageActionView) {
    (TaskView::Done, StorageActionView::Finish(e))
}

/// The next task and action of a procedure at task `t` on outcome `e`: an
/// outcome that does not answer the pending statement leaves the task as
/// it is and asks for that statement again; a failed statement ends the
/// procedure with that failure; a statement that succeeds moves it on.
pub open spec fn storage_next(t: TaskView, e: EventView) -> (TaskView, StorageActionView) {
    if !statement_answered(t, e) {
        (t, task_statement(t))
    } else if e is Failed {
        finish_with(e)
    } else {
        match t {
            TaskView::CreatingUriMap => (TaskView::CreatingUriDetails, task_statement(TaskView::CreatingUriDetails)),
            TaskView::InsertingRealUri { .. } => (TaskView::ReadingRowId, task_statement(TaskView::ReadingRowId)),
            TaskView::ReadingRowId => match e {
                EventView::RowId(n) => finish_with(EventView::Text(int_text(n as int))),
                _ => (t, task_statement(t)),
            },
            TaskView::DeletingMapping { s_uri } => (
                TaskView::DeletingDetails { s_uri },
                task_statement(TaskView::DeletingDetails { s_uri }),
            ),
            // The other statements are the last of their procedure, whose
            // result is what the statement gave.
            _ => finish_with(e),
        }
    }
}

fn text(s: &'static str) -> (r: String)
    ensures
        r@ == s@,
{
    String::from_str(s)
}

fn run(sql: &'static str, params: Vec<SqlValue>, yields: Yields) -> (a: StorageAction)
    ensures
        a@ == statement(sql@, params@.map_values(|v: SqlValue| v@), yields),
{
    StorageAction::Run(Statement { sql: text(sql), params, yields })
}

fn one_text(s: &String) -> (r: Vec<SqlValue>)
    ensures
        r@.map_values(|v: SqlValue| v@) == seq![SqlValueView::Text(s@)],
{
    let mut r: Vec<SqlValue> = Vec::new();
    r.push(SqlValue::Text(s.clone()));
    assert(r@.map_values(|v: SqlValue| v@) =~= seq![SqlValueView::Text(s@)]);
    r
}

fn no_params() -> (r: Vec<SqlValue>)
    ensures
        r@.map_values(|v: SqlValue| v@) == Seq::<SqlValueView>::empty(),
{
    let r: Vec<SqlValue> = Vec::new();
    assert(r@.map_values(|v: SqlValue| v@) =~= Seq::<SqlValueView>::empty());
    r
}

fn task_action(t: &Task) -> (a: StorageAction)
    ensures
        a@ == task_statement(t@),
{
    match t {
        Task::CreatingUriMap => run(CREATE_URI_MAP, no_params(), Yields::Nothing),
        Task::CreatingUriDetails => run(CREATE_URI_DETAILS, no_params(), Yields::Nothing),
        Task::FetchingRealUri { s_uri } => run(SELECT_REAL_URI, one_text(s_uri), Yields::OneText),
        Task::InsertingRealUri { r_uri } => run(INSERT_REAL_URI, one_text(r_uri), Yields::Nothing),
        Task::ReadingRowId => run(SELECT_LAST_ROW_ID, no_params(), Yields::OneRowId),
        Task::DeletingMapping { s_uri } => run(DELETE_MAPPING, one_text(s_uri), Yields::Nothing),
        Task::DeletingDetails { s_uri } => run(DELETE_DETAILS, one_text(s_uri), Yields::Nothing),
        Task::AddingDetail { s_uri, client_ip } => {
            let mut params: Vec<SqlValue> = Vec::new();
            params.push(SqlValue::Text(s_uri.clone()));
            params.push(SqlValue::Text(client_ip.clone()));
            assert(params@.map_values(|v: SqlValue| v@)
                =~= seq![SqlValueView::Text(s_uri@), SqlValueView::Text(client_ip@)]);
            run(INSERT_DETAIL, params, Yields::Nothing)
        },
        Task::GettingDetails { s_uri, limit, offset } => {
            let mut params: Vec<SqlValue> = Vec::new();
            params.push(SqlValue::Text(s_uri.clone()));
            params.push(SqlValue::Count(*limit));
            params.push(SqlValue::Count(*offset));
            assert(params@.map_values(|v: SqlValue| v@) =~= seq![
                SqlValueView::Text(s_uri@),
                SqlValueView::Count(*limit),
                SqlValueView::Count(*offset),
            ]);
            run(SELECT_DETAILS, params, Yields::AllRows)
        },
        Task::Done => StorageAction::Finish(Event::Ready),
    }
}

fn returns_of(t: &Task) -> (r: Option<Yields>)
    ensures
        match task_statement(t@) {
            StorageActionView::Run(st) => r == Some(st.yields),
            StorageActionView::Finish(_) => r is None,
        },
{
    match t {
        Task::FetchingRealUri { .. } => Some(Yields::OneText),
        Task::ReadingRowId => Some(Yields::OneRowId),
        Task::GettingDetails { .. } => Some(Yields::AllRows),
        Task::Done => None,
        _ => Some(Yields::Nothing),
    }
}

fn answered_exec(t: &Task, e: &Event) -> (b: bool)
    ensures
        b == statement_answered(t@, e@),
{
    match returns_of(t) {
        None => false,
        Some(yields) => match e {
            Event::Failed(_) => true,
            Event::Ready => yields == Yields::Nothing,
            Event::Text(_) => yields == Yields::OneText,
            Event::RowId(_) => yields == Yields::OneRowId,
            Event::Rows(_) => yields == Yields::AllRows,
        },
    }
}

fn finish(e: Event) -> (out: (Task, StorageAction))
    ensures
        (out.0@, out.1@) == finish_with(e@),
{
    (Task::Done, StorageAction::Finish(e))
}

/// Takes a procedure one step on: given the outcome `event` of the statement
/// that `task` waits on, gives the next task and action, as
/// [`storage_next`] states.
pub fn storage_step(task: Task, event: Event) -> (out: (Task, StorageAction))
    requires
        !(task is Done),
    ensures
        (out.0@, out.1@) == storage_next(task@, event@),
{
    if !answered_exec(&task, &event) {
        let action = task_action(&task);
        return (task, action);
    }
    if let Event::Failed(_) = event {
        return finish(event);
    }
    match task {
        Task::CreatingUriMap => {
            let next = Task::CreatingUriDetails;
            let action = task_action(&next);
            (next, action)
        },
        Task::InsertingRealUri { .. } => {
            let next = Task::ReadingRowId;
            let action = task_action(&next);
            (next, action)
        },
        Task::ReadingRowId => match event {
            Event::RowId(n) => finish(Event::Text(format_i32(n))),
            _ => {
                proof { assert(false); }
                finish(event)
            },
        },
        Task::DeletingMapping { s_uri } => {
            let next = Task::DeletingDetails { s_uri };
            let action = task_action(&next);
            (next, action)
        },
        _ => finish(event),
    }
}

/// Starts creating the two tables, short URIs first, each unless it exists.
pub fn setup_table() -> (out: (Task, StorageAction))
    ensures
        out.0@ == TaskView::CreatingUriMap,
        out.1@ == task_statement(TaskView::CreatingUriMap),
{
    let t = Task::CreatingUriMap;
    let a = task_action(&t);
    (t, a)
}

/// Starts reading the real URI stored under `s_uri`.
pub fn fetch_real_uri(s_uri: String) -> (out: (Task, StorageAction))
    ensures
        out.0@ == (TaskView::FetchingRealUri { s_uri: s_uri@ }),
        out.1@ == task_statement(TaskView::FetchingRealUri { s_uri: s_uri@ }),
{
    let t = Task::FetchingRealUri { s_uri };
    let a = task_action(&t);
    (t, a)
}

/// Starts storing `r_uri`; the result is the decimal text of the row id it
/// was stored under, its short URI.
pub fn add_real_uri(r_uri: String) -> (out: (Task, StorageAction))
    ensures
        out.0@ == (TaskView::InsertingRealUri { r_uri: r_uri@ }),
        out.1@ == task_statement(TaskView::InsertingRealUri { r_uri: r_uri@ }),
{
    let t = Task::InsertingRealUri { r_uri };
    let a = task_action(&t);
    (t, a)
}

/// Starts removing the short URI `s_uri`, then its visits.
pub fn delete_short_uri(s_uri: String) -> (out: (Task, StorageAction))
    ensures
        out.0@ == (TaskView::DeletingMapping { s_uri: s_uri@ }),
        out.1@ == task_statement(TaskView::DeletingMapping { s_uri: s_uri@ }),
{
    let t = Task::DeletingMapping { s_uri };
    let a = task_action(&t);
    (t, a)
}

/// Starts recording a visit of `s_uri` by the client at `client_ip`.
pub fn add_detail(s_uri: String, client_ip: String) -> (out: (Task, StorageAction))
    ensures
        out.0@ == (TaskView::AddingDetail { s_uri: s_uri@, client_ip: client_ip@ }),
        out.1@ == task_statement(TaskView::AddingDetail { s_uri: s_uri@, client_ip: client_ip@ }),
{
    let t = Task::AddingDetail { s_uri, client_ip };
    let a = task_action(&t);
    (t, a)
}

/// Starts reading page `page` (from 1) of the visits of `s_uri`,
/// `page_size` to a page, oldest first.
pub fn get_details(s_uri: String, page: usize, page_size: usize) -> (out: (Task, StorageAction))
    requires
        page >= 1,
        page_start(page as nat, page_size as nat) <= usize::MAX,
    ensures
        out.0@ == (TaskView::GettingDetails {
            s_uri: s_uri@,
            limit: page_size,
            offset: page_start(page as nat, page_size as nat) as usize,
        }),
        out.1@ == task_statement(out.0@),
{
    let offset = page_offset(page, page_size);
    let t = Task::GettingDetails { s_uri, limit: page_size, offset };
    let a = task_action(&t);
    (t, a)
}

} // verus!
