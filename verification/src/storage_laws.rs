//! What holds of the storage procedures: the statements each runs, in
//! order, with which parameters, and what each gives back.

use vstd::prelude::*;
use crate::decimal::{int_text, lemma_int_text_is_display, parse_usize_spec};
use crate::paging::page_start;
use crate::storage::{
    statement_answered, storage_next, task_statement, SqlValueView, StatementView, StorageActionView,
    TaskView, Yields, CREATE_URI_DETAILS, CREATE_URI_MAP, DELETE_DETAILS, DELETE_MAPPING, INSERT_DETAIL,
    INSERT_REAL_URI, SELECT_DETAILS, SELECT_LAST_ROW_ID, SELECT_REAL_URI,
};
use crate::routes::EventView;

verus! {

/// How many answered statements a procedure at task `t` is at most away
/// from its result.
pub open spec fn task_rank(t: TaskView) -> nat {
    match t {
        TaskView::CreatingUriMap => 2,
        TaskView::InsertingRealUri { .. } => 2,
        TaskView::DeletingMapping { .. } => 2,
        TaskView::Done => 0,
        _ => 1,
    }
}

/// Every outcome that answers the pending statement brings the procedure
/// strictly closer to its result (two statements at most); any other
/// outcome leaves the task as it was and asks for the same statement again;
/// a step gives the result exactly when it ends the procedure.
pub proof fn lemma_storage_progress(t: TaskView, e: EventView)
    requires
        !(t is Done),
    ensures
        statement_answered(t, e) ==> task_rank(storage_next(t, e).0) < task_rank(t),
        !statement_answered(t, e) ==> storage_next(t, e) == (t, task_statement(t)),
        (storage_next(t, e).1 is Finish) <==> (storage_next(t, e).0 is Done),
        task_rank(t) <= 2,
{
}

/// A failed statement ends its procedure at once, with that very failure
/// as the result: no later statement runs.
pub proof fn lemma_failed_statement_ends_procedure(t: TaskView, m: Seq<char>)
    requires
        !(t is Done),
    ensures
        storage_next(t, EventView::Failed(m))
            == (TaskView::Done, StorageActionView::Finish(EventView::Failed(m))),
{
}

/// Setting up creates the table of short URIs, then the table of visits,
/// neither with parameters, and succeeds when both statements do.
pub proof fn lemma_setup_creates_both_tables()
    ensures
        task_statement(TaskView::CreatingUriMap) == StorageActionView::Run(
            StatementView { sql: CREATE_URI_MAP@, params: Seq::<SqlValueView>::empty(), yields: Yields::Nothing },
        ),
        storage_next(TaskView::CreatingUriMap, EventView::Ready) == (
            TaskView::CreatingUriDetails,
            StorageActionView::Run(
                StatementView {
                    sql: CREATE_URI_DETAILS@,
                    params: Seq::<SqlValueView>::empty(),
                    yields: Yields::Nothing,
                },
            ),
        ),
        storage_next(TaskView::CreatingUriDetails, EventView::Ready)
            == (TaskView::Done, StorageActionView::Finish(EventView::Ready)),
{
    assert(seq![] =~= Seq::<SqlValueView>::empty());
}

/// Reading a short URI runs one query, with that short URI as its only
/// parameter, and gives back exactly the text the query read.
pub proof fn lemma_fetch_reads_one_uri(s_uri: Seq<char>, r_uri: Seq<char>)
    ensures
        task_statement(TaskView::FetchingRealUri { s_uri }) == StorageActionView::Run(
            StatementView {
                sql: SELECT_REAL_URI@,
                params: seq![SqlValueView::Text(s_uri)],
                yields: Yields::OneText,
            },
        ),
        storage_next(TaskView::FetchingRealUri { s_uri }, EventView::Text(r_uri))
            == (TaskView::Done, StorageActionView::Finish(EventView::Text(r_uri))),
{
}

/// Storing a real URI inserts exactly it, then reads the row id of that
/// insert, and gives back the row id written in decimal: text that reads
/// back as the row id (when it is not negative).
pub proof fn lemma_add_gives_row_id_text(r_uri: Seq<char>, row_id: i32)
    ensures
        task_statement(TaskView::InsertingRealUri { r_uri }) == StorageActionView::Run(
            StatementView {
                sql: INSERT_REAL_URI@,
                params: seq![SqlValueView::Text(r_uri)],
                yields: Yields::Nothing,
            },
        ),
        storage_next(TaskView::InsertingRealUri { r_uri }, EventView::Ready) == (
            TaskView::ReadingRowId,
            StorageActionView::Run(
                StatementView {
                    sql: SELECT_LAST_ROW_ID@,
                    params: Seq::<SqlValueView>::empty(),
                    yields: Yields::OneRowId,
                },
            ),
        ),
        storage_next(TaskView::ReadingRowId, EventView::RowId(row_id))
            == (TaskView::Done, StorageActionView::Finish(EventView::Text(int_text(row_id as int)))),
        row_id >= 0 ==> parse_usize_spec(int_text(row_id as int)) == Some(row_id as usize),
{
    assert(seq![] =~= Seq::<SqlValueView>::empty());
    lemma_int_text_is_display(row_id);
}

/// Deleting removes the short URI, then its visits, both by exactly that
/// short URI, and succeeds when both statements do; if removing the short
/// URI fails, its visits are left alone.
pub proof fn lemma_delete_removes_mapping_then_details(s_uri: Seq<char>, m: Seq<char>)
    ensures
        task_statement(TaskView::DeletingMapping { s_uri }) == StorageActionView::Run(
            StatementView {
                sql: DELETE_MAPPING@,
                params: seq![SqlValueView::Text(s_uri)],
                yields: Yields::Nothing,
            },
        ),
        storage_next(TaskView::DeletingMapping { s_uri }, EventView::Ready) == (
            TaskView::DeletingDetails { s_uri },
            StorageActionView::Run(
                StatementView {
                    sql: DELETE_DETAILS@,
                    params: seq![SqlValueView::Text(s_uri)],
                    yields: Yields::Nothing,
                },
            ),
        ),
        storage_next(TaskView::DeletingDetails { s_uri }, EventView::Ready)
            == (TaskView::Done, StorageActionView::Finish(EventView::Ready)),
        storage_next(TaskView::DeletingMapping { s_uri }, EventView::Failed(m))
            == (TaskView::Done, StorageActionView::Finish(EventView::Failed(m))),
{
}

/// Recording a visit runs one insert whose parameters are exactly the
/// short URI and the client's address, in that order.
pub proof fn lemma_add_detail_inserts_visit(s_uri: Seq<char>, client_ip: Seq<char>)
    ensures
        task_statement(TaskView::AddingDetail { s_uri, client_ip }) == StorageActionView::Run(
            StatementView {
                sql: INSERT_DETAIL@,
                params: seq![SqlValueView::Text(s_uri), SqlValueView::Text(client_ip)],
                yields: Yields::Nothing,
            },
        ),
        storage_next(TaskView::AddingDetail { s_uri, client_ip }, EventView::Ready)
            == (TaskView::Done, StorageActionView::Finish(EventView::Ready)),
{
}

/// Reading page `page` of the visits runs one query limited to `page_size`
/// rows that skips the `(page - 1) * page_size` rows of the earlier pages,
/// and gives back exactly the rows the query read.
pub proof fn lemma_get_details_reads_page(
    s_uri: Seq<char>,
    page: usize,
    page_size: usize,
    rows: Seq<(i32, Seq<char>, Seq<char>)>,
)
    requires
        page >= 1,
        page_start(page as nat, page_size as nat) <= usize::MAX,
    ensures
        ({
            let offset = ((page - 1) * page_size) as usize;
            let t = TaskView::GettingDetails { s_uri, limit: page_size, offset };
            &&& page_start(page as nat, page_size as nat) == (page - 1) * page_size
            &&& task_statement(t) == StorageActionView::Run(
                StatementView {
                    sql: SELECT_DETAILS@,
                    params: seq![
                        SqlValueView::Text(s_uri),
                        SqlValueView::Count(page_size),
                        SqlValueView::Count(offset),
                    ],
                    yields: Yields::AllRows,
                },
            )
            &&& storage_next(t, EventView::Rows(rows))
                == (TaskView::Done, StorageActionView::Finish(EventView::Rows(rows)))
        }),
{
}

/// An outcome that does not answer the pending statement leaves the
/// procedure where it was and runs that same statement again.
pub proof fn lemma_unanswered_runs_again(s_uri: Seq<char>, r_uri: Seq<char>, text: Seq<char>)
    ensures
        storage_next(TaskView::FetchingRealUri { s_uri }, EventView::Ready) == (
            TaskView::FetchingRealUri { s_uri },
            StorageActionView::Run(
                StatementView {
                    sql: SELECT_REAL_URI@,
                    params: seq![SqlValueView::Text(s_uri)],
                    yields: Yields::OneText,
                },
            ),
        ),
        storage_next(TaskView::ReadingRowId, EventView::Text(text)) == (
            TaskView::ReadingRowId,
            StorageActionView::Run(
                StatementView {
                    sql: SELECT_LAST_ROW_ID@,
                    params: Seq::<SqlValueView>::empty(),
                    yields: Yields::OneRowId,
                },
            ),
        ),
        storage_next(TaskView::InsertingRealUri { r_uri }, EventView::Text(text)) == (
            TaskView::InsertingRealUri { r_uri },
            StorageActionView::Run(
                StatementView {
                    sql: INSERT_REAL_URI@,
                    params: seq![SqlValueView::Text(r_uri)],
                    yields: Yields::Nothing,
                },
            ),
        ),
{
    assert(seq![] =~= Seq::<SqlValueView>::empty());
}

} // verus!
