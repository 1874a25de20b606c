//! What holds of the routes over every stage, every outcome, and whole runs.

use vstd::prelude::*;
use crate::decimal::{int_text, lemma_text_reads_back, parse_usize_spec};
use crate::storage::{
    storage_next, task_statement, SqlValueView, StatementView, StorageActionView, TaskView, Yields,
    SELECT_REAL_URI,
};
use crate::paging::DETAILS_PAGE_SIZE;
use crate::routes::{
    opt_bytes, opt_text, answers, details_answer, failure_answer, next, pending, ActionView, EventView, ResponseView, StageView,
    Status, CONNECTION_FAILED, DESERIALIZE_FAILED, FETCH_DETAILS_FAILED, FETCH_URI_FAILED, INVALID_PAGE,
    NO_PAGE, NO_REAL_URI, NO_SHORT_URI, SERIALIZE_FAILED, STORE_FAILED,
};
use crate::structs::{details_json, text_result, DetailEntryView};

verus! {

/// How many answered actions a route at stage `s` is at most away from
/// its answer.
pub open spec fn rank(s: StageView) -> nat {
    match s {
        StageView::FollowConnecting { .. } => 4,
        StageView::FollowFetching { .. } => 3,
        StageView::FollowReconnecting { .. } => 2,
        StageView::FollowRecording { .. } => 1,
        StageView::ShortenConnecting { .. } => 3,
        StageView::ShortenParsing { .. } => 2,
        StageView::ShortenInserting { .. } => 1,
        StageView::DeleteConnecting { .. } => 2,
        StageView::DeleteRemoving { .. } => 1,
        StageView::InfoConnecting { .. } => 2,
        StageView::InfoFetching { .. } => 1,
        StageView::Finished => 0,
    }
}

/// Every outcome that answers the pending action brings the route strictly
/// closer to its answer (so a route answers after at most four answered
/// actions); any other outcome leaves the stage as it was and asks for the
/// same action again.
pub proof fn lemma_step_progress(s: StageView, e: EventView)
    requires
        !(s is Finished),
    ensures
        answers(s, e) ==> rank(next(s, e).0) < rank(s),
        !answers(s, e) ==> next(s, e) == (s, pending(s)),
        rank(s) <= 4,
{
}

/// A step answers the request exactly when the route is finished by it.
pub proof fn lemma_respond_iff_finished(s: StageView, e: EventView)
    requires
        !(s is Finished),
    ensures
        (next(s, e).1 is Respond) <==> (next(s, e).0 is Finished),
{
}

/// The answer that ends a route: the route is finished and the request is
/// answered with exactly this status, redirect target and body.
pub open spec fn answered(status: Status, location: Option<Seq<char>>, body: Option<Seq<char>>) -> (
    StageView,
    ActionView,
) {
    (
        StageView::Finished,
        ActionView::Respond { response: ResponseView { status, location, body } },
    )
}

/// Every failure of outside work ends the request at once: the answer has
/// an error status, no redirect, and a body that ends with the failure's
/// message.
pub proof fn lemma_failure_ends_route(s: StageView, m: Seq<char>)
    requires
        !(s is Finished),
    ensures
        next(s, EventView::Failed(m)).0 is Finished,
        next(s, EventView::Failed(m)).1 matches ActionView::Respond { response } && {
            &&& response.status != Status::Success
            &&& response.status != Status::TemporaryRedirect
            &&& response.location is None
            &&& response.body matches Some(b) && b.len() >= m.len()
                && b.subrange(b.len() - m.len(), b.len() as int) == m
        },
{
    let b = failure_answer(s, m).body->0;
    assert(b.subrange(b.len() - m.len(), b.len() as int) =~= m);
}

/// What each failure is answered with: a failed connection with `412` and
/// the connection message, a failed lookup of a short URI with `404`, a
/// body that cannot be read with `412`, a failed write with `500`, and a
/// failed read of visits with `500`; the body is the stage's prefix
/// followed by the failure's message.
pub proof fn lemma_failure_answers(
    s_uri: Seq<char>,
    r_uri: Seq<char>,
    data: Seq<u8>,
    page: usize,
    o_uri: Option<Seq<char>>,
    o_page: Option<Seq<char>>,
    o_data: Option<Seq<u8>>,
    m: Seq<char>,
)
    ensures
        next(StageView::FollowConnecting { s_uri: o_uri }, EventView::Failed(m))
            == answered(Status::PreconditionFailed, None, Some(CONNECTION_FAILED@ + m)),
        next(StageView::FollowFetching { s_uri }, EventView::Failed(m))
            == answered(Status::NotFound, None, Some(FETCH_URI_FAILED@ + m)),
        next(StageView::FollowReconnecting { s_uri, r_uri }, EventView::Failed(m))
            == answered(Status::PreconditionFailed, None, Some(CONNECTION_FAILED@ + m)),
        next(StageView::FollowRecording { s_uri, r_uri }, EventView::Failed(m))
            == answered(Status::InternalServerError, None, Some(STORE_FAILED@ + m)),
        next(StageView::ShortenConnecting { data: o_data }, EventView::Failed(m))
            == answered(Status::PreconditionFailed, None, Some(CONNECTION_FAILED@ + m)),
        next(StageView::ShortenParsing { data }, EventView::Failed(m))
            == answered(Status::PreconditionFailed, None, Some(DESERIALIZE_FAILED@ + m)),
        next(StageView::ShortenInserting { r_uri }, EventView::Failed(m))
            == answered(Status::InternalServerError, None, Some(STORE_FAILED@ + m)),
        next(StageView::DeleteConnecting { s_uri: o_uri }, EventView::Failed(m))
            == answered(Status::PreconditionFailed, None, Some(CONNECTION_FAILED@ + m)),
        next(StageView::DeleteRemoving { s_uri }, EventView::Failed(m))
            == answered(Status::InternalServerError, None, Some(STORE_FAILED@ + m)),
        next(StageView::InfoConnecting { s_uri: o_uri, page: o_page }, EventView::Failed(m))
            == answered(Status::PreconditionFailed, None, Some(CONNECTION_FAILED@ + m)),
        next(StageView::InfoFetching { s_uri, page }, EventView::Failed(m))
            == answered(Status::InternalServerError, None, Some(FETCH_DETAILS_FAILED@ + m)),
{
}

/// A request that lacks its path parameters or its body is answered as
/// soon as a connection is had, without any storage work: `417` for the
/// redirect, delete and shorten routes, `400` for the details route.
pub proof fn lemma_missing_parameters(s_uri: Seq<char>, page: Option<Seq<char>>)
    ensures
        next(StageView::FollowConnecting { s_uri: None }, EventView::Ready)
            == answered(Status::ExpectationFailed, None, Some(NO_SHORT_URI@)),
        next(StageView::DeleteConnecting { s_uri: None }, EventView::Ready)
            == answered(Status::ExpectationFailed, None, Some(NO_SHORT_URI@)),
        next(StageView::InfoConnecting { s_uri: None, page }, EventView::Ready)
            == answered(Status::BadRequest, None, Some(NO_SHORT_URI@)),
        next(StageView::InfoConnecting { s_uri: Some(s_uri), page: None }, EventView::Ready)
            == answered(Status::BadRequest, None, Some(NO_PAGE@)),
        next(StageView::ShortenConnecting { data: None }, EventView::Ready)
            == answered(Status::ExpectationFailed, None, Some(NO_REAL_URI@)),
{
}

/// Following a short URI whose storage steps all succeed looks that short
/// URI up, records the visit under it, and redirects to exactly the real
/// URI that the lookup gave, with no body.
pub proof fn lemma_follow_redirects(s_uri: Seq<char>, r_uri: Seq<char>)
    ensures
        ({
            let s0 = StageView::FollowConnecting { s_uri: Some(s_uri) };
            let t1 = next(s0, EventView::Ready);
            let t2 = next(t1.0, EventView::Text(r_uri));
            let t3 = next(t2.0, EventView::Ready);
            let t4 = next(t3.0, EventView::Ready);
            &&& t1.1 == ActionView::FetchRealUri { s_uri }
            &&& t2.1 == ActionView::AcquireConnection
            &&& t3.1 == ActionView::AddDetail { s_uri }
            &&& t4 == (
                StageView::Finished,
                ActionView::Respond {
                    response: ResponseView {
                        status: Status::TemporaryRedirect,
                        location: Some(r_uri),
                        body: None,
                    },
                },
            )
        }),
        next(StageView::FollowRecording { s_uri, r_uri }, EventView::Ready).1 == (ActionView::Respond {
            response: ResponseView { status: Status::TemporaryRedirect, location: Some(r_uri), body: None },
        }),
{
}

/// Shortening stores the real URI that the request body gives and answers
/// `200` with exactly the short URI that storing it gave.
pub proof fn lemma_shorten_answers_short_uri(data: Seq<u8>, r_uri: Seq<char>, short: Seq<char>)
    ensures
        ({
            let s0 = StageView::ShortenConnecting { data: Some(data) };
            let t1 = next(s0, EventView::Ready);
            let t2 = next(t1.0, EventView::Text(r_uri));
            let t3 = next(t2.0, EventView::Text(short));
            &&& t1.1 == ActionView::ParseShorten { data }
            &&& t2.1 == ActionView::AddRealUri { r_uri }
            &&& t3 == answered(Status::Success, None, Some(short))
        }),
{
}

/// Deleting a short URI removes exactly that short URI and answers `200`
/// with no body when the removal succeeds.
pub proof fn lemma_delete_removes(s_uri: Seq<char>)
    ensures
        ({
            let s0 = StageView::DeleteConnecting { s_uri: Some(s_uri) };
            let t1 = next(s0, EventView::Ready);
            let t2 = next(t1.0, EventView::Ready);
            &&& t1.1 == ActionView::DeleteShortUri { s_uri }
            &&& t2 == answered(Status::Success, None, None)
        }),
{
}

/// The details route reads the page that the page text names, a hundred
/// records to a page, when that text is a positive number, and answers
/// `200` with the JSON encoding of one entry for each record, in order:
/// its client address, its row id in decimal, and its time. Any other page
/// text is answered with `400` and no storage work.
pub proof fn lemma_info_pages(
    s_uri: Seq<char>,
    page: Seq<char>,
    rows: Seq<(i32, Seq<char>, Seq<char>)>,
)
    ensures
        ({
            let s0 = StageView::InfoConnecting { s_uri: Some(s_uri), page: Some(page) };
            let t1 = next(s0, EventView::Ready);
            match parse_usize_spec(page) {
                Some(k) if k > 0 => {
                    let t2 = next(t1.0, EventView::Rows(rows));
                    let entries = Seq::new(
                        rows.len(),
                        |i: int| DetailEntryView {
                            client_ip: rows[i].1,
                            s_uri: int_text(rows[i].0 as int),
                            timestamp: rows[i].2,
                        },
                    );
                    &&& t1.1 == ActionView::GetDetails { s_uri, page: k, page_size: 100 }
                    &&& t2 == answered(Status::Success, None, Some(details_json(entries)))
                },
                _ => t1 == answered(Status::BadRequest, None, Some(INVALID_PAGE@)),
            }
        }),
{
    let entries = Seq::new(
        rows.len(),
        |i: int| DetailEntryView {
            client_ip: rows[i].1,
            s_uri: int_text(rows[i].0 as int),
            timestamp: rows[i].2,
        },
    );
    let mapped = rows.map_values(|r: (i32, Seq<char>, Seq<char>)| crate::structs::entry_of_row(r));
    assert(mapped =~= entries);
    assert(DETAILS_PAGE_SIZE == 100);
}

/// The details route answers the outcome of encoding its entries: `200`
/// with exactly the JSON text, or `500` with the encoder's message.
pub proof fn lemma_details_answer(json: Result<String, String>)
    ensures
        (details_answer(text_result(json)) == match json {
            Ok(text) => ResponseView { status: Status::Success, location: None, body: Some(text@) },
            Err(message) => ResponseView {
                status: Status::InternalServerError,
                location: None,
                body: Some(SERIALIZE_FAILED@ + message@),
            },
        }),
{
}

/// A short URI handed out by shortening leads back to the URI it
/// shortened. Storing `r_uri` inserts it and reads the row id it got; when
/// the store keeps `r_uri` under that row id, and reading a short URI gives
/// what the store keeps under the row its text reads as, then following the
/// short URI that shortening answered with reads that row and redirects to
/// `r_uri`.
pub proof fn lemma_shortened_uri_is_followed(
    data: Seq<u8>,
    r_uri: Seq<char>,
    row_id: i32,
    stored: Map<int, Seq<char>>,
)
    requires
        row_id >= 0,
        stored.contains_key(row_id as int),
        stored[row_id as int] == r_uri,
    ensures
        ({
            // storing: the insert, then the row id it got
            let a1 = storage_next(TaskView::InsertingRealUri { r_uri }, EventView::Ready);
            let a2 = storage_next(a1.0, EventView::RowId(row_id));
            let short = a2.1->Finish_0->Text_0;
            // shortening answers with what storing gave
            let s0 = StageView::ShortenConnecting { data: Some(data) };
            let t1 = next(s0, EventView::Ready);
            let t2 = next(t1.0, EventView::Text(r_uri));
            let t3 = next(t2.0, EventView::Text(short));
            // following the answered short URI
            let f0 = StageView::FollowConnecting { s_uri: Some(short) };
            let f1 = next(f0, EventView::Ready);
            let looked_up = stored[parse_usize_spec(short)->0 as int];
            let b1 = storage_next(TaskView::FetchingRealUri { s_uri: short }, EventView::Text(looked_up));
            let f2 = next(f1.0, EventView::Text(b1.1->Finish_0->Text_0));
            let f3 = next(f2.0, EventView::Ready);
            let f4 = next(f3.0, EventView::Ready);
            &&& a2.1 is Finish && a2.1->Finish_0 is Text
            &&& t2.1 == ActionView::AddRealUri { r_uri }
            &&& t3.1 == ActionView::Respond {
                response: ResponseView { status: Status::Success, location: None, body: Some(short) },
            }
            &&& parse_usize_spec(short) == Some(row_id as usize)
            &&& f1.1 == ActionView::FetchRealUri { s_uri: short }
            &&& task_statement(TaskView::FetchingRealUri { s_uri: short }) == StorageActionView::Run(
                StatementView {
                    sql: SELECT_REAL_URI@,
                    params: seq![SqlValueView::Text(short)],
                    yields: Yields::OneText,
                },
            )
            &&& b1.1 == StorageActionView::Finish(EventView::Text(r_uri))
            &&& f4.1 == ActionView::Respond {
                response: ResponseView { status: Status::TemporaryRedirect, location: Some(r_uri), body: None },
            }
        }),
{
    lemma_text_reads_back(row_id);
    lemma_follow_redirects(int_text(row_id as int), r_uri);
}

/// An outcome that does not answer the pending action leaves the route
/// where it was and asks for that same action again, with the same
/// arguments.
pub proof fn lemma_unanswered_asks_again(
    s_uri: Seq<char>,
    r_uri: Seq<char>,
    data: Seq<u8>,
    page: usize,
    o_uri: Option<Seq<char>>,
    o_page: Option<Seq<char>>,
    text: Seq<char>,
    row_id: i32,
)
    ensures
        next(StageView::FollowConnecting { s_uri: o_uri }, EventView::Text(text))
            == (StageView::FollowConnecting { s_uri: o_uri }, ActionView::AcquireConnection),
        next(StageView::FollowFetching { s_uri }, EventView::Ready)
            == (StageView::FollowFetching { s_uri }, ActionView::FetchRealUri { s_uri }),
        next(StageView::FollowReconnecting { s_uri, r_uri }, EventView::RowId(row_id))
            == (StageView::FollowReconnecting { s_uri, r_uri }, ActionView::AcquireConnection),
        next(StageView::FollowRecording { s_uri, r_uri }, EventView::Text(text))
            == (StageView::FollowRecording { s_uri, r_uri }, ActionView::AddDetail { s_uri }),
        next(StageView::ShortenParsing { data }, EventView::Ready)
            == (StageView::ShortenParsing { data }, ActionView::ParseShorten { data }),
        next(StageView::ShortenInserting { r_uri }, EventView::RowId(row_id))
            == (StageView::ShortenInserting { r_uri }, ActionView::AddRealUri { r_uri }),
        next(StageView::DeleteRemoving { s_uri }, EventView::Text(text))
            == (StageView::DeleteRemoving { s_uri }, ActionView::DeleteShortUri { s_uri }),
        next(StageView::InfoConnecting { s_uri: o_uri, page: o_page }, EventView::Text(text))
            == (StageView::InfoConnecting { s_uri: o_uri, page: o_page }, ActionView::AcquireConnection),
        next(StageView::InfoFetching { s_uri, page }, EventView::Text(text)) == (
            StageView::InfoFetching { s_uri, page },
            ActionView::GetDetails { s_uri, page, page_size: 100 },
        ),
{
}

/// An optional text or body is seen as the text or bytes it holds, and
/// absent exactly when it is absent.
pub proof fn lemma_optional_views(text: Option<String>, data: Option<Vec<u8>>)
    ensures
        (opt_text(text) is Some) == (text is Some),
        text matches Some(t) ==> opt_text(text) == Some(t@),
        (opt_bytes(data) is Some) == (data is Some),
        data matches Some(d) ==> opt_bytes(data) == Some(d@),
{
}

} // verus!
