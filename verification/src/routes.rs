//! The decisions of the four HTTP routes.
//!
//! Each route alternates storage work, done by the caller, with decisions,
//! taken here. A route starts with a `begin_*` function, which gives the
//! first [`Stage`] and the first [`Action`]. The caller performs the action,
//! reports its outcome as an [`Event`] to [`step`], and repeats with the
//! next action until the action is [`Action::Respond`].

use vstd::prelude::*;
use crate::decimal::{parse_usize, parse_usize_spec};
use crate::paging::DETAILS_PAGE_SIZE;
use crate::structs::{
    detail_entries, details_json, entries_view, entry_of_row, row_view, serialize_details, text_result,
    DetailRow,
};

verus! {

/// Body of the answer when no database connection could be had.
pub const CONNECTION_FAILED: &'static str = "Failed to get connection pointer: ";
/// Body of the answer when the route lacks its short URI.
pub const NO_SHORT_URI: &'static str = "No short URI provided";
/// Body of the answer when a shorten request has no body.
pub const NO_REAL_URI: &'static str = "No real URI provided";
/// Body of the answer when the details route lacks its page.
pub const NO_PAGE: &'static str = "No page provided";
/// Body of the answer when the page is no positive number.
pub const INVALID_PAGE: &'static str = "Invalid page identifier";
/// Body prefix of the answer when a short URI could not be looked up.
pub const FETCH_URI_FAILED: &'static str = "Failed to fetch URI mapping: ";
/// Body prefix of the answer when a shorten request body could not be read.
pub const DESERIALIZE_FAILED: &'static str = "Failed to deserialize data: ";
/// Body prefix of the answer when a write to the store failed.
pub const STORE_FAILED: &'static str = "Failed to delete URI mapping: ";
/// Body prefix of the answer when the visit records could not be read.
pub const FETCH_DETAILS_FAILED: &'static str = "Failed to fetch details: ";
/// Body prefix of the answer when the visit records could not be encoded.
pub const SERIALIZE_FAILED: &'static str = "Failed to parse data: ";

/// The HTTP statuses the routes answer with.
#[derive(Clone, Copy, Debug, PartialEq, Eq, Structural)]
pub enum Status {
    Success,
    TemporaryRedirect,
    BadRequest,
    NotFound,
    PreconditionFailed,
    ExpectationFailed,
    InternalServerError,
}

/// An answer to a request: its status, the target of a redirect, and the
/// body text.
pub struct Response {
    pub status: Status,
    pub location: Option<String>,
    pub body: Option<String>,
}

pub struct ResponseView {
    pub status: Status,
    pub location: Option<Seq<char>>,
    pub body: Option<Seq<char>>,
}

pub open spec fn opt_text(o: Option<String>) -> Option<Seq<char>> {
    match o {
        Some(s) => Some(s@),
        None => None,
    }
}

pub open spec fn opt_bytes(o: Option<Vec<u8>>) -> Option<Seq<u8>> {
    match o {
        Some(v) => Some(v@),
        None => None,
    }
}

impl View for Response {
    type V = ResponseView;

    open spec fn view(&self) -> ResponseView {
        ResponseView { status: self.status, location: opt_text(self.location), body: opt_text(self.body) }
    }
}

/// The outside work a route asks for next.
pub enum Action {
    /// Take a connection from the database pool.
    AcquireConnection,
    /// Look up the real URI stored under a short URI.
    FetchRealUri { s_uri: String },
    /// Record a visit of a short URI by the requesting client.
    AddDetail { s_uri: String },
    /// Read a shorten request body (UTF-8 JSON) and give its `r_uri`.
    ParseShorten { data: Vec<u8> },
    /// Store a real URI and give the short URI it was stored under.
    AddRealUri { r_uri: String },
    /// Remove a short URI and its visit records.
    DeleteShortUri { s_uri: String },
    /// Read one page of the visit records of a short URI.
    GetDetails { s_uri: String, page: usize, page_size: usize },
    /// Answer the request; the route is done.
    Respond { response: Response },
}

pub enum ActionView {
    AcquireConnection,
    FetchRealUri { s_uri: Seq<char> },
    AddDetail { s_uri: Seq<char> },
    ParseShorten { data: Seq<u8> },
    AddRealUri { r_uri: Seq<char> },
    DeleteShortUri { s_uri: Seq<char> },
    GetDetails { s_uri: Seq<char>, page: usize, page_size: usize },
    Respond { response: ResponseView },
}

impl View for Action {
    type V = ActionView;

    open spec fn view(&self) -> ActionView {
        match self {
            Action::AcquireConnection => ActionView::AcquireConnection,
            Action::FetchRealUri { s_uri } => ActionView::FetchRealUri { s_uri: s_uri@ },
            Action::AddDetail { s_uri } => ActionView::AddDetail { s_uri: s_uri@ },
            Action::ParseShorten { data } => ActionView::ParseShorten { data: data@ },
            Action::AddRealUri { r_uri } => ActionView::AddRealUri { r_uri: r_uri@ },
            Action::DeleteShortUri { s_uri } => ActionView::DeleteShortUri { s_uri: s_uri@ },
            Action::GetDetails { s_uri, page, page_size } =>
                ActionView::GetDetails { s_uri: s_uri@, page: *page, page_size: *page_size },
            Action::Respond { response } => ActionView::Respond { response: response@ },
        }
    }
}

/// The outcome of an action, as the caller reports it.
pub enum Event {
    /// The action succeeded and gave nothing back.
    Ready,
    /// The action succeeded and gave back a text.
    Text(String),
    /// The action succeeded and gave back a row id.
    RowId(i32),
    /// The action succeeded and gave back visit records.
    Rows(Vec<DetailRow>),
    /// The action failed, with the error's message.
    Failed(String),
}

pub enum EventView {
    Ready,
    Text(Seq<char>),
    RowId(i32),
    Rows(Seq<(i32, Seq<char>, Seq<char>)>),
    Failed(Seq<char>),
}

impl View for Event {
    type V = EventView;

    open spec fn view(&self) -> EventView {
        match self {
            Event::Ready => EventView::Ready,
            Event::Text(t) => EventView::Text(t@),
            Event::RowId(n) => EventView::RowId(*n),
            Event::Rows(rows) => EventView::Rows(rows@.map_values(|r: DetailRow| row_view(r))),
            Event::Failed(m) => EventView::Failed(m@),
        }
    }
}

/// Where a route stands, and what it has learnt so far.
pub enum Stage {
    /// `GET /:s_uri`: waiting for a connection.
    FollowConnecting { s_uri: Option<String> },
    /// `GET /:s_uri`: waiting for the real URI.
    FollowFetching { s_uri: String },
    /// `GET /:s_uri`: waiting for a second connection.
    FollowReconnecting { s_uri: String, r_uri: String },
    /// `GET /:s_uri`: waiting for the visit to be recorded.
    FollowRecording { s_uri: String, r_uri: String },
    /// `POST /_shorten`: waiting for a connection.
    ShortenConnecting { data: Option<Vec<u8>> },
    /// `POST /_shorten`: waiting for the body to be read.
    ShortenParsing { data: Vec<u8> },
    /// `POST /_shorten`: waiting for the real URI to be stored.
    ShortenInserting { r_uri: String },
    /// `DELETE /_delete/:s_uri`: waiting for a connection.
    DeleteConnecting { s_uri: Option<String> },
    /// `DELETE /_delete/:s_uri`: waiting for the removal.
    DeleteRemoving { s_uri: String },
    /// `GET /_info/:s_uri/:page`: waiting for a connection.
    InfoConnecting { s_uri: Option<String>, page: Option<String> },
    /// `GET /_info/:s_uri/:page`: waiting for the visit records.
    InfoFetching { s_uri: String, page: usize },
    /// The route has answered.
    Finished,
}

pub enum StageView {
    FollowConnecting { s_uri: Option<Seq<char>> },
    FollowFetching { s_uri: Seq<char> },
    FollowReconnecting { s_uri: Seq<char>, r_uri: Seq<char> },
    FollowRecording { s_uri: Seq<char>, r_uri: Seq<char> },
    ShortenConnecting { data: Option<Seq<u8>> },
    ShortenParsing { data: Seq<u8> },
    ShortenInserting { r_uri: Seq<char> },
    DeleteConnecting { s_uri: Option<Seq<char>> },
    DeleteRemoving { s_uri: Seq<char> },
    InfoConnecting { s_uri: Option<Seq<char>>, page: Option<Seq<char>> },
    InfoFetching { s_uri: Seq<char>, page: usize },
    Finished,
}

impl View for Stage {
    type V = StageView;

    open spec fn view(&self) -> StageView {
        match self {
            Stage::FollowConnecting { s_uri } => StageView::FollowConnecting { s_uri: opt_text(*s_uri) },
            Stage::FollowFetching { s_uri } => StageView::FollowFetching { s_uri: s_uri@ },
            Stage::FollowReconnecting { s_uri, r_uri } =>
                StageView::FollowReconnecting { s_uri: s_uri@, r_uri: r_uri@ },
            Stage::FollowRecording { s_uri, r_uri } =>
                StageView::FollowRecording { s_uri: s_uri@, r_uri: r_uri@ },
            Stage::ShortenConnecting { data } => StageView::ShortenConnecting { data: opt_bytes(*data) },
            Stage::ShortenParsing { data } => StageView::ShortenParsing { data: data@ },
            Stage::ShortenInserting { r_uri } => StageView::ShortenInserting { r_uri: r_uri@ },
            Stage::DeleteConnecting { s_uri } => StageView::DeleteConnecting { s_uri: opt_text(*s_uri) },
            Stage::DeleteRemoving { s_uri } => StageView::DeleteRemoving { s_uri: s_uri@ },
            Stage::InfoConnecting { s_uri, page } =>
                StageView::InfoConnecting { s_uri: opt_text(*s_uri), page: opt_text(*page) },
            Stage::InfoFetching { s_uri, page } => StageView::InfoFetching { s_uri: s_uri@, page: *page },
            Stage::Finished => StageView::Finished,
        }
    }
}

/// An answer whose body is a fixed message.
pub open spec fn message_response(status: Status, message: Seq<char>) -> ResponseView {
    ResponseView { status, location: None, body: Some(message) }
}

/// The answer to a failed action: `prefix` followed by the error's message.
pub open spec fn failure_response(status: Status, prefix: Seq<char>, message: Seq<char>) -> ResponseView {
    ResponseView { status, location: None, body: Some(prefix + message) }
}

/// The answer of the details route to the outcome of encoding its entries:
/// `200` with the JSON text, or `500` with the encoder's error.
pub open spec fn details_answer(json: Result<Seq<char>, Seq<char>>) -> ResponseView {
    match json {
        Ok(text) => message_response(Status::Success, text),
        Err(message) => failure_response(Status::InternalServerError, SERIALIZE_FAILED@, message),
    }
}

/// Whether `e` is an outcome of the action that stage `s` waits for.
pub open spec fn answers(s: StageView, e: EventView) -> bool {
    match s {
        StageView::Finished => false,
        _ => match e {
            EventView::Failed(_) => true,
            EventView::Ready => match s {
                StageView::FollowConnecting { .. } | StageView::FollowReconnecting { .. }
                | StageView::FollowRecording { .. } | StageView::ShortenConnecting { .. }
                | StageView::DeleteConnecting { .. } | StageView::DeleteRemoving { .. }
                | StageView::InfoConnecting { .. } => true,
                _ => false,
            },
            EventView::Text(_) => match s {
                StageView::FollowFetching { .. } | StageView::ShortenParsing { .. }
                | StageView::ShortenInserting { .. } => true,
                _ => false,
            },
            EventView::RowId(_) => false,
            EventView::Rows(_) => s is InfoFetching,
        },
    }
}

/// The action that stage `s` waits on.
pub open spec fn pending(s: StageView) -> ActionView {
    match s {
        StageView::FollowFetching { s_uri } => ActionView::FetchRealUri { s_uri },
        StageView::FollowRecording { s_uri, .. } => ActionView::AddDetail { s_uri },
        StageView::ShortenParsing { data } => ActionView::ParseShorten { data },
        StageView::ShortenInserting { r_uri } => ActionView::AddRealUri { r_uri },
        StageView::DeleteRemoving { s_uri } => ActionView::DeleteShortUri { s_uri },
        StageView::InfoFetching { s_uri, page } =>
            ActionView::GetDetails { s_uri, page, page_size: DETAILS_PAGE_SIZE },
        _ => ActionView::AcquireConnection,
    }
}

/// The answer a route gives when the action that stage `s` waits on fails
/// with `message`.
pub open spec fn failure_answer(s: StageView, message: Seq<char>) -> ResponseView {
    match s {
        StageView::FollowFetching { .. } =>
            failure_response(Status::NotFound, FETCH_URI_FAILED@, message),
        StageView::FollowRecording { .. } | StageView::ShortenInserting { .. }
        | StageView::DeleteRemoving { .. } =>
            failure_response(Status::InternalServerError, STORE_FAILED@, message),
        StageView::ShortenParsing { .. } =>
            failure_response(Status::PreconditionFailed, DESERIALIZE_FAILED@, message),
        StageView::InfoFetching { .. } =>
            failure_response(Status::InternalServerError, FETCH_DETAILS_FAILED@, message),
        _ => failure_response(Status::PreconditionFailed, CONNECTION_FAILED@, message),
    }
}

pub open spec fn respond(response: ResponseView) -> (StageView, ActionView) {
    (StageView::Finished, ActionView::Respond { response })
}

/// Where a route goes, and what it asks for, when the action that stage `s`
/// waits on succeeds with outcome `e`.
pub open spec fn advance(s: StageView, e: EventView) -> (StageView, ActionView) {
    match s {
        StageView::FollowConnecting { s_uri } => match s_uri {
            None => respond(message_response(Status::ExpectationFailed, NO_SHORT_URI@)),
            Some(u) => (StageView::FollowFetching { s_uri: u }, ActionView::FetchRealUri { s_uri: u }),
        },
        StageView::FollowFetching { s_uri } => match e {
            EventView::Text(r) => (StageView::FollowReconnecting { s_uri, r_uri: r }, ActionView::AcquireConnection),
            _ => (s, pending(s)),
        },
        StageView::FollowReconnecting { s_uri, r_uri } =>
            (StageView::FollowRecording { s_uri, r_uri }, ActionView::AddDetail { s_uri }),
        StageView::FollowRecording { r_uri, .. } =>
            respond(ResponseView { status: Status::TemporaryRedirect, location: Some(r_uri), body: None }),
        StageView::ShortenConnecting { data } => match data {
            None => respond(message_response(Status::ExpectationFailed, NO_REAL_URI@)),
            Some(d) => (StageView::ShortenParsing { data: d }, ActionView::ParseShorten { data: d }),
        },
        StageView::ShortenParsing { .. } => match e {
            EventView::Text(r) => (StageView::ShortenInserting { r_uri: r }, ActionView::AddRealUri { r_uri: r }),
            _ => (s, pending(s)),
        },
        StageView::ShortenInserting { .. } => match e {
            EventView::Text(short) => respond(message_response(Status::Success, short)),
            _ => (s, pending(s)),
        },
        StageView::DeleteConnecting { s_uri } => match s_uri {
            None => respond(message_response(Status::ExpectationFailed, NO_SHORT_URI@)),
            Some(u) => (StageView::DeleteRemoving { s_uri: u }, ActionView::DeleteShortUri { s_uri: u }),
        },
        StageView::DeleteRemoving { .. } =>
            respond(ResponseView { status: Status::Success, location: None, body: None }),
        StageView::InfoConnecting { s_uri, page } => match s_uri {
            None => respond(message_response(Status::BadRequest, NO_SHORT_URI@)),
            Some(u) => match page {
                None => respond(message_response(Status::BadRequest, NO_PAGE@)),
                Some(p) => match parse_usize_spec(p) {
                    Some(k) if k > 0 => (
                        StageView::InfoFetching { s_uri: u, page: k },
                        ActionView::GetDetails { s_uri: u, page: k, page_size: DETAILS_PAGE_SIZE },
                    ),
                    _ => respond(message_response(Status::BadRequest, INVALID_PAGE@)),
                },
            },
        },
        StageView::InfoFetching { .. } => match e {
            EventView::Rows(rows) => respond(message_response(Status::Success, details_json(
                rows.map_values(|r: (i32, Seq<char>, Seq<char>)| entry_of_row(r)),
            ))),
            _ => (s, pending(s)),
        },
        StageView::Finished => (s, pending(s)),
    }
}

/// The next stage and action of a route at stage `s` on outcome `e`: an
/// outcome that does not answer the pending action leaves the stage as it
/// is and asks for that action again; a failure answers the request with
/// the stage's error; a success moves the route on.
pub open spec fn next(s: StageView, e: EventView) -> (StageView, ActionView) {
    if !answers(s, e) {
        (s, pending(s))
    } else {
        match e {
            EventView::Failed(m) => respond(failure_answer(s, m)),
            _ => advance(s, e),
        }
    }
}

fn message(status: Status, text: &'static str) -> (r: Response)
    ensures
        r@ == message_response(status, text@),
{
    Response { status, location: None, body: Some(String::from_str(text)) }
}

fn failure(status: Status, prefix: &'static str, message: String) -> (r: Response)
    ensures
        r@ == failure_response(status, prefix@, message@),
{
    let mut body = String::from_str(prefix);
    body.append(message.as_str());
    Response { status, location: None, body: Some(body) }
}

fn copy_bytes(data: &Vec<u8>) -> (r: Vec<u8>)
    ensures
        r@ == data@,
{
    let r = data.clone();
    assert(r@ =~= data@);
    r
}

fn answers_exec(stage: &Stage, event: &Event) -> (b: bool)
    ensures
        b == answers(stage@, event@),
{
    match stage {
        Stage::Finished => false,
        _ => match event {
            Event::Failed(_) => true,
            Event::Ready => match stage {
                Stage::FollowConnecting { .. } | Stage::FollowReconnecting { .. }
                | Stage::FollowRecording { .. } | Stage::ShortenConnecting { .. }
                | Stage::DeleteConnecting { .. } | Stage::DeleteRemoving { .. }
                | Stage::InfoConnecting { .. } => true,
                _ => false,
            },
            Event::Text(_) => match stage {
                Stage::FollowFetching { .. } | Stage::ShortenParsing { .. }
                | Stage::ShortenInserting { .. } => true,
                _ => false,
            },
            Event::RowId(_) => false,
            Event::Rows(_) => match stage {
                Stage::InfoFetching { .. } => true,
                _ => false,
            },
        },
    }
}

fn pending_action(stage: &Stage) -> (a: Action)
    ensures
        a@ == pending(stage@),
{
    match stage {
        Stage::FollowFetching { s_uri } => Action::FetchRealUri { s_uri: s_uri.clone() },
        Stage::FollowRecording { s_uri, .. } => Action::AddDetail { s_uri: s_uri.clone() },
        Stage::ShortenParsing { data } => Action::ParseShorten { data: copy_bytes(data) },
        Stage::ShortenInserting { r_uri } => Action::AddRealUri { r_uri: r_uri.clone() },
        Stage::DeleteRemoving { s_uri } => Action::DeleteShortUri { s_uri: s_uri.clone() },
        Stage::InfoFetching { s_uri, page } =>
            Action::GetDetails { s_uri: s_uri.clone(), page: *page, page_size: DETAILS_PAGE_SIZE },
        _ => Action::AcquireConnection,
    }
}

fn failure_for(stage: &Stage, message: String) -> (r: Response)
    ensures
        r@ == failure_answer(stage@, message@),
{
    match stage {
        Stage::FollowFetching { .. } => failure(Status::NotFound, FETCH_URI_FAILED, message),
        Stage::FollowRecording { .. } | Stage::ShortenInserting { .. } | Stage::DeleteRemoving { .. } =>
            failure(Status::InternalServerError, STORE_FAILED, message),
        Stage::ShortenParsing { .. } => failure(Status::PreconditionFailed, DESERIALIZE_FAILED, message),
        Stage::InfoFetching { .. } => failure(Status::InternalServerError, FETCH_DETAILS_FAILED, message),
        _ => failure(Status::PreconditionFailed, CONNECTION_FAILED, message),
    }
}

fn finish(response: Response) -> (out: (Stage, Action))
    ensures
        (out.0@, out.1@) == respond(response@),
{
    (Stage::Finished, Action::Respond { response })
}

fn advance_exec(stage: Stage, event: Event) -> (out: (Stage, Action))
    requires
        answers(stage@, event@),
        !(event is Failed),
    ensures
        (out.0@, out.1@) == advance(stage@, event@),
{
    match stage {
        Stage::FollowConnecting { s_uri } => match s_uri {
            None => finish(message(Status::ExpectationFailed, NO_SHORT_URI)),
            Some(u) => {
                let v = u.clone();
                (Stage::FollowFetching { s_uri: u }, Action::FetchRealUri { s_uri: v })
            },
        },
        Stage::FollowFetching { s_uri } => match event {
            Event::Text(r) => (Stage::FollowReconnecting { s_uri, r_uri: r }, Action::AcquireConnection),
            _ => {
                proof { assert(false); }
                (Stage::Finished, Action::AcquireConnection)
            },
        },
        Stage::FollowReconnecting { s_uri, r_uri } => {
            let v = s_uri.clone();
            (Stage::FollowRecording { s_uri, r_uri }, Action::AddDetail { s_uri: v })
        },
        Stage::FollowRecording { r_uri, .. } =>
            finish(Response { status: Status::TemporaryRedirect, location: Some(r_uri), body: None }),
        Stage::ShortenConnecting { data } => match data {
            None => finish(message(Status::ExpectationFailed, NO_REAL_URI)),
            Some(d) => {
                let e = copy_bytes(&d);
                (Stage::ShortenParsing { data: d }, Action::ParseShorten { data: e })
            },
        },
        Stage::ShortenParsing { .. } => match event {
            Event::Text(r) => {
                let v = r.clone();
                (Stage::ShortenInserting { r_uri: r }, Action::AddRealUri { r_uri: v })
            },
            _ => {
                proof { assert(false); }
                (Stage::Finished, Action::AcquireConnection)
            },
        },
        Stage::ShortenInserting { .. } => match event {
            Event::Text(short) => finish(Response { status: Status::Success, location: None, body: Some(short) }),
            _ => {
                proof { assert(false); }
                (Stage::Finished, Action::AcquireConnection)
            },
        },
        Stage::DeleteConnecting { s_uri } => match s_uri {
            None => finish(message(Status::ExpectationFailed, NO_SHORT_URI)),
            Some(u) => {
                let v = u.clone();
                (Stage::DeleteRemoving { s_uri: u }, Action::DeleteShortUri { s_uri: v })
            },
        },
        Stage::DeleteRemoving { .. } =>
            finish(Response { status: Status::Success, location: None, body: None }),
        Stage::InfoConnecting { s_uri, page } => match s_uri {
            None => finish(message(Status::BadRequest, NO_SHORT_URI)),
            Some(u) => match page {
                None => finish(message(Status::BadRequest, NO_PAGE)),
                Some(p) => match parse_usize(p.as_str()) {
                    Some(k) => {
                        if k > 0 {
                            let v = u.clone();
                            (
                                Stage::InfoFetching { s_uri: u, page: k },
                                Action::GetDetails { s_uri: v, page: k, page_size: DETAILS_PAGE_SIZE },
                            )
                        } else {
                            finish(message(Status::BadRequest, INVALID_PAGE))
                        }
                    },
                    None => finish(message(Status::BadRequest, INVALID_PAGE)),
                },
            },
        },
        Stage::InfoFetching { .. } => match event {
            Event::Rows(rows) => {
                let entries = detail_entries(&rows);
                let ghost rv = rows@.map_values(|r: DetailRow| row_view(r));
                assert(entries_view(entries@) =~= rv.map_values(
                    |r: (i32, Seq<char>, Seq<char>)| entry_of_row(r),
                ));
                let json = serialize_details(&entries);
                finish(details_response(json))
            },
            _ => {
                proof { assert(false); }
                (Stage::Finished, Action::AcquireConnection)
            },
        },
        Stage::Finished => {
            proof { assert(false); }
            (Stage::Finished, Action::AcquireConnection)
        },
    }
}

/// The answer of the details route to the outcome of encoding its entries,
/// as [`details_answer`] states.
pub fn details_response(json: Result<String, String>) -> (r: Response)
    ensures
        r@ == details_answer(text_result(json)),
{
    match json {
        Ok(text) => Response { status: Status::Success, location: None, body: Some(text) },
        Err(message) => failure(Status::InternalServerError, SERIALIZE_FAILED, message),
    }
}

/// Takes a route one step on: given the outcome `event` of the action that
/// `stage` waits on, gives the next stage and the next action, as [`next`]
/// states.
pub fn step(stage: Stage, event: Event) -> (out: (Stage, Action))
    requires
        !(stage is Finished),
    ensures
        (out.0@, out.1@) == next(stage@, event@),
{
    if !answers_exec(&stage, &event) {
        let action = pending_action(&stage);
        return (stage, action);
    }
    match event {
        Event::Failed(m) => {
            let response = failure_for(&stage, m);
            finish(response)
        },
        other => advance_exec(stage, other),
    }
}

/// Starts `GET /:s_uri`, given the route's short URI if the path has one.
pub fn begin_follow(s_uri: Option<String>) -> (out: (Stage, Action))
    ensures
        out.0@ == (StageView::FollowConnecting { s_uri: opt_text(s_uri) }),
        out.1@ == ActionView::AcquireConnection,
{
    (Stage::FollowConnecting { s_uri }, Action::AcquireConnection)
}

/// Starts `POST /_shorten`, given the request body if there is one.
pub fn begin_shorten(data: Option<Vec<u8>>) -> (out: (Stage, Action))
    ensures
        out.0@ == (StageView::ShortenConnecting { data: opt_bytes(data) }),
        out.1@ == ActionView::AcquireConnection,
{
    (Stage::ShortenConnecting { data }, Action::AcquireConnection)
}

/// Starts `DELETE /_delete/:s_uri`, given the route's short URI if the path
/// has one.
pub fn begin_delete(s_uri: Option<String>) -> (out: (Stage, Action))
    ensures
        out.0@ == (StageView::DeleteConnecting { s_uri: opt_text(s_uri) }),
        out.1@ == ActionView::AcquireConnection,
{
    (Stage::DeleteConnecting { s_uri }, Action::AcquireConnection)
}

/// Starts `GET /_info/:s_uri/:page`, given the route's short URI and page
/// text if the path has them.
pub fn begin_info(s_uri: Option<String>, page: Option<String>) -> (out: (Stage, Action))
    ensures
        out.0@ == (StageView::InfoConnecting { s_uri: opt_text(s_uri), page: opt_text(page) }),
        out.1@ == ActionView::AcquireConnection,
{
    (Stage::InfoConnecting { s_uri, page }, Action::AcquireConnection)
}

} // verus!
