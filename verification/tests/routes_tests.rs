use shortener::routes::{
    begin_delete, begin_follow, begin_info, begin_shorten, details_response, step, Action, Event, Response, Stage,
    Status,
};

fn run(start: (Stage, Action), events: Vec<Event>) -> (Vec<String>, Option<Response>) {
    let (mut stage, mut action) = start;
    let mut asked = Vec::new();
    let mut events = events.into_iter();
    loop {
        match action {
            Action::Respond { response } => return (asked, Some(response)),
            other => {
                asked.push(describe(&other));
                let event = match events.next() {
                    Some(e) => e,
                    None => return (asked, None),
                };
                let (s, a) = step(stage, event);
                stage = s;
                action = a;
            }
        }
    }
}

fn describe(a: &Action) -> String {
    match a {
        Action::AcquireConnection => "connect".to_string(),
        Action::FetchRealUri { s_uri } => format!("fetch {}", s_uri),
        Action::AddDetail { s_uri } => format!("detail {}", s_uri),
        Action::ParseShorten { data } => format!("parse {}", String::from_utf8_lossy(data)),
        Action::AddRealUri { r_uri } => format!("insert {}", r_uri),
        Action::DeleteShortUri { s_uri } => format!("delete {}", s_uri),
        Action::GetDetails { s_uri, page, page_size } => format!("details {} {} {}", s_uri, page, page_size),
        Action::Respond { .. } => "respond".to_string(),
    }
}

fn text(s: &str) -> Event {
    Event::Text(s.to_string())
}

fn failed(s: &str) -> Event {
    Event::Failed(s.to_string())
}

#[test]
fn follow_redirects_to_stored_uri() {
    let (asked, response) = run(
        begin_follow(Some("1".to_string())),
        vec![Event::Ready, text("https://example.com"), Event::Ready, Event::Ready],
    );
    assert_eq!(asked, vec!["connect", "fetch 1", "connect", "detail 1"]);
    let r = response.unwrap();
    assert_eq!(r.status, Status::TemporaryRedirect);
    assert_eq!(r.location, Some("https://example.com".to_string()));
    assert_eq!(r.body, None);
}

#[test]
fn follow_failures() {
    let (_, r) = run(begin_follow(Some("1".to_string())), vec![failed("pool closed")]);
    let r = r.unwrap();
    assert_eq!(r.status, Status::PreconditionFailed);
    assert_eq!(r.body, Some("Failed to get connection pointer: pool closed".to_string()));

    let (_, r) = run(begin_follow(None), vec![Event::Ready]);
    let r = r.unwrap();
    assert_eq!(r.status, Status::ExpectationFailed);
    assert_eq!(r.body, Some("No short URI provided".to_string()));

    let (_, r) = run(begin_follow(Some("9".to_string())), vec![Event::Ready, failed("no rows")]);
    let r = r.unwrap();
    assert_eq!(r.status, Status::NotFound);
    assert_eq!(r.body, Some("Failed to fetch URI mapping: no rows".to_string()));

    let (_, r) = run(begin_follow(Some("9".to_string())), vec![Event::Ready, text("u"), failed("busy")]);
    assert_eq!(r.unwrap().body, Some("Failed to get connection pointer: busy".to_string()));

    let (_, r) = run(begin_follow(Some("9".to_string())), vec![Event::Ready, text("u"), Event::Ready, failed("locked")]);
    let r = r.unwrap();
    assert_eq!(r.status, Status::InternalServerError);
    assert_eq!(r.body, Some("Failed to delete URI mapping: locked".to_string()));
}

#[test]
fn shorten_answers_row_id() {
    let (asked, r) = run(
        begin_shorten(Some(b"{\"r_uri\": \"https://example.com\"}".to_vec())),
        vec![Event::Ready, text("https://example.com"), text("42")],
    );
    assert_eq!(asked, vec!["connect", "parse {\"r_uri\": \"https://example.com\"}", "insert https://example.com"]);
    let r = r.unwrap();
    assert_eq!(r.status, Status::Success);
    assert_eq!(r.body, Some("42".to_string()));
    assert_eq!(r.location, None);
}

#[test]
fn shorten_failures() {
    let (asked, r) = run(begin_shorten(None), vec![Event::Ready]);
    assert_eq!(asked, vec!["connect"]);
    let r = r.unwrap();
    assert_eq!(r.status, Status::ExpectationFailed);
    assert_eq!(r.body, Some("No real URI provided".to_string()));

    let (_, r) = run(begin_shorten(Some(vec![0xff])), vec![Event::Ready, failed("invalid utf-8")]);
    let r = r.unwrap();
    assert_eq!(r.status, Status::PreconditionFailed);
    assert_eq!(r.body, Some("Failed to deserialize data: invalid utf-8".to_string()));

    let (_, r) = run(begin_shorten(Some(b"{}".to_vec())), vec![Event::Ready, text("x"), failed("disk full")]);
    // a row id is no answer to storing a URI: the route asks again
    let (asked, r2) = run(begin_shorten(Some(b"{}".to_vec())), vec![Event::Ready, text("x"), Event::RowId(1)]);
    assert_eq!(asked, vec!["connect", "parse {}", "insert x", "insert x"]);
    assert!(r2.is_none());
    let r = r.unwrap();
    assert_eq!(r.status, Status::InternalServerError);
    assert_eq!(r.body, Some("Failed to delete URI mapping: disk full".to_string()));
}

#[test]
fn delete_removes() {
    let (asked, r) = run(begin_delete(Some("5".to_string())), vec![Event::Ready, Event::Ready]);
    assert_eq!(asked, vec!["connect", "delete 5"]);
    let r = r.unwrap();
    assert_eq!(r.status, Status::Success);
    assert_eq!(r.body, None);

    let (_, r) = run(begin_delete(None), vec![Event::Ready]);
    assert_eq!(r.unwrap().status, Status::ExpectationFailed);

    let (_, r) = run(begin_delete(Some("5".to_string())), vec![Event::Ready, failed("oops")]);
    let r = r.unwrap();
    assert_eq!(r.status, Status::InternalServerError);
    assert_eq!(r.body, Some("Failed to delete URI mapping: oops".to_string()));
}

#[test]
fn info_reads_requested_page() {
    let rows = vec![
        (1, "192.168.0.2:4000".to_string(), "2023-11-28 19:46:36".to_string()),
        (1, "127.0.0.1:53490".to_string(), "2023-11-28 20:12:19".to_string()),
    ];
    let (asked, r) = run(
        begin_info(Some("1".to_string()), Some("2".to_string())),
        vec![Event::Ready, Event::Rows(rows)],
    );
    assert_eq!(asked, vec!["connect", "details 1 2 100"]);
    let r = r.unwrap();
    assert_eq!(r.status, Status::Success);
    assert_eq!(
        r.body,
        Some(
            "[{\"client_ip\":\"192.168.0.2:4000\",\"s_uri\":\"1\",\"timestamp\":\"2023-11-28 19:46:36\"},\
{\"client_ip\":\"127.0.0.1:53490\",\"s_uri\":\"1\",\"timestamp\":\"2023-11-28 20:12:19\"}]"
                .to_string()
        )
    );
}

#[test]
fn info_with_no_visits_answers_empty_list() {
    let (_, r) = run(begin_info(Some("5".to_string()), Some("1".to_string())), vec![Event::Ready, Event::Rows(Vec::new())]);
    let r = r.unwrap();
    assert_eq!(r.status, Status::Success);
    assert_eq!(r.body, Some("[]".to_string()));
}

#[test]
fn details_response_answers_encoding_outcome() {
    let r = details_response(Ok("[]".to_string()));
    assert_eq!(r.status, Status::Success);
    assert_eq!(r.body, Some("[]".to_string()));
    let r = details_response(Err("key must be a string".to_string()));
    assert_eq!(r.status, Status::InternalServerError);
    assert_eq!(r.body, Some("Failed to parse data: key must be a string".to_string()));
}

#[test]
fn info_refuses_bad_pages() {
    for page in ["0", "+0", "-1", "x", "", "1.5", "18446744073709551616"] {
        let (asked, r) = run(begin_info(Some("1".to_string()), Some(page.to_string())), vec![Event::Ready]);
        assert_eq!(asked, vec!["connect"]);
        let r = r.unwrap();
        assert_eq!(r.status, Status::BadRequest);
        assert_eq!(r.body, Some("Invalid page identifier".to_string()));
    }
    let (_, r) = run(begin_info(Some("1".to_string()), None), vec![Event::Ready]);
    assert_eq!(r.unwrap().body, Some("No page provided".to_string()));
    let (_, r) = run(begin_info(None, Some("1".to_string())), vec![Event::Ready]);
    let r = r.unwrap();
    assert_eq!(r.status, Status::BadRequest);
    assert_eq!(r.body, Some("No short URI provided".to_string()));
}

#[test]
fn info_failures() {
    let (_, r) = run(begin_info(Some("1".to_string()), Some("1".to_string())), vec![Event::Ready, failed("gone")]);
    let r = r.unwrap();
    assert_eq!(r.status, Status::InternalServerError);
    assert_eq!(r.body, Some("Failed to fetch details: gone".to_string()));
}

#[test]
fn unanswering_event_asks_again() {
    let (stage, _) = begin_follow(Some("4".to_string()));
    let (stage, action) = step(stage, Event::Ready);
    assert!(matches!(action, Action::FetchRealUri { ref s_uri } if s_uri == "4"));
    let (stage, action) = step(stage, Event::RowId(3));
    assert!(matches!(action, Action::FetchRealUri { ref s_uri } if s_uri == "4"));
    let (_, action) = step(stage, text("https://a.b"));
    assert!(matches!(action, Action::AcquireConnection));
}

#[test]
fn every_answered_route_ends_within_four_steps() {
    let starts = vec![
        begin_follow(Some("1".to_string())),
        begin_shorten(Some(b"x".to_vec())),
        begin_delete(Some("1".to_string())),
        begin_info(Some("1".to_string()), Some("1".to_string())),
    ];
    for start in starts {
        let (_, r) = run(start, vec![failed("a"), failed("b"), failed("c"), failed("d"), failed("e")]);
        assert!(r.is_some());
    }
}

#[test]
fn shortened_uri_leads_back() {
    let (_, r) = run(
        begin_shorten(Some(b"{\"r_uri\": \"https://example.com\"}".to_vec())),
        vec![Event::Ready, text("https://example.com"), text("7")],
    );
    let short = r.unwrap().body.unwrap();
    assert_eq!(shortener::decimal::parse_usize(&short), Some(7));
    let (asked, r) = run(
        begin_follow(Some(short)),
        vec![Event::Ready, text("https://example.com"), Event::Ready, Event::Ready],
    );
    assert_eq!(asked, vec!["connect", "fetch 7", "connect", "detail 7"]);
    assert_eq!(r.unwrap().location, Some("https://example.com".to_string()));
}
