use shortener::routes::Event;
use shortener::storage::{
    add_detail, add_real_uri, delete_short_uri, fetch_real_uri, get_details, setup_table, storage_step, SqlValue,
    StorageAction, Task, Yields, CREATE_URI_DETAILS, CREATE_URI_MAP, DELETE_DETAILS, DELETE_MAPPING, INSERT_DETAIL,
    INSERT_REAL_URI, SELECT_DETAILS, SELECT_LAST_ROW_ID, SELECT_REAL_URI,
};

fn param(v: &SqlValue) -> String {
    match v {
        SqlValue::Text(t) => format!("'{}'", t),
        SqlValue::Count(n) => format!("{}", n),
    }
}

/// Runs a procedure, answering its statements in turn; gives the statements
/// it ran (text, params, what they yield) and its result.
fn run(start: (Task, StorageAction), outcomes: Vec<Event>) -> (Vec<(String, Vec<String>, Yields)>, Option<Event>) {
    let (mut task, mut action) = start;
    let mut ran = Vec::new();
    let mut outcomes = outcomes.into_iter();
    loop {
        match action {
            StorageAction::Finish(result) => return (ran, Some(result)),
            StorageAction::Run(st) => {
                ran.push((st.sql.clone(), st.params.iter().map(param).collect(), st.yields));
                let Some(outcome) = outcomes.next() else { return (ran, None) };
                let (t, a) = storage_step(task, outcome);
                task = t;
                action = a;
            }
        }
    }
}

fn text_of(e: Option<Event>) -> Option<String> {
    match e {
        Some(Event::Text(t)) => Some(t),
        _ => None,
    }
}

#[test]
fn setup_creates_map_then_details() {
    let (ran, result) = run(setup_table(), vec![Event::Ready, Event::Ready]);
    assert_eq!(ran.len(), 2);
    assert_eq!(ran[0].0, CREATE_URI_MAP);
    assert_eq!(ran[1].0, CREATE_URI_DETAILS);
    assert!(ran[0].0.starts_with("CREATE TABLE IF NOT EXISTS uri_map ("));
    assert!(ran[1].0.contains("FOREIGN KEY(s_uri) REFERENCES uri_map(s_uri)"));
    assert!(ran.iter().all(|r| r.1.is_empty() && r.2 == Yields::Nothing));
    assert!(matches!(result, Some(Event::Ready)));
}

#[test]
fn setup_stops_at_first_failure() {
    let (ran, result) = run(setup_table(), vec![Event::Failed("locked".to_string())]);
    assert_eq!(ran.len(), 1);
    assert!(matches!(result, Some(Event::Failed(ref m)) if m == "locked"));
}

#[test]
fn fetch_reads_real_uri() {
    let (ran, result) = run(fetch_real_uri("3".to_string()), vec![Event::Text("https://example.com".to_string())]);
    assert_eq!(ran, vec![(SELECT_REAL_URI.to_string(), vec!["'3'".to_string()], Yields::OneText)]);
    assert_eq!(SELECT_REAL_URI, "SELECT r_uri FROM  uri_map WHERE s_uri = ?1");
    assert_eq!(text_of(result), Some("https://example.com".to_string()));
}

#[test]
fn add_real_uri_gives_row_id_text() {
    let (ran, result) = run(add_real_uri("https://example.com".to_string()), vec![Event::Ready, Event::RowId(12)]);
    assert_eq!(
        ran,
        vec![
            (INSERT_REAL_URI.to_string(), vec!["'https://example.com'".to_string()], Yields::Nothing),
            (SELECT_LAST_ROW_ID.to_string(), vec![], Yields::OneRowId),
        ]
    );
    assert_eq!(text_of(result), Some("12".to_string()));
}

#[test]
fn add_real_uri_failures() {
    let (ran, result) = run(add_real_uri("u".to_string()), vec![Event::Failed("full".to_string())]);
    assert_eq!(ran.len(), 1);
    assert!(matches!(result, Some(Event::Failed(ref m)) if m == "full"));
    let (ran, result) = run(add_real_uri("u".to_string()), vec![Event::Ready, Event::Failed("gone".to_string())]);
    assert_eq!(ran.len(), 2);
    assert!(matches!(result, Some(Event::Failed(ref m)) if m == "gone"));
}

#[test]
fn delete_removes_mapping_then_details() {
    let (ran, result) = run(delete_short_uri("5".to_string()), vec![Event::Ready, Event::Ready]);
    assert_eq!(
        ran,
        vec![
            (DELETE_MAPPING.to_string(), vec!["'5'".to_string()], Yields::Nothing),
            (DELETE_DETAILS.to_string(), vec!["'5'".to_string()], Yields::Nothing),
        ]
    );
    assert!(matches!(result, Some(Event::Ready)));
    let (ran, result) = run(delete_short_uri("5".to_string()), vec![Event::Failed("busy".to_string())]);
    assert_eq!(ran.len(), 1);
    assert!(matches!(result, Some(Event::Failed(_))));
}

#[test]
fn add_detail_inserts_visit() {
    let (ran, result) = run(add_detail("5".to_string(), "127.0.0.1:53490".to_string()), vec![Event::Ready]);
    assert_eq!(
        ran,
        vec![(INSERT_DETAIL.to_string(), vec!["'5'".to_string(), "'127.0.0.1:53490'".to_string()], Yields::Nothing)]
    );
    assert!(matches!(result, Some(Event::Ready)));
}

#[test]
fn get_details_reads_page() {
    let rows = vec![(5, "a".to_string(), "t".to_string())];
    let (ran, result) = run(get_details("5".to_string(), 3, 100), vec![Event::Rows(rows)]);
    assert_eq!(
        ran,
        vec![(SELECT_DETAILS.to_string(), vec!["'5'".to_string(), "100".to_string(), "200".to_string()], Yields::AllRows)]
    );
    assert!(SELECT_DETAILS.contains("ORDER BY time LIMIT ?2 OFFSET ?3"));
    assert!(matches!(result, Some(Event::Rows(ref r)) if r.len() == 1 && r[0].0 == 5));
    let (ran, _) = run(get_details("5".to_string(), 1, 100), vec![Event::Rows(Vec::new())]);
    assert_eq!(ran[0].1, vec!["'5'".to_string(), "100".to_string(), "0".to_string()]);
}

#[test]
fn unanswering_outcome_runs_statement_again() {
    let (ran, result) = run(fetch_real_uri("3".to_string()), vec![Event::Ready, Event::Text("x".to_string())]);
    assert_eq!(ran.len(), 2);
    assert_eq!(ran[0], ran[1]);
    assert_eq!(text_of(result), Some("x".to_string()));
}
