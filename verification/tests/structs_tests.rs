use shortener::http_structs::{HttpRequest, Method};
use shortener::paging::{page_offset, DETAILS_PAGE_SIZE};
use shortener::structs::{detail_entries, serialize_details, DetailEntry, Shorten};

#[test]
fn detail_entry_new_keeps_fields() {
    let e = DetailEntry::new("127.0.0.1:53490".to_string(), "3".to_string(), "2023-11-28 20:12:19".to_string());
    assert_eq!(e.client_ip, "127.0.0.1:53490");
    assert_eq!(e.s_uri, "3");
    assert_eq!(e.timestamp, "2023-11-28 20:12:19");
}

#[test]
fn detail_entries_show_each_row() {
    let rows = vec![
        (1, "192.168.0.2:4000".to_string(), "2023-11-28 19:46:36".to_string()),
        (3, "127.0.0.1:53490".to_string(), "2023-11-28 20:12:19".to_string()),
        (-7, "10.0.0.1:1".to_string(), "t".to_string()),
    ];
    let entries = detail_entries(&rows);
    assert_eq!(entries.len(), 3);
    assert_eq!(entries[0].client_ip, "192.168.0.2:4000");
    assert_eq!(entries[0].s_uri, "1");
    assert_eq!(entries[0].timestamp, "2023-11-28 19:46:36");
    assert_eq!(entries[1].s_uri, "3");
    assert_eq!(entries[1].client_ip, "127.0.0.1:53490");
    assert_eq!(entries[2].s_uri, "-7");
    assert!(detail_entries(&Vec::new()).is_empty());
}

#[test]
fn page_offsets() {
    assert_eq!(DETAILS_PAGE_SIZE, 100);
    assert_eq!(page_offset(1, 100), 0);
    assert_eq!(page_offset(2, 100), 100);
    assert_eq!(page_offset(7, 100), 600);
    assert_eq!(page_offset(3, 0), 0);
}

#[test]
fn consecutive_pages_are_adjacent() {
    for page in 1..50usize {
        assert_eq!(page_offset(page + 1, DETAILS_PAGE_SIZE), page_offset(page, DETAILS_PAGE_SIZE) + DETAILS_PAGE_SIZE);
    }
}

#[test]
fn plain_records() {
    let s = Shorten { r_uri: "https://example.com".to_string() };
    assert_eq!(s.r_uri, "https://example.com");
    let r = HttpRequest { method: Method::GET, path: "/1".to_string(), protocol: "HTTP/1.1".to_string() };
    assert!(matches!(r.method, Method::GET));
    assert_eq!(r.path, "/1");
    assert_eq!(r.protocol, "HTTP/1.1");
}

#[test]
fn serialize_details_writes_entry_objects() {
    let entries = vec![
        DetailEntry::new("192.168.0.2:4000".to_string(), "1".to_string(), "2023-11-28 19:46:36".to_string()),
        DetailEntry::new("127.0.0.1:53490".to_string(), "3".to_string(), "2023-11-28 20:12:19".to_string()),
    ];
    assert_eq!(
        serialize_details(&entries),
        Ok("[{\"client_ip\":\"192.168.0.2:4000\",\"s_uri\":\"1\",\"timestamp\":\"2023-11-28 19:46:36\"},{\"client_ip\":\"127.0.0.1:53490\",\"s_uri\":\"3\",\"timestamp\":\"2023-11-28 20:12:19\"}]".to_string())
    );
    assert_eq!(serialize_details(&Vec::new()), Ok("[]".to_string()));
    let quoted = vec![DetailEntry::new("a\"b".to_string(), "-1".to_string(), "t\n".to_string())];
    assert_eq!(serialize_details(&quoted), Ok("[{\"client_ip\":\"a\\\"b\",\"s_uri\":\"-1\",\"timestamp\":\"t\\n\"}]".to_string()));
}

#[test]
fn pages_partition_records() {
    // 250 records, a hundred to a page: three pages, each record on exactly one.
    let total = 250usize;
    let pages = (total + DETAILS_PAGE_SIZE - 1) / DETAILS_PAGE_SIZE;
    assert_eq!(pages, 3);
    let mut seen = vec![0usize; total];
    for page in 1..=pages {
        let start = page_offset(page, DETAILS_PAGE_SIZE);
        for i in start..(start + DETAILS_PAGE_SIZE).min(total) {
            seen[i] += 1;
        }
    }
    assert!(seen.iter().all(|&n| n == 1));
    assert!(page_offset(pages + 1, DETAILS_PAGE_SIZE) >= total);
}
