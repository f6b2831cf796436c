use e7::history::{header, needs_header, History};
use e7::item::Item;

#[test]
fn writes_header_once_and_rows_incrementally() {
    let row = String::from_utf8(History::new("").run_end("", 0, 0).unwrap()).unwrap();
    assert_eq!(row, ",,0,run_end,,0\n");
    assert!(needs_header(None));
    assert!(needs_header(Some(0)));
    assert!(!needs_header(Some(41)));
    let head = String::from_utf8(header().unwrap()).unwrap();
    assert_eq!(head, "timestamp,run_id,refresh,event,item,gold\n");
    let h = History::new("run1");
    let row = String::from_utf8(h.bought("2025-01-02T03:04:05+00:00", 3, Item::Cov).unwrap()).unwrap();
    assert!(row.ends_with(",run1,3,bought,covenant,184000\n"), "{}", row);
    assert_eq!(row, "2025-01-02T03:04:05+00:00,run1,3,bought,covenant,184000\n");
    let h = History::new("run2");
    let row = String::from_utf8(h.run_end("2025-01-02T03:04:05+00:00", 10, 184_000).unwrap()).unwrap();
    assert!(row.ends_with(",run2,10,run_end,,184000\n"), "{}", row);
}

#[test]
fn history_fields_are_quoted_when_needed() {
    let h = History::new("a,b");
    let row = String::from_utf8(h.bought("t", 0, Item::Fb).unwrap()).unwrap();
    assert_eq!(row, "t,\"a,b\",0,bought,friendship,18000\n");
}
