use std::path::PathBuf;

use clipboard_manager::capture::store_capture;
use clipboard_manager::commands::{clear_history, delete_clip, list_clips, search_clips};
use clipboard_manager::db::{self, ClipEntry};

fn text_entry(content: &str, hash: &str, created_at: i64) -> ClipEntry {
    ClipEntry {
        id: 0,
        kind: "text".to_string(),
        content: Some(content.to_string()),
        image_path: None,
        source_app: Some("Terminal".to_string()),
        hash: hash.to_string(),
        pinned: false,
        created_at,
    }
}

fn contents(rows: &[ClipEntry]) -> Vec<String> {
    rows.iter().map(|e| e.content.clone().unwrap_or_default()).collect()
}

#[test]
fn history_store_scenario() {
    let conn = db::open(&PathBuf::from("/tmp")).expect("open");
    clear_history(&conn).expect("clear");

    db::upsert(&conn, &text_entry("alpha report", "h1", 10)).unwrap();
    db::upsert(&conn, &text_entry("beta notes", "h2", 20)).unwrap();
    db::upsert(&conn, &text_entry("gamma user@example.com", "h3", 30)).unwrap();

    // newest first, with limit and offset
    let all = db::list(&conn, 100, 0).unwrap();
    assert_eq!(contents(&all), vec!["gamma user@example.com", "beta notes", "alpha report"]);
    assert!(all.iter().all(|e| !e.pinned && e.kind == "text"));
    assert_eq!(contents(&db::list(&conn, 1, 1).unwrap()), vec!["beta notes"]);
    assert_eq!(contents(&list_clips(&conn, None, None).unwrap()).len(), 3);

    // the same hash only refreshes the creation time
    db::upsert(&conn, &text_entry("alpha report", "h1", 40)).unwrap();
    let all = db::list(&conn, 100, 0).unwrap();
    assert_eq!(contents(&all), vec!["alpha report", "gamma user@example.com", "beta notes"]);
    assert_eq!(all[0].created_at, 40);

    // ranked prefix search
    let found = db::search(&conn, "bet", 10).unwrap();
    assert_eq!(contents(&found), vec!["beta notes"]);

    // an operator-laden query falls back to LIKE on the raw text
    let found = db::search(&conn, "user@example", 10).unwrap();
    assert_eq!(contents(&found), vec!["gamma user@example.com"]);
    assert!(db::search(&conn, "zzz", 10).unwrap().is_empty());

    // a blank query lists instead of searching
    assert_eq!(search_clips(&conn, "   ", Some(2)).unwrap().len(), 2);
    assert_eq!(contents(&search_clips(&conn, "gam", None).unwrap()), vec!["gamma user@example.com"]);

    // lookup and delete by id
    let id = all[1].id;
    let got = db::get_by_id(&conn, id).unwrap().expect("present");
    assert_eq!(got.content.as_deref(), Some("gamma user@example.com"));
    delete_clip(&conn, id).unwrap();
    assert!(db::get_by_id(&conn, id).unwrap().is_none());

    // storing a capture keeps only the newest max_items unpinned clips
    store_capture(&conn, &text_entry("delta", "h4", 50), 2).unwrap();
    let all = db::list(&conn, 100, 0).unwrap();
    assert_eq!(contents(&all), vec!["delta", "alpha report"]);

    db::prune(&conn, 1).unwrap();
    assert_eq!(contents(&db::list(&conn, 100, 0).unwrap()), vec!["delta"]);

    clear_history(&conn).unwrap();
    assert!(db::list(&conn, 100, 0).unwrap().is_empty());
    assert!(db::search(&conn, "delta", 10).unwrap().is_empty());
}

#[test]
fn open_fails_in_a_missing_directory() {
    let r = db::open(&PathBuf::from("/nonexistent-dir-for-history/sub"));
    let e = r.err().expect("must fail");
    assert!(!e.message.is_empty());
}
