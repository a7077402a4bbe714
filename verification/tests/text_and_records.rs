use jot_mcp::config::choose_db_path;
use jot_mcp::records::{note_from_row, NoteRow, APPLE_EPOCH_OFFSET};
use jot_mcp::replies::default_limit;
use jot_mcp::text::{decimal_string, join_strs, split_commas, to_ascii_upper};

#[test]
fn default_limit_is_ten() {
    assert_eq!(default_limit(), 10);
}

#[test]
fn decimal_renders_like_format() {
    for i in [0i64, 7, 10, 42, 1234567890, -1, -7, -10, i64::MAX, i64::MIN] {
        assert_eq!(decimal_string(i), format!("{}", i));
    }
    assert_eq!(decimal_string(-9223372036854775808), "-9223372036854775808");
}

#[test]
fn split_commas_matches_str_split() {
    for s in ["", "work", "a,b", "a,b,,c", ",", ",x,", "héllo,wörld"] {
        let expected: Vec<String> = s.split(',').map(|t| t.to_string()).collect();
        assert_eq!(split_commas(s), expected);
    }
    assert_eq!(split_commas(""), vec![String::new()]);
}

#[test]
fn split_then_join_gives_back_the_text() {
    for s in ["", "a", "a,b,,c", ",,", "urgent,home"] {
        let pieces = split_commas(s);
        assert!(pieces.iter().all(|p| !p.contains(',')));
        let parts: Vec<&str> = pieces.iter().map(|p| p.as_str()).collect();
        assert_eq!(join_strs(&parts, ","), s);
    }
}

#[test]
fn join_strs_matches_join() {
    let parts = vec!["ZTITLE = ?", "ZTEXT = ?", "Z_OPT = 1"];
    assert_eq!(join_strs(&parts, ", "), parts.join(", "));
    let none: Vec<&str> = Vec::new();
    assert_eq!(join_strs(&none, ", "), "");
}

#[test]
fn ascii_upper_case() {
    assert_eq!(to_ascii_upper("abc-09f-xyz"), "ABC-09F-XYZ");
    assert_eq!(to_ascii_upper("already UP é"), "ALREADY UP é");
}

fn row(tags: Option<&str>, completed: Option<i32>, pinned: Option<i32>, secs: u64) -> NoteRow {
    NoteRow {
        id: 5,
        title: Some("Groceries".to_string()),
        content: None,
        completed,
        pinned,
        folder: Some("Home".to_string()),
        created_seconds: secs,
        tags: tags.map(|t| t.to_string()),
    }
}

#[test]
fn note_from_row_decodes_columns() {
    let note = note_from_row(row(Some("urgent,home"), Some(1), Some(0), 700_000_000));
    assert_eq!(note.id, 5);
    assert_eq!(note.title.as_deref(), Some("Groceries"));
    assert_eq!(note.content, None);
    assert!(note.completed);
    assert!(!note.pinned);
    assert_eq!(note.folder.as_deref(), Some("Home"));
    assert_eq!(note.tags, vec!["urgent".to_string(), "home".to_string()]);
    assert_eq!(note.created_at, 1_678_307_200);
}

#[test]
fn note_from_row_defaults() {
    let note = note_from_row(row(None, None, Some(-3), 0));
    assert!(!note.completed);
    assert!(note.pinned);
    assert!(note.tags.is_empty());
    assert_eq!(note.created_at, APPLE_EPOCH_OFFSET);
    assert_eq!(APPLE_EPOCH_OFFSET, 978_307_200);
}

#[test]
fn db_path_prefers_the_override() {
    assert_eq!(
        choose_db_path(Some("/data/private.sqlite"), Some("/Users/me")).as_deref(),
        Some("/data/private.sqlite")
    );
    assert_eq!(
        choose_db_path(None, Some("/Users/me")).as_deref(),
        Some("/Users/me/Library/Group Containers/group.hirocloud.jotApp/CoreDataStores/Private/private.sqlite")
    );
    assert_eq!(choose_db_path(None, None), None);
}
