use jot_mcp::ident::{new_reminder_identifier, reminder_identifier_for};
use jot_mcp::sql::{Entity, SqlValue, Statement, add_tag_statement, claim_next_key, completed_statement, delete_folder_notes_statement, delete_note_statement, entity_number_query, folder_insert, folder_insert_with_id, folders_query, max_key_query, move_to_folder_statement, note_folder_query, note_insert, note_insert_with_id, notes_query, pinned_statement, reminder_statement, remove_tag_statement, set_reminder_statement_with, tag_insert, tag_insert_with_id, tags_query, trash_folder_query, unfile_statement, update_statement};

fn text(s: &str) -> SqlValue {
    SqlValue::Text(s.to_string())
}

const BASE: &str = "SELECT n.Z_PK, n.ZTITLE, n.ZTEXT, n.ZCOMPLETED, n.ZPINNED, f.ZNAME, n.ZCREATED_AT, (SELECT GROUP_CONCAT(t.ZNAME, ',') FROM Z_2TAGS jt JOIN ZCDTAG t ON jt.Z_3TAGS = t.Z_PK WHERE jt.Z_2NOTES = n.Z_PK) FROM ZCDNOTE n LEFT JOIN ZCDFOLDER f ON n.ZFOLDER = f.Z_PK";

#[test]
fn notes_query_without_search() {
    let st = notes_query(10, None);
    assert_eq!(st.sql, format!("{} ORDER BY n.ZCREATED_AT DESC LIMIT ?1", BASE));
    assert_eq!(st.params, vec![SqlValue::Integer(10)]);
}

#[test]
fn notes_query_with_search() {
    let st = notes_query(3, Some("milk"));
    assert_eq!(
        st.sql,
        format!("{} WHERE n.ZTITLE LIKE ?1 OR n.ZTEXT LIKE ?2 ORDER BY n.ZCREATED_AT DESC LIMIT ?3", BASE)
    );
    assert_eq!(st.params, vec![text("%milk%"), text("%milk%"), SqlValue::Integer(3)]);
}

#[test]
fn listing_queries() {
    assert_eq!(folders_query().sql, "SELECT Z_PK, ZNAME FROM ZCDFOLDER WHERE ZISSYSTEM = 0 ORDER BY ZNAME");
    assert!(folders_query().params.is_empty());
    assert_eq!(tags_query().sql, "SELECT Z_PK, ZNAME, ZCOLORHEX FROM ZCDTAG ORDER BY ZNAME");
    assert_eq!(
        trash_folder_query().sql,
        "SELECT Z_PK FROM ZCDFOLDER WHERE ZISSYSTEM = 1 AND ZNAME = 'Trash' ORDER BY Z_PK ASC LIMIT 1"
    );
}

#[test]
fn key_queries_name_the_entity() {
    assert_eq!(
        entity_number_query(Entity::Folder).sql,
        "SELECT Z_ENT FROM Z_PRIMARYKEY WHERE Z_NAME = 'CDFolder'"
    );
    assert_eq!(
        max_key_query(Entity::Note).sql,
        "SELECT Z_MAX FROM Z_PRIMARYKEY WHERE Z_NAME = 'CDNote'"
    );
    assert_eq!(Entity::Tag.name(), "CDTag");
}

#[test]
fn claimed_key_is_one_past_the_max() {
    let (key, st) = claim_next_key(Entity::Tag, 41);
    assert_eq!(key, 42);
    assert_eq!(st.sql, "UPDATE Z_PRIMARYKEY SET Z_MAX = ?1 WHERE Z_NAME = 'CDTag'");
    assert_eq!(st.params, vec![SqlValue::Integer(42)]);
    let (next, _) = claim_next_key(Entity::Tag, key);
    assert!(next > key);
}

#[test]
fn folder_insert_binds_its_values() {
    let id = [7u8; 16];
    let st = folder_insert_with_id(9, 4, 1_700_000_000, "Work", id);
    assert_eq!(st.sql, "INSERT INTO ZCDFOLDER (Z_PK, Z_ENT, Z_OPT, ZISDYNAMIC, ZISPARTICIPANT, ZISSHARED, ZISSYSTEM, ZORDER, ZSHAREDBYME, ZCREATED_AT, ZNAME, ZID) VALUES (?1, ?2, 1, 0, 0, 0, 0, 0, 0, ?3, ?4, ?5)");
    assert_eq!(
        st.params,
        vec![
            SqlValue::Integer(9),
            SqlValue::Integer(4),
            SqlValue::UnixTime(1_700_000_000),
            text("Work"),
            SqlValue::Blob(id)
        ]
    );
}

fn random_id_of(st: &Statement) -> [u8; 16] {
    match st.params.last() {
        Some(SqlValue::Blob(b)) => *b,
        other => panic!("no id: {:?}", other),
    }
}

#[test]
fn fresh_inserts_carry_random_uuids() {
    let a = folder_insert(1, 2, 3, "A");
    let b = folder_insert(1, 2, 3, "A");
    for st in [&a, &b] {
        let id = random_id_of(st);
        assert_eq!(id[6] >> 4, 4);
        assert_eq!(id[8] >> 6, 2);
    }
    assert_ne!(random_id_of(&a), random_id_of(&b));
    let n = note_insert(1, 2, 3, "t", "c", false, None);
    assert_eq!(random_id_of(&n)[6] >> 4, 4);
    let t = tag_insert(1, 2, "x", None);
    assert_eq!(random_id_of(&t)[8] >> 6, 2);
}

#[test]
fn note_insert_binds_its_values() {
    let id = [1u8; 16];
    let st = note_insert_with_id(12, 3, 100, "Title", "Body", true, Some(4), id);
    assert_eq!(st.sql, "INSERT INTO ZCDNOTE (Z_PK, Z_ENT, Z_OPT, ZCLOUDVERSION, ZTITLE, ZTEXT, ZCOMPLETED, ZFOLDER, ZCREATED_AT, ZEDITED_AT, ZID) VALUES (?1, ?2, 1, 1, ?3, ?4, ?5, ?6, ?7, ?8, ?9)");
    assert_eq!(
        st.params,
        vec![
            SqlValue::Integer(12),
            SqlValue::Integer(3),
            text("Title"),
            text("Body"),
            SqlValue::Integer(1),
            SqlValue::Integer(4),
            SqlValue::UnixTime(100),
            SqlValue::UnixTime(100),
            SqlValue::Blob(id)
        ]
    );
    let unfiled = note_insert_with_id(12, 3, 100, "T", "B", false, None, id);
    assert_eq!(unfiled.params[4], SqlValue::Integer(0));
    assert_eq!(unfiled.params[5], SqlValue::Null);
}

#[test]
fn tag_insert_binds_its_values() {
    let id = [2u8; 16];
    let st = tag_insert_with_id(8, 6, "urgent", Some("#FF0000"), id);
    assert_eq!(st.sql, "INSERT INTO ZCDTAG (Z_PK, Z_ENT, Z_OPT, ZNAME, ZCOLORHEX, ZID) VALUES (?1, ?2, 1, ?3, ?4, ?5)");
    assert_eq!(
        st.params,
        vec![SqlValue::Integer(8), SqlValue::Integer(6), text("urgent"), text("#FF0000"), SqlValue::Blob(id)]
    );
    assert_eq!(tag_insert_with_id(8, 6, "u", None, id).params[3], SqlValue::Null);
}

#[test]
fn flag_updates() {
    let st = completed_statement(3, true, 50);
    assert_eq!(st.sql, "UPDATE ZCDNOTE SET ZCOMPLETED = ?1, ZEDITED_AT = ?2, Z_OPT = COALESCE(Z_OPT, 0) + 1 WHERE Z_PK = ?3");
    assert_eq!(st.params, vec![SqlValue::Integer(1), SqlValue::UnixTime(50), SqlValue::Integer(3)]);
    let st = pinned_statement(3, false, 50);
    assert_eq!(st.sql, "UPDATE ZCDNOTE SET ZPINNED = ?1, ZEDITED_AT = ?2, Z_OPT = COALESCE(Z_OPT, 0) + 1 WHERE Z_PK = ?3");
    assert_eq!(st.params, vec![SqlValue::Integer(0), SqlValue::UnixTime(50), SqlValue::Integer(3)]);
}

#[test]
fn update_without_fields_has_no_statement() {
    assert!(update_statement(1, None, None, None, 5).is_none());
}

#[test]
fn update_sets_only_given_fields() {
    let st = update_statement(7, Some("New"), None, None, 5).unwrap();
    assert_eq!(
        st.sql,
        "UPDATE ZCDNOTE SET ZTITLE = ?, ZEDITED_AT = ?, Z_OPT = COALESCE(Z_OPT, 0) + 1 WHERE Z_PK = ?"
    );
    assert_eq!(st.params, vec![text("New"), SqlValue::UnixTime(5), SqlValue::Integer(7)]);
    let st = update_statement(7, None, Some("Body"), Some(2), 5).unwrap();
    assert_eq!(
        st.sql,
        "UPDATE ZCDNOTE SET ZTEXT = ?, ZFOLDER = ?, ZEDITED_AT = ?, Z_OPT = COALESCE(Z_OPT, 0) + 1 WHERE Z_PK = ?"
    );
    assert_eq!(
        st.params,
        vec![text("Body"), SqlValue::Integer(2), SqlValue::UnixTime(5), SqlValue::Integer(7)]
    );
    let st = update_statement(7, Some("a"), Some("b"), Some(3), 5).unwrap();
    assert_eq!(
        st.sql,
        "UPDATE ZCDNOTE SET ZTITLE = ?, ZTEXT = ?, ZFOLDER = ?, ZEDITED_AT = ?, Z_OPT = COALESCE(Z_OPT, 0) + 1 WHERE Z_PK = ?"
    );
    assert_eq!(st.params.len(), st.sql.matches('?').count());
}

#[test]
fn trash_and_restore_statements() {
    let st = move_to_folder_statement(4, 1, 9);
    assert_eq!(st.sql, "UPDATE ZCDNOTE SET ZFOLDER = ?1, ZEDITED_AT = ?2, Z_OPT = COALESCE(Z_OPT, 0) + 1 WHERE Z_PK = ?3");
    assert_eq!(st.params, vec![SqlValue::Integer(1), SqlValue::UnixTime(9), SqlValue::Integer(4)]);
    let st = unfile_statement(4, 9);
    assert_eq!(st.sql, "UPDATE ZCDNOTE SET ZFOLDER = NULL, ZEDITED_AT = ?1, Z_OPT = COALESCE(Z_OPT, 0) + 1 WHERE Z_PK = ?2");
    assert_eq!(st.params, vec![SqlValue::UnixTime(9), SqlValue::Integer(4)]);
    assert_eq!(note_folder_query(4).sql, "SELECT ZFOLDER FROM ZCDNOTE WHERE Z_PK = ?1");
    assert_eq!(delete_note_statement(4).sql, "DELETE FROM ZCDNOTE WHERE Z_PK = ?1");
    let st = delete_folder_notes_statement(1);
    assert_eq!(st.sql, "DELETE FROM ZCDNOTE WHERE ZFOLDER = ?1");
    assert_eq!(st.params, vec![SqlValue::Integer(1)]);
}

#[test]
fn tag_link_statements() {
    let st = add_tag_statement(3, 8);
    assert_eq!(st.sql, "INSERT OR IGNORE INTO Z_2TAGS (Z_2NOTES, Z_3TAGS) VALUES (?1, ?2)");
    assert_eq!(st.params, vec![SqlValue::Integer(3), SqlValue::Integer(8)]);
    let st = remove_tag_statement(3, 8);
    assert_eq!(st.sql, "DELETE FROM Z_2TAGS WHERE Z_2NOTES = ?1 AND Z_3TAGS = ?2");
    assert_eq!(st.params, vec![SqlValue::Integer(3), SqlValue::Integer(8)]);
}

#[test]
fn reminder_identifier_for_known_bytes() {
    let b = [
        0x12, 0x34, 0x56, 0x78, 0x9a, 0xbc, 0x4d, 0xef, 0x80, 0x01, 0x23, 0x45, 0x67, 0x89, 0xab, 0xcd,
    ];
    assert_eq!(
        reminder_identifier_for(b),
        "note_reminder_12345678-9ABC-4DEF-8001-23456789ABCD"
    );
}

#[test]
fn fresh_reminder_identifiers_have_jots_shape() {
    let r = new_reminder_identifier();
    assert_eq!(r.len(), 50);
    assert!(r.starts_with("note_reminder_"));
    let u: Vec<char> = r["note_reminder_".len()..].chars().collect();
    for (i, c) in u.iter().enumerate() {
        if [8, 13, 18, 23].contains(&i) {
            assert_eq!(*c, '-');
        } else {
            assert!(c.is_ascii_digit() || ('A'..='F').contains(c));
        }
    }
    assert_eq!(u[14], '4');
    assert_ne!(new_reminder_identifier(), r);
}

#[test]
fn reminder_statements() {
    let st = reminder_statement(6, Some(1_700_000_000), 77);
    assert_eq!(st.sql, "UPDATE ZCDNOTE SET ZREMINDERDATE = ?1, ZREMINDERIDENTIFIER = ?2, ZEDITED_AT = ?3, Z_OPT = COALESCE(Z_OPT, 0) + 1 WHERE Z_PK = ?4");
    assert_eq!(st.params.len(), 4);
    assert_eq!(st.params[0], SqlValue::UnixTime(1_700_000_000));
    match &st.params[1] {
        SqlValue::Text(t) => assert!(t.starts_with("note_reminder_") && t.len() == 50),
        other => panic!("unexpected {:?}", other),
    }
    assert_eq!(st.params[2], SqlValue::UnixTime(77));
    assert_eq!(st.params[3], SqlValue::Integer(6));
    let st = reminder_statement(6, None, 77);
    assert_eq!(st.sql, "UPDATE ZCDNOTE SET ZREMINDERDATE = NULL, ZREMINDERIDENTIFIER = NULL, ZEDITED_AT = ?1, Z_OPT = COALESCE(Z_OPT, 0) + 1 WHERE Z_PK = ?2");
    assert_eq!(st.params, vec![SqlValue::UnixTime(77), SqlValue::Integer(6)]);
    let st = set_reminder_statement_with(6, 10, "note_reminder_X", 11);
    assert_eq!(st.params[1], text("note_reminder_X"));
}

#[test]
fn every_statement_binds_each_placeholder() {
    let id = [3u8; 16];
    let all = vec![
        notes_query(5, None),
        notes_query(5, Some("x")),
        folders_query(),
        tags_query(),
        entity_number_query(Entity::Note),
        max_key_query(Entity::Folder),
        claim_next_key(Entity::Note, 1).1,
        folder_insert_with_id(1, 2, 3, "f", id),
        note_insert_with_id(1, 2, 3, "t", "c", true, Some(2), id),
        tag_insert_with_id(1, 2, "t", Some("#000000"), id),
        completed_statement(1, true, 2),
        pinned_statement(1, true, 2),
        update_statement(1, Some("t"), None, Some(3), 2).unwrap(),
        trash_folder_query(),
        move_to_folder_statement(1, 2, 3),
        unfile_statement(1, 2),
        note_folder_query(1),
        delete_note_statement(1),
        delete_folder_notes_statement(1),
        add_tag_statement(1, 2),
        remove_tag_statement(1, 2),
        reminder_statement(1, Some(2), 3),
        reminder_statement(1, None, 3),
    ];
    for st in all {
        assert_eq!(st.sql.matches('?').count(), st.params.len(), "{}", st.sql);
    }
}
