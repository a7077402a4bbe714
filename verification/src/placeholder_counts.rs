//! How many placeholders (`?`) each fixed piece of SQL text holds.

use vstd::prelude::*;
use crate::sql::{
    ADD_TAG_SQL, CLAUSE_SEPARATOR, CLEAR_REMINDER_SQL, DELETE_FOLDER_NOTES_SQL, DELETE_NOTE_SQL,
    EDITED_CLAUSE, ENT_QUERY_PREFIX, FOLDERS_SQL, FOLDER_CLAUSE, FOLDER_INSERT_SQL,
    MAX_QUERY_PREFIX, MAX_UPDATE_PREFIX, MOVE_TO_FOLDER_SQL, NOTES_ALL_SUFFIX,
    NOTES_SEARCH_SUFFIX, NOTES_SELECT_SQL, NOTE_FOLDER_SQL, NOTE_INSERT_SQL, REMOVE_TAG_SQL,
    SET_COMPLETED_SQL, SET_PINNED_SQL, SET_REMINDER_SQL, TAGS_SQL, TAG_INSERT_SQL, TEXT_CLAUSE,
    TITLE_CLAUSE, TRASH_FOLDER_SQL, UNFILE_SQL, UPDATE_PREFIX, UPDATE_SUFFIX, VERSION_CLAUSE,
};
use crate::text::{count_char, count_from, lemma_count_from};

verus! {

#[verifier::rlimit(100)]
proof fn placeholders_in_notes_select_sql()
    ensures
        count_char(NOTES_SELECT_SQL@, '?') == 0,
{
    reveal_strlit("SELECT n.Z_PK, n.ZTITLE, n.ZTEXT, n.ZCOMPLETED, n.ZPINNED, f.ZNAME, n.ZCREATED_AT, \
    (SELECT GROUP_CONCAT(t.ZNAME, ',') FROM Z_2TAGS jt JOIN ZCDTAG t ON jt.Z_3TAGS = t.Z_PK WHERE jt.Z_2NOTES = n.Z_PK) \
    FROM ZCDNOTE n LEFT JOIN ZCDFOLDER f ON n.ZFOLDER = f.Z_PK");
    lemma_count_from(NOTES_SELECT_SQL@, 0, '?');
    assert(NOTES_SELECT_SQL@.skip(0) =~= NOTES_SELECT_SQL@);
    reveal_with_fuel(count_from, 32);
    assert(count_from(NOTES_SELECT_SQL@, 240, '?') == 0);
    assert(count_from(NOTES_SELECT_SQL@, 210, '?') == 0);
    assert(count_from(NOTES_SELECT_SQL@, 180, '?') == 0);
    assert(count_from(NOTES_SELECT_SQL@, 150, '?') == 0);
    assert(count_from(NOTES_SELECT_SQL@, 120, '?') == 0);
    assert(count_from(NOTES_SELECT_SQL@, 90, '?') == 0);
    assert(count_from(NOTES_SELECT_SQL@, 60, '?') == 0);
    assert(count_from(NOTES_SELECT_SQL@, 30, '?') == 0);
}

#[verifier::rlimit(100)]
proof fn placeholders_in_notes_search_suffix()
    ensures
        count_char(NOTES_SEARCH_SUFFIX@, '?') == 3,
{
    reveal_strlit(" WHERE n.ZTITLE LIKE ?1 OR n.ZTEXT LIKE ?2 ORDER BY n.ZCREATED_AT DESC LIMIT ?3");
    lemma_count_from(NOTES_SEARCH_SUFFIX@, 0, '?');
    assert(NOTES_SEARCH_SUFFIX@.skip(0) =~= NOTES_SEARCH_SUFFIX@);
    reveal_with_fuel(count_from, 32);
    assert(count_from(NOTES_SEARCH_SUFFIX@, 60, '?') == 1);
    assert(count_from(NOTES_SEARCH_SUFFIX@, 30, '?') == 2);
}

#[verifier::rlimit(100)]
proof fn placeholders_in_notes_all_suffix()
    ensures
        count_char(NOTES_ALL_SUFFIX@, '?') == 1,
{
    reveal_strlit(" ORDER BY n.ZCREATED_AT DESC LIMIT ?1");
    lemma_count_from(NOTES_ALL_SUFFIX@, 0, '?');
    assert(NOTES_ALL_SUFFIX@.skip(0) =~= NOTES_ALL_SUFFIX@);
    reveal_with_fuel(count_from, 32);
    assert(count_from(NOTES_ALL_SUFFIX@, 30, '?') == 1);
}

#[verifier::rlimit(100)]
proof fn placeholders_in_folders_sql()
    ensures
        count_char(FOLDERS_SQL@, '?') == 0,
{
    reveal_strlit("SELECT Z_PK, ZNAME FROM ZCDFOLDER WHERE ZISSYSTEM = 0 ORDER BY ZNAME");
    lemma_count_from(FOLDERS_SQL@, 0, '?');
    assert(FOLDERS_SQL@.skip(0) =~= FOLDERS_SQL@);
    reveal_with_fuel(count_from, 32);
    assert(count_from(FOLDERS_SQL@, 60, '?') == 0);
    assert(count_from(FOLDERS_SQL@, 30, '?') == 0);
}

#[verifier::rlimit(100)]
proof fn placeholders_in_tags_sql()
    ensures
        count_char(TAGS_SQL@, '?') == 0,
{
    reveal_strlit("SELECT Z_PK, ZNAME, ZCOLORHEX FROM ZCDTAG ORDER BY ZNAME");
    lemma_count_from(TAGS_SQL@, 0, '?');
    assert(TAGS_SQL@.skip(0) =~= TAGS_SQL@);
    reveal_with_fuel(count_from, 32);
    assert(count_from(TAGS_SQL@, 30, '?') == 0);
}

#[verifier::rlimit(100)]
proof fn placeholders_in_ent_query_prefix()
    ensures
        count_char(ENT_QUERY_PREFIX@, '?') == 0,
{
    reveal_strlit("SELECT Z_ENT FROM Z_PRIMARYKEY WHERE Z_NAME = '");
    lemma_count_from(ENT_QUERY_PREFIX@, 0, '?');
    assert(ENT_QUERY_PREFIX@.skip(0) =~= ENT_QUERY_PREFIX@);
    reveal_with_fuel(count_from, 32);
    assert(count_from(ENT_QUERY_PREFIX@, 30, '?') == 0);
}

#[verifier::rlimit(100)]
proof fn placeholders_in_max_query_prefix()
    ensures
        count_char(MAX_QUERY_PREFIX@, '?') == 0,
{
    reveal_strlit("SELECT Z_MAX FROM Z_PRIMARYKEY WHERE Z_NAME = '");
    lemma_count_from(MAX_QUERY_PREFIX@, 0, '?');
    assert(MAX_QUERY_PREFIX@.skip(0) =~= MAX_QUERY_PREFIX@);
    reveal_with_fuel(count_from, 32);
    assert(count_from(MAX_QUERY_PREFIX@, 30, '?') == 0);
}

#[verifier::rlimit(100)]
proof fn placeholders_in_max_update_prefix()
    ensures
        count_char(MAX_UPDATE_PREFIX@, '?') == 1,
{
    reveal_strlit("UPDATE Z_PRIMARYKEY SET Z_MAX = ?1 WHERE Z_NAME = '");
    lemma_count_from(MAX_UPDATE_PREFIX@, 0, '?');
    assert(MAX_UPDATE_PREFIX@.skip(0) =~= MAX_UPDATE_PREFIX@);
    reveal_with_fuel(count_from, 32);
    assert(count_from(MAX_UPDATE_PREFIX@, 30, '?') == 1);
}

#[verifier::rlimit(100)]
proof fn placeholders_in_folder_insert_sql()
    ensures
        count_char(FOLDER_INSERT_SQL@, '?') == 5,
{
    reveal_strlit("INSERT INTO ZCDFOLDER (Z_PK, Z_ENT, Z_OPT, ZISDYNAMIC, ZISPARTICIPANT, ZISSHARED, ZISSYSTEM, ZORDER, ZSHAREDBYME, ZCREATED_AT, ZNAME, ZID) VALUES (?1, ?2, 1, 0, 0, 0, 0, 0, 0, ?3, ?4, ?5)");
    lemma_count_from(FOLDER_INSERT_SQL@, 0, '?');
    assert(FOLDER_INSERT_SQL@.skip(0) =~= FOLDER_INSERT_SQL@);
    reveal_with_fuel(count_from, 32);
    assert(count_from(FOLDER_INSERT_SQL@, 180, '?') == 2);
    assert(count_from(FOLDER_INSERT_SQL@, 150, '?') == 4);
    assert(count_from(FOLDER_INSERT_SQL@, 120, '?') == 5);
    assert(count_from(FOLDER_INSERT_SQL@, 90, '?') == 5);
    assert(count_from(FOLDER_INSERT_SQL@, 60, '?') == 5);
    assert(count_from(FOLDER_INSERT_SQL@, 30, '?') == 5);
}

#[verifier::rlimit(100)]
proof fn placeholders_in_note_insert_sql()
    ensures
        count_char(NOTE_INSERT_SQL@, '?') == 9,
{
    reveal_strlit("INSERT INTO ZCDNOTE (Z_PK, Z_ENT, Z_OPT, ZCLOUDVERSION, ZTITLE, ZTEXT, ZCOMPLETED, ZFOLDER, ZCREATED_AT, ZEDITED_AT, ZID) VALUES (?1, ?2, 1, 1, ?3, ?4, ?5, ?6, ?7, ?8, ?9)");
    lemma_count_from(NOTE_INSERT_SQL@, 0, '?');
    assert(NOTE_INSERT_SQL@.skip(0) =~= NOTE_INSERT_SQL@);
    reveal_with_fuel(count_from, 32);
    assert(count_from(NOTE_INSERT_SQL@, 150, '?') == 5);
    assert(count_from(NOTE_INSERT_SQL@, 120, '?') == 9);
    assert(count_from(NOTE_INSERT_SQL@, 90, '?') == 9);
    assert(count_from(NOTE_INSERT_SQL@, 60, '?') == 9);
    assert(count_from(NOTE_INSERT_SQL@, 30, '?') == 9);
}

#[verifier::rlimit(100)]
proof fn placeholders_in_tag_insert_sql()
    ensures
        count_char(TAG_INSERT_SQL@, '?') == 5,
{
    reveal_strlit("INSERT INTO ZCDTAG (Z_PK, Z_ENT, Z_OPT, ZNAME, ZCOLORHEX, ZID) VALUES (?1, ?2, 1, ?3, ?4, ?5)");
    lemma_count_from(TAG_INSERT_SQL@, 0, '?');
    assert(TAG_INSERT_SQL@.skip(0) =~= TAG_INSERT_SQL@);
    reveal_with_fuel(count_from, 32);
    assert(count_from(TAG_INSERT_SQL@, 90, '?') == 1);
    assert(count_from(TAG_INSERT_SQL@, 60, '?') == 5);
    assert(count_from(TAG_INSERT_SQL@, 30, '?') == 5);
}

#[verifier::rlimit(100)]
proof fn placeholders_in_set_completed_sql()
    ensures
        count_char(SET_COMPLETED_SQL@, '?') == 3,
{
    reveal_strlit("UPDATE ZCDNOTE SET ZCOMPLETED = ?1, ZEDITED_AT = ?2, Z_OPT = COALESCE(Z_OPT, 0) + 1 WHERE Z_PK = ?3");
    lemma_count_from(SET_COMPLETED_SQL@, 0, '?');
    assert(SET_COMPLETED_SQL@.skip(0) =~= SET_COMPLETED_SQL@);
    reveal_with_fuel(count_from, 32);
    assert(count_from(SET_COMPLETED_SQL@, 90, '?') == 1);
    assert(count_from(SET_COMPLETED_SQL@, 60, '?') == 1);
    assert(count_from(SET_COMPLETED_SQL@, 30, '?') == 3);
}

#[verifier::rlimit(100)]
proof fn placeholders_in_set_pinned_sql()
    ensures
        count_char(SET_PINNED_SQL@, '?') == 3,
{
    reveal_strlit("UPDATE ZCDNOTE SET ZPINNED = ?1, ZEDITED_AT = ?2, Z_OPT = COALESCE(Z_OPT, 0) + 1 WHERE Z_PK = ?3");
    lemma_count_from(SET_PINNED_SQL@, 0, '?');
    assert(SET_PINNED_SQL@.skip(0) =~= SET_PINNED_SQL@);
    reveal_with_fuel(count_from, 32);
    assert(count_from(SET_PINNED_SQL@, 90, '?') == 1);
    assert(count_from(SET_PINNED_SQL@, 60, '?') == 1);
    assert(count_from(SET_PINNED_SQL@, 30, '?') == 2);
}

proof fn placeholders_in_update_prefix()
    ensures
        count_char(UPDATE_PREFIX@, '?') == 0,
{
    reveal_strlit("UPDATE ZCDNOTE SET ");
    lemma_count_from(UPDATE_PREFIX@, 0, '?');
    assert(UPDATE_PREFIX@.skip(0) =~= UPDATE_PREFIX@);
    reveal_with_fuel(count_from, 21);
}

proof fn placeholders_in_update_suffix()
    ensures
        count_char(UPDATE_SUFFIX@, '?') == 1,
{
    reveal_strlit(" WHERE Z_PK = ?");
    lemma_count_from(UPDATE_SUFFIX@, 0, '?');
    assert(UPDATE_SUFFIX@.skip(0) =~= UPDATE_SUFFIX@);
    reveal_with_fuel(count_from, 17);
}

proof fn placeholders_in_clause_separator()
    ensures
        count_char(CLAUSE_SEPARATOR@, '?') == 0,
{
    reveal_strlit(", ");
    lemma_count_from(CLAUSE_SEPARATOR@, 0, '?');
    assert(CLAUSE_SEPARATOR@.skip(0) =~= CLAUSE_SEPARATOR@);
    reveal_with_fuel(count_from, 4);
}

proof fn placeholders_in_title_clause()
    ensures
        count_char(TITLE_CLAUSE@, '?') == 1,
{
    reveal_strlit("ZTITLE = ?");
    lemma_count_from(TITLE_CLAUSE@, 0, '?');
    assert(TITLE_CLAUSE@.skip(0) =~= TITLE_CLAUSE@);
    reveal_with_fuel(count_from, 12);
}

proof fn placeholders_in_text_clause()
    ensures
        count_char(TEXT_CLAUSE@, '?') == 1,
{
    reveal_strlit("ZTEXT = ?");
    lemma_count_from(TEXT_CLAUSE@, 0, '?');
    assert(TEXT_CLAUSE@.skip(0) =~= TEXT_CLAUSE@);
    reveal_with_fuel(count_from, 11);
}

proof fn placeholders_in_folder_clause()
    ensures
        count_char(FOLDER_CLAUSE@, '?') == 1,
{
    reveal_strlit("ZFOLDER = ?");
    lemma_count_from(FOLDER_CLAUSE@, 0, '?');
    assert(FOLDER_CLAUSE@.skip(0) =~= FOLDER_CLAUSE@);
    reveal_with_fuel(count_from, 13);
}

proof fn placeholders_in_edited_clause()
    ensures
        count_char(EDITED_CLAUSE@, '?') == 1,
{
    reveal_strlit("ZEDITED_AT = ?");
    lemma_count_from(EDITED_CLAUSE@, 0, '?');
    assert(EDITED_CLAUSE@.skip(0) =~= EDITED_CLAUSE@);
    reveal_with_fuel(count_from, 16);
}

proof fn placeholders_in_version_clause()
    ensures
        count_char(VERSION_CLAUSE@, '?') == 0,
{
    reveal_strlit("Z_OPT = COALESCE(Z_OPT, 0) + 1");
    lemma_count_from(VERSION_CLAUSE@, 0, '?');
    assert(VERSION_CLAUSE@.skip(0) =~= VERSION_CLAUSE@);
    reveal_with_fuel(count_from, 32);
}

#[verifier::rlimit(100)]
proof fn placeholders_in_trash_folder_sql()
    ensures
        count_char(TRASH_FOLDER_SQL@, '?') == 0,
{
    reveal_strlit("SELECT Z_PK FROM ZCDFOLDER WHERE ZISSYSTEM = 1 AND ZNAME = 'Trash' ORDER BY Z_PK ASC LIMIT 1");
    lemma_count_from(TRASH_FOLDER_SQL@, 0, '?');
    assert(TRASH_FOLDER_SQL@.skip(0) =~= TRASH_FOLDER_SQL@);
    reveal_with_fuel(count_from, 32);
    assert(count_from(TRASH_FOLDER_SQL@, 90, '?') == 0);
    assert(count_from(TRASH_FOLDER_SQL@, 60, '?') == 0);
    assert(count_from(TRASH_FOLDER_SQL@, 30, '?') == 0);
}

#[verifier::rlimit(100)]
proof fn placeholders_in_move_to_folder_sql()
    ensures
        count_char(MOVE_TO_FOLDER_SQL@, '?') == 3,
{
    reveal_strlit("UPDATE ZCDNOTE SET ZFOLDER = ?1, ZEDITED_AT = ?2, Z_OPT = COALESCE(Z_OPT, 0) + 1 WHERE Z_PK = ?3");
    lemma_count_from(MOVE_TO_FOLDER_SQL@, 0, '?');
    assert(MOVE_TO_FOLDER_SQL@.skip(0) =~= MOVE_TO_FOLDER_SQL@);
    reveal_with_fuel(count_from, 32);
    assert(count_from(MOVE_TO_FOLDER_SQL@, 90, '?') == 1);
    assert(count_from(MOVE_TO_FOLDER_SQL@, 60, '?') == 1);
    assert(count_from(MOVE_TO_FOLDER_SQL@, 30, '?') == 2);
}

#[verifier::rlimit(100)]
proof fn placeholders_in_unfile_sql()
    ensures
        count_char(UNFILE_SQL@, '?') == 2,
{
    reveal_strlit("UPDATE ZCDNOTE SET ZFOLDER = NULL, ZEDITED_AT = ?1, Z_OPT = COALESCE(Z_OPT, 0) + 1 WHERE Z_PK = ?2");
    lemma_count_from(UNFILE_SQL@, 0, '?');
    assert(UNFILE_SQL@.skip(0) =~= UNFILE_SQL@);
    reveal_with_fuel(count_from, 32);
    assert(count_from(UNFILE_SQL@, 90, '?') == 1);
    assert(count_from(UNFILE_SQL@, 60, '?') == 1);
    assert(count_from(UNFILE_SQL@, 30, '?') == 2);
}

#[verifier::rlimit(100)]
proof fn placeholders_in_note_folder_sql()
    ensures
        count_char(NOTE_FOLDER_SQL@, '?') == 1,
{
    reveal_strlit("SELECT ZFOLDER FROM ZCDNOTE WHERE Z_PK = ?1");
    lemma_count_from(NOTE_FOLDER_SQL@, 0, '?');
    assert(NOTE_FOLDER_SQL@.skip(0) =~= NOTE_FOLDER_SQL@);
    reveal_with_fuel(count_from, 32);
    assert(count_from(NOTE_FOLDER_SQL@, 30, '?') == 1);
}

#[verifier::rlimit(100)]
proof fn placeholders_in_delete_note_sql()
    ensures
        count_char(DELETE_NOTE_SQL@, '?') == 1,
{
    reveal_strlit("DELETE FROM ZCDNOTE WHERE Z_PK = ?1");
    lemma_count_from(DELETE_NOTE_SQL@, 0, '?');
    assert(DELETE_NOTE_SQL@.skip(0) =~= DELETE_NOTE_SQL@);
    reveal_with_fuel(count_from, 32);
    assert(count_from(DELETE_NOTE_SQL@, 30, '?') == 1);
}

#[verifier::rlimit(100)]
proof fn placeholders_in_delete_folder_notes_sql()
    ensures
        count_char(DELETE_FOLDER_NOTES_SQL@, '?') == 1,
{
    reveal_strlit("DELETE FROM ZCDNOTE WHERE ZFOLDER = ?1");
    lemma_count_from(DELETE_FOLDER_NOTES_SQL@, 0, '?');
    assert(DELETE_FOLDER_NOTES_SQL@.skip(0) =~= DELETE_FOLDER_NOTES_SQL@);
    reveal_with_fuel(count_from, 32);
    assert(count_from(DELETE_FOLDER_NOTES_SQL@, 30, '?') == 1);
}

#[verifier::rlimit(100)]
proof fn placeholders_in_add_tag_sql()
    ensures
        count_char(ADD_TAG_SQL@, '?') == 2,
{
    reveal_strlit("INSERT OR IGNORE INTO Z_2TAGS (Z_2NOTES, Z_3TAGS) VALUES (?1, ?2)");
    lemma_count_from(ADD_TAG_SQL@, 0, '?');
    assert(ADD_TAG_SQL@.skip(0) =~= ADD_TAG_SQL@);
    reveal_with_fuel(count_from, 32);
    assert(count_from(ADD_TAG_SQL@, 60, '?') == 1);
    assert(count_from(ADD_TAG_SQL@, 30, '?') == 2);
}

#[verifier::rlimit(100)]
proof fn placeholders_in_remove_tag_sql()
    ensures
        count_char(REMOVE_TAG_SQL@, '?') == 2,
{
    reveal_strlit("DELETE FROM Z_2TAGS WHERE Z_2NOTES = ?1 AND Z_3TAGS = ?2");
    lemma_count_from(REMOVE_TAG_SQL@, 0, '?');
    assert(REMOVE_TAG_SQL@.skip(0) =~= REMOVE_TAG_SQL@);
    reveal_with_fuel(count_from, 32);
    assert(count_from(REMOVE_TAG_SQL@, 30, '?') == 2);
}

#[verifier::rlimit(100)]
proof fn placeholders_in_set_reminder_sql()
    ensures
        count_char(SET_REMINDER_SQL@, '?') == 4,
{
    reveal_strlit("UPDATE ZCDNOTE SET ZREMINDERDATE = ?1, ZREMINDERIDENTIFIER = ?2, ZEDITED_AT = ?3, Z_OPT = COALESCE(Z_OPT, 0) + 1 WHERE Z_PK = ?4");
    lemma_count_from(SET_REMINDER_SQL@, 0, '?');
    assert(SET_REMINDER_SQL@.skip(0) =~= SET_REMINDER_SQL@);
    reveal_with_fuel(count_from, 32);
    assert(count_from(SET_REMINDER_SQL@, 120, '?') == 1);
    assert(count_from(SET_REMINDER_SQL@, 90, '?') == 1);
    assert(count_from(SET_REMINDER_SQL@, 60, '?') == 3);
    assert(count_from(SET_REMINDER_SQL@, 30, '?') == 4);
}

#[verifier::rlimit(100)]
proof fn placeholders_in_clear_reminder_sql()
    ensures
        count_char(CLEAR_REMINDER_SQL@, '?') == 2,
{
    reveal_strlit("UPDATE ZCDNOTE SET ZREMINDERDATE = NULL, ZREMINDERIDENTIFIER = NULL, ZEDITED_AT = ?1, Z_OPT = COALESCE(Z_OPT, 0) + 1 WHERE Z_PK = ?2");
    lemma_count_from(CLEAR_REMINDER_SQL@, 0, '?');
    assert(CLEAR_REMINDER_SQL@.skip(0) =~= CLEAR_REMINDER_SQL@);
    reveal_with_fuel(count_from, 32);
    assert(count_from(CLEAR_REMINDER_SQL@, 120, '?') == 1);
    assert(count_from(CLEAR_REMINDER_SQL@, 90, '?') == 1);
    assert(count_from(CLEAR_REMINDER_SQL@, 60, '?') == 2);
    assert(count_from(CLEAR_REMINDER_SQL@, 30, '?') == 2);
}

proof fn placeholders_in_cd_note()
    ensures
        count_char("CDNote"@, '?') == 0,
{
    reveal_strlit("CDNote");
    lemma_count_from("CDNote"@, 0, '?');
    assert("CDNote"@.skip(0) =~= "CDNote"@);
    reveal_with_fuel(count_from, 8);
}

proof fn placeholders_in_cd_folder()
    ensures
        count_char("CDFolder"@, '?') == 0,
{
    reveal_strlit("CDFolder");
    lemma_count_from("CDFolder"@, 0, '?');
    assert("CDFolder"@.skip(0) =~= "CDFolder"@);
    reveal_with_fuel(count_from, 10);
}

proof fn placeholders_in_cd_tag()
    ensures
        count_char("CDTag"@, '?') == 0,
{
    reveal_strlit("CDTag");
    lemma_count_from("CDTag"@, 0, '?');
    assert("CDTag"@.skip(0) =~= "CDTag"@);
    reveal_with_fuel(count_from, 7);
}

proof fn placeholders_in_quote()
    ensures
        count_char("'"@, '?') == 0,
{
    reveal_strlit("'");
    lemma_count_from("'"@, 0, '?');
    assert("'"@.skip(0) =~= "'"@);
    reveal_with_fuel(count_from, 3);
}

proof fn placeholders_in_percent()
    ensures
        count_char("%"@, '?') == 0,
{
    reveal_strlit("%");
    lemma_count_from("%"@, 0, '?');
    assert("%"@.skip(0) =~= "%"@);
    reveal_with_fuel(count_from, 3);
}

/// How many placeholders each fixed piece of SQL text holds.
pub(crate) proof fn lemma_placeholder_counts()
    ensures
        count_char(NOTES_SELECT_SQL@, '?') == 0,
        count_char(NOTES_SEARCH_SUFFIX@, '?') == 3,
        count_char(NOTES_ALL_SUFFIX@, '?') == 1,
        count_char(FOLDERS_SQL@, '?') == 0,
        count_char(TAGS_SQL@, '?') == 0,
        count_char(ENT_QUERY_PREFIX@, '?') == 0,
        count_char(MAX_QUERY_PREFIX@, '?') == 0,
        count_char(MAX_UPDATE_PREFIX@, '?') == 1,
        count_char(FOLDER_INSERT_SQL@, '?') == 5,
        count_char(NOTE_INSERT_SQL@, '?') == 9,
        count_char(TAG_INSERT_SQL@, '?') == 5,
        count_char(SET_COMPLETED_SQL@, '?') == 3,
        count_char(SET_PINNED_SQL@, '?') == 3,
        count_char(UPDATE_PREFIX@, '?') == 0,
        count_char(UPDATE_SUFFIX@, '?') == 1,
        count_char(CLAUSE_SEPARATOR@, '?') == 0,
        count_char(TITLE_CLAUSE@, '?') == 1,
        count_char(TEXT_CLAUSE@, '?') == 1,
        count_char(FOLDER_CLAUSE@, '?') == 1,
        count_char(EDITED_CLAUSE@, '?') == 1,
        count_char(VERSION_CLAUSE@, '?') == 0,
        count_char(TRASH_FOLDER_SQL@, '?') == 0,
        count_char(MOVE_TO_FOLDER_SQL@, '?') == 3,
        count_char(UNFILE_SQL@, '?') == 2,
        count_char(NOTE_FOLDER_SQL@, '?') == 1,
        count_char(DELETE_NOTE_SQL@, '?') == 1,
        count_char(DELETE_FOLDER_NOTES_SQL@, '?') == 1,
        count_char(ADD_TAG_SQL@, '?') == 2,
        count_char(REMOVE_TAG_SQL@, '?') == 2,
        count_char(SET_REMINDER_SQL@, '?') == 4,
        count_char(CLEAR_REMINDER_SQL@, '?') == 2,
        count_char("CDNote"@, '?') == 0,
        count_char("CDFolder"@, '?') == 0,
        count_char("CDTag"@, '?') == 0,
        count_char("'"@, '?') == 0,
        count_char("%"@, '?') == 0,
{
    placeholders_in_notes_select_sql();
    placeholders_in_notes_search_suffix();
    placeholders_in_notes_all_suffix();
    placeholders_in_folders_sql();
    placeholders_in_tags_sql();
    placeholders_in_ent_query_prefix();
    placeholders_in_max_query_prefix();
    placeholders_in_max_update_prefix();
    placeholders_in_folder_insert_sql();
    placeholders_in_note_insert_sql();
    placeholders_in_tag_insert_sql();
    placeholders_in_set_completed_sql();
    placeholders_in_set_pinned_sql();
    placeholders_in_update_prefix();
    placeholders_in_update_suffix();
    placeholders_in_clause_separator();
    placeholders_in_title_clause();
    placeholders_in_text_clause();
    placeholders_in_folder_clause();
    placeholders_in_edited_clause();
    placeholders_in_version_clause();
    placeholders_in_trash_folder_sql();
    placeholders_in_move_to_folder_sql();
    placeholders_in_unfile_sql();
    placeholders_in_note_folder_sql();
    placeholders_in_delete_note_sql();
    placeholders_in_delete_folder_notes_sql();
    placeholders_in_add_tag_sql();
    placeholders_in_remove_tag_sql();
    placeholders_in_set_reminder_sql();
    placeholders_in_clear_reminder_sql();
    placeholders_in_cd_note();
    placeholders_in_cd_folder();
    placeholders_in_cd_tag();
    placeholders_in_quote();
    placeholders_in_percent();
}

} // verus!
