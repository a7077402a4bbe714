use jot_mcp::replies::{Purge, completed_reply, created_folder_reply, created_note_reply, created_tag_reply, database_error_reply, emptied_reply, not_found_reply, nothing_to_update_reply, pinned_reply, purge_decision, purge_reply, reminder_reply, tool_reply, restored_reply, tagged_reply, trashed_reply, untagged_reply, updated_reply};

#[test]
fn missing_notes_get_the_same_answer() {
    let expected = "No note found with ID 42";
    assert_eq!(not_found_reply(42), expected);
    assert_eq!(completed_reply(42, true, 0), expected);
    assert_eq!(pinned_reply(42, true, 0), expected);
    assert_eq!(updated_reply(42, 0), expected);
    assert_eq!(trashed_reply(42, 0), expected);
    assert_eq!(restored_reply(42, 0), expected);
    assert_eq!(reminder_reply(42, true, 0), expected);
    assert_eq!(purge_reply(42, Purge::NotFound), expected);
    assert_eq!(not_found_reply(-3), "No note found with ID -3");
}

#[test]
fn change_answers() {
    assert_eq!(completed_reply(5, true, 1), "Successfully marked note 5 as completed");
    assert_eq!(completed_reply(5, false, 2), "Successfully marked note 5 as uncompleted");
    assert_eq!(pinned_reply(5, true, 1), "Successfully pinned note 5");
    assert_eq!(pinned_reply(5, false, 1), "Successfully unpinned note 5");
    assert_eq!(nothing_to_update_reply(), "No fields provided to update");
    assert_eq!(updated_reply(5, 1), "Successfully updated note 5");
    assert_eq!(trashed_reply(5, 1), "Successfully moved note 5 to Trash");
    assert_eq!(restored_reply(5, 1), "Successfully restored note 5 from Trash");
    assert_eq!(reminder_reply(5, true, 1), "Successfully set reminder for note 5");
    assert_eq!(reminder_reply(5, false, 1), "Successfully cleared reminder for note 5");
}

#[test]
fn purge_decisions() {
    assert_eq!(purge_decision(None, 1), Purge::NotFound);
    assert_eq!(purge_decision(Some(Some(1)), 1), Purge::Delete);
    assert_eq!(purge_decision(Some(Some(2)), 1), Purge::NotInTrash);
    assert_eq!(purge_decision(Some(None), 1), Purge::NotInTrash);
}

#[test]
fn purge_answers() {
    assert_eq!(purge_reply(9, Purge::Delete), "Successfully permanently deleted note 9");
    assert_eq!(
        purge_reply(9, Purge::NotInTrash),
        "Note 9 is not in Trash — move it there first with delete_note before permanently deleting it"
    );
}

#[test]
fn trash_and_tag_answers() {
    assert_eq!(emptied_reply(0), "Successfully permanently deleted 0 note(s) from Trash");
    assert_eq!(emptied_reply(12), "Successfully permanently deleted 12 note(s) from Trash");
    assert_eq!(tagged_reply(3, 8), "Successfully tagged note 3 with tag 8");
    assert_eq!(untagged_reply(3, 8), "Successfully removed tag 8 from note 3");
}

#[test]
fn creation_answers() {
    assert_eq!(created_folder_reply("Work", 17), "Successfully created folder: 'Work' (ID: 17)");
    assert_eq!(created_note_reply("Buy milk", 101), "Successfully created: 'Buy milk' (ID: 101)");
    assert_eq!(created_tag_reply("urgent", 4), "Successfully created tag: 'urgent' (ID: 4)");
}

#[test]
fn database_error_answer() {
    assert_eq!(database_error_reply("no such table: ZCDNOTE"), "Database error: no such table: ZCDNOTE");
}

#[test]
fn tool_answers() {
    assert_eq!(tool_reply(Ok("[]".to_string())), "[]");
    assert_eq!(tool_reply(Err("disk I/O error".to_string())), "Database error: disk I/O error");
}
