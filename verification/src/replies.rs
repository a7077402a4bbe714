//! The text with which each tool answers, and the decisions behind it.

use vstd::prelude::*;
use vstd::string::*;
use crate::text::{decimal, push_decimal, push_unsigned};

verus! {

/// How many notes a listing returns when the caller names no limit.
pub fn default_limit() -> (r: i32)
    ensures
        r == 10,
{
    10
}

/// The answer for a note key that matches no note.
pub open spec fn not_found_text(id: i64) -> Seq<char> {
    "No note found with ID "@ + decimal(id as int)
}

/// The answer of a change to one note: `done` where the change touched a
/// row, and the not-found answer where it touched none.
pub open spec fn change_text(id: i64, rows_changed: usize, done: Seq<char>) -> Seq<char> {
    if rows_changed == 0 {
        not_found_text(id)
    } else {
        done
    }
}

/// A change that touched no row is answered with the not-found text naming
/// the key; a change that touched a row is answered with its own text.
pub proof fn law_untouched_note_is_reported_missing(id: i64, rows_changed: usize, done: Seq<char>)
    ensures
        rows_changed == 0 ==> change_text(id, rows_changed, done) == "No note found with ID "@
            + decimal(id as int),
        rows_changed != 0 ==> change_text(id, rows_changed, done) == done,
{
}

/// `prefix`, then the decimal key, then `suffix`.
fn keyed_text(prefix: &str, id: i64, suffix: &str) -> (r: String)
    ensures
        r@ == prefix@ + decimal(id as int) + suffix@,
{
    let mut r = String::from_str(prefix);
    push_decimal(&mut r, id);
    r.append(suffix);
    r
}

/// The answer for a note key that matches no note.
pub fn not_found_reply(id: i64) -> (r: String)
    ensures
        r@ == not_found_text(id),
{
    let r = keyed_text("No note found with ID ", id, "");
    proof {
        reveal_strlit("");
    }
    assert(r@ =~= not_found_text(id));
    r
}

/// The answer of checking a note off (or back on).
pub fn completed_reply(id: i64, completed: bool, rows_changed: usize) -> (r: String)
    ensures
        r@ == change_text(
            id,
            rows_changed,
            "Successfully marked note "@ + decimal(id as int) + " as "@ + (if completed {
                "completed"@
            } else {
                "uncompleted"@
            }),
        ),
{
    if rows_changed == 0 {
        return not_found_reply(id);
    }
    let mut r = keyed_text("Successfully marked note ", id, " as ");
    if completed {
        r.append("completed");
    } else {
        r.append("uncompleted");
    }
    r
}

/// The answer of pinning (or unpinning) a note.
pub fn pinned_reply(id: i64, pinned: bool, rows_changed: usize) -> (r: String)
    ensures
        r@ == change_text(
            id,
            rows_changed,
            "Successfully "@ + (if pinned {
                "pinned"@
            } else {
                "unpinned"@
            }) + " note "@ + decimal(id as int),
        ),
{
    if rows_changed == 0 {
        return not_found_reply(id);
    }
    let mut r = String::from_str("Successfully ");
    if pinned {
        r.append("pinned");
    } else {
        r.append("unpinned");
    }
    r.append(" note ");
    push_decimal(&mut r, id);
    r
}

/// The answer of an update that names no field to change.
pub fn nothing_to_update_reply() -> (r: String)
    ensures
        r@ == "No fields provided to update"@,
{
    String::from_str("No fields provided to update")
}

/// The answer of an update of a note's fields.
pub fn updated_reply(id: i64, rows_changed: usize) -> (r: String)
    ensures
        r@ == change_text(id, rows_changed, "Successfully updated note "@ + decimal(id as int)),
{
    if rows_changed == 0 {
        return not_found_reply(id);
    }
    let mut r = String::from_str("Successfully updated note ");
    push_decimal(&mut r, id);
    r
}

/// The answer of moving a note to Trash.
pub fn trashed_reply(id: i64, rows_changed: usize) -> (r: String)
    ensures
        r@ == change_text(
            id,
            rows_changed,
            "Successfully moved note "@ + decimal(id as int) + " to Trash"@,
        ),
{
    if rows_changed == 0 {
        return not_found_reply(id);
    }
    keyed_text("Successfully moved note ", id, " to Trash")
}

/// The answer of restoring a note from Trash.
pub fn restored_reply(id: i64, rows_changed: usize) -> (r: String)
    ensures
        r@ == change_text(
            id,
            rows_changed,
            "Successfully restored note "@ + decimal(id as int) + " from Trash"@,
        ),
{
    if rows_changed == 0 {
        return not_found_reply(id);
    }
    keyed_text("Successfully restored note ", id, " from Trash")
}

/// What a request to delete a note for good comes to.
#[derive(Debug, Clone, Copy, PartialEq, Eq, Structural)]
pub enum Purge {
    /// No note has the key.
    NotFound,
    /// The note is in Trash: it is deleted.
    Delete,
    /// The note is elsewhere (or unfiled): it is left as it is.
    NotInTrash,
}

/// The outcome for a note whose folder column reads `current_folder`
/// (`None` where no note has the key, `Some(None)` for an unfiled note),
/// with `trash` the key of the Trash folder: only a note filed in Trash is
/// deleted.
pub open spec fn purge_outcome(current_folder: Option<Option<i64>>, trash: i64) -> Purge {
    match current_folder {
        None => Purge::NotFound,
        Some(Some(folder)) => if folder == trash {
            Purge::Delete
        } else {
            Purge::NotInTrash
        },
        Some(None) => Purge::NotInTrash,
    }
}

/// Deleting for good is the second of two steps: a note is deleted exactly
/// when it is filed in Trash, so a note that delete_note moved to Trash can
/// then be deleted, a restored (unfiled) note cannot, and a missing note is
/// reported as missing.
pub proof fn law_only_trashed_notes_are_purged(current_folder: Option<Option<i64>>, trash: i64)
    ensures
        purge_outcome(current_folder, trash) == Purge::Delete <==> current_folder == Some(
            Some(trash),
        ),
        purge_outcome(current_folder, trash) == Purge::NotFound <==> current_folder is None,
        purge_outcome(Some(Some(trash)), trash) == Purge::Delete,
        purge_outcome(Some(None), trash) == Purge::NotInTrash,
{
}

/// Decides a request to delete a note for good.
pub fn purge_decision(current_folder: Option<Option<i64>>, trash: i64) -> (r: Purge)
    ensures
        r == purge_outcome(current_folder, trash),
{
    match current_folder {
        None => Purge::NotFound,
        Some(Some(folder)) => if folder == trash {
            Purge::Delete
        } else {
            Purge::NotInTrash
        },
        Some(None) => Purge::NotInTrash,
    }
}

/// The answer for each outcome of a request to delete a note for good.
pub open spec fn purge_text(id: i64, outcome: Purge) -> Seq<char> {
    match outcome {
        Purge::NotFound => not_found_text(id),
        Purge::Delete => "Successfully permanently deleted note "@ + decimal(id as int),
        Purge::NotInTrash => "Note "@ + decimal(id as int)
            + " is not in Trash — move it there first with delete_note before permanently deleting it"@,
    }
}

/// Each outcome of a request to delete a note for good has its own answer,
/// naming the note's key.
pub proof fn law_purge_answers(id: i64)
    ensures
        purge_text(id, Purge::NotFound) == "No note found with ID "@ + decimal(id as int),
        purge_text(id, Purge::Delete) == "Successfully permanently deleted note "@ + decimal(
            id as int,
        ),
        purge_text(id, Purge::NotInTrash) == "Note "@ + decimal(id as int)
            + " is not in Trash — move it there first with delete_note before permanently deleting it"@,
{
}

/// The answer of a request to delete a note for good.
pub fn purge_reply(id: i64, outcome: Purge) -> (r: String)
    ensures
        r@ == purge_text(id, outcome),
{
    match outcome {
        Purge::NotFound => not_found_reply(id),
        Purge::Delete => {
            let mut r = String::from_str("Successfully permanently deleted note ");
            push_decimal(&mut r, id);
            r
        },
        Purge::NotInTrash => keyed_text(
            "Note ",
            id,
            " is not in Trash — move it there first with delete_note before permanently deleting it",
        ),
    }
}

/// The answer of emptying Trash, which deleted `rows_changed` notes.
pub fn emptied_reply(rows_changed: usize) -> (r: String)
    ensures
        r@ == "Successfully permanently deleted "@ + decimal(rows_changed as int)
            + " note(s) from Trash"@,
{
    let mut r = String::from_str("Successfully permanently deleted ");
    push_unsigned(&mut r, rows_changed as u64);
    r.append(" note(s) from Trash");
    r
}

/// The answer of tagging a note.
pub fn tagged_reply(note_id: i64, tag_id: i64) -> (r: String)
    ensures
        r@ == "Successfully tagged note "@ + decimal(note_id as int) + " with tag "@ + decimal(
            tag_id as int,
        ),
{
    let mut r = keyed_text("Successfully tagged note ", note_id, " with tag ");
    push_decimal(&mut r, tag_id);
    r
}

/// The answer of taking a tag off a note.
pub fn untagged_reply(note_id: i64, tag_id: i64) -> (r: String)
    ensures
        r@ == "Successfully removed tag "@ + decimal(tag_id as int) + " from note "@ + decimal(
            note_id as int,
        ),
{
    let mut r = keyed_text("Successfully removed tag ", tag_id, " from note ");
    push_decimal(&mut r, note_id);
    r
}

/// The answer of setting (`set`) or clearing a note's reminder.
pub fn reminder_reply(id: i64, set: bool, rows_changed: usize) -> (r: String)
    ensures
        r@ == change_text(
            id,
            rows_changed,
            "Successfully "@ + (if set {
                "set"@
            } else {
                "cleared"@
            }) + " reminder for note "@ + decimal(id as int),
        ),
{
    if rows_changed == 0 {
        return not_found_reply(id);
    }
    let mut r = String::from_str("Successfully ");
    if set {
        r.append("set");
    } else {
        r.append("cleared");
    }
    r.append(" reminder for note ");
    push_decimal(&mut r, id);
    r
}

/// `prefix`, the quoted name, then its key.
fn created_text(prefix: &str, name: &str, id: i64) -> (r: String)
    ensures
        r@ == prefix@ + name@ + "' (ID: "@ + decimal(id as int) + ")"@,
{
    let mut r = String::from_str(prefix);
    r.append(name);
    r.append("' (ID: ");
    push_decimal(&mut r, id);
    r.append(")");
    r
}

/// The answer of creating a folder with key `id`.
pub fn created_folder_reply(name: &str, id: i64) -> (r: String)
    ensures
        r@ == "Successfully created folder: '"@ + name@ + "' (ID: "@ + decimal(id as int) + ")"@,
{
    created_text("Successfully created folder: '", name, id)
}

/// The answer of creating a note with key `id`.
pub fn created_note_reply(title: &str, id: i64) -> (r: String)
    ensures
        r@ == "Successfully created: '"@ + title@ + "' (ID: "@ + decimal(id as int) + ")"@,
{
    created_text("Successfully created: '", title, id)
}

/// The answer of creating a tag with key `id`.
pub fn created_tag_reply(name: &str, id: i64) -> (r: String)
    ensures
        r@ == "Successfully created tag: '"@ + name@ + "' (ID: "@ + decimal(id as int) + ")"@,
{
    created_text("Successfully created tag: '", name, id)
}

/// The answer of a tool whose database work failed with the error whose
/// text is `error`.
pub fn database_error_reply(error: &str) -> (r: String)
    ensures
        r@ == "Database error: "@ + error@,
{
    let mut r = String::from_str("Database error: ");
    r.append(error);
    r
}

/// What a tool answers: the answer of its work where that succeeded, and
/// the database-error answer carrying the error's text where it failed.
pub fn tool_reply(outcome: Result<String, String>) -> (r: String)
    ensures
        r@ == match outcome {
            Ok(answer) => answer@,
            Err(error) => "Database error: "@ + error@,
        },
{
    match outcome {
        Ok(answer) => answer,
        Err(error) => database_error_reply(error.as_str()),
    }
}

} // verus!
