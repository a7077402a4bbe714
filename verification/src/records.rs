//! The records that the tools report: notes, folders and tags, and how a
//! note is decoded from the columns of a query row.

use vstd::prelude::*;
use crate::text::{
    count_char, join_with, law_split_join_round_trip, law_split_piece_count, split_commas,
    split_on, views,
};

verus! {

/// Core Data stores timestamps as seconds since 2001-01-01, not the Unix
/// epoch; this is the distance between the two, in seconds.
pub const APPLE_EPOCH_OFFSET: u64 = 978_307_200;

/// A note as the tools report it.
#[derive(Debug)]
pub struct Note {
    pub id: i64,
    pub title: Option<String>,
    pub content: Option<String>,
    pub completed: bool,
    pub pinned: bool,
    pub folder: Option<String>,
    pub tags: Vec<String>,
    /// Unix time of creation, in seconds.
    pub created_at: u64,
}

/// A user folder as the tools report it.
#[derive(Debug)]
pub struct Folder {
    pub id: i64,
    pub name: Option<String>,
}

/// A tag as the tools report it.
#[derive(Debug)]
pub struct Tag {
    pub id: i64,
    pub name: Option<String>,
    pub color_hex: Option<String>,
}

/// The columns of one row of the notes query, as read from the database.
#[derive(Debug)]
pub struct NoteRow {
    pub id: i64,
    pub title: Option<String>,
    pub content: Option<String>,
    /// The completed flag read as an `i32`; `None` where it could not be
    /// read as one (a NULL, for instance).
    pub completed: Option<i32>,
    /// The pinned flag, read as `completed` is.
    pub pinned: Option<i32>,
    /// The name of the note's folder, if it has one.
    pub folder: Option<String>,
    /// Whole seconds of the creation time since 2001-01-01 (0 where the
    /// column could not be read).
    pub created_seconds: u64,
    /// The note's tag names joined with commas, or `None` for no tags.
    pub tags: Option<String>,
}

/// A flag column counts as set when it holds a nonzero integer.
pub open spec fn flag_set(v: Option<i32>) -> bool {
    match v {
        Some(x) => x != 0,
        None => false,
    }
}

/// The tag names that a comma-joined tag column stands for.
pub open spec fn tag_names(tags: Option<String>) -> Seq<Seq<char>> {
    match tags {
        Some(t) => split_on(t@, ','),
        None => Seq::empty(),
    }
}

/// A flag counts as set exactly when it was read as a nonzero integer; a
/// note has no tags exactly when the tag column is NULL, and otherwise one
/// tag per comma-separated piece of the column.
pub proof fn law_row_columns(v: Option<i32>, tags: Option<String>)
    ensures
        flag_set(v) <==> (v is Some && v->0 != 0),
        tags is None ==> tag_names(tags).len() == 0,
        tags matches Some(t) ==> tag_names(tags).len() == count_char(t@, ',') + 1,
        tags matches Some(t) ==> join_with(tag_names(tags), seq![',']) == t@,
{
    if let Some(t) = tags {
        law_split_piece_count(t@, ',');
        law_split_join_round_trip(t@, ',');
    }
}

/// Turns a row of the notes query into the note it describes: flags that
/// could not be read count as unset, the tags are split at each comma, and
/// the creation time is moved to the Unix epoch.
pub fn note_from_row(row: NoteRow) -> (note: Note)
    requires
        row.created_seconds + APPLE_EPOCH_OFFSET <= u64::MAX,
    ensures
        note.id == row.id,
        note.title == row.title,
        note.content == row.content,
        note.completed == flag_set(row.completed),
        note.pinned == flag_set(row.pinned),
        note.folder == row.folder,
        views(note.tags@) == tag_names(row.tags),
        note.created_at == row.created_seconds + APPLE_EPOCH_OFFSET,
{
    let tags = match &row.tags {
        Some(t) => split_commas(t.as_str()),
        None => {
            let v: Vec<String> = Vec::new();
            assert(views(v@) =~= Seq::<Seq<char>>::empty());
            v
        },
    };
    let completed = match row.completed {
        Some(x) => x != 0,
        None => false,
    };
    let pinned = match row.pinned {
        Some(x) => x != 0,
        None => false,
    };
    Note {
        id: row.id,
        title: row.title,
        content: row.content,
        completed,
        pinned,
        folder: row.folder,
        tags,
        created_at: row.created_seconds + APPLE_EPOCH_OFFSET,
    }
}

} // verus!
