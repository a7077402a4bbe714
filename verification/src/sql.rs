//! The SQL statements that the tools run against Jot's Core Data store,
//! with the values bound to their placeholders.

use vstd::prelude::*;
use vstd::string::*;
use crate::ident::{is_random_uuid, new_reminder_identifier, random_uuid, reminder_identifier_text};
use crate::placeholder_counts::lemma_placeholder_counts;
use crate::text::{
    count_char, count_in_pieces, join_strs, join_with, lemma_count_concat,
    lemma_count_join, lemma_count_one_piece, lemma_count_pieces_concat,
    str_views,
};

verus! {

/// A value bound to a statement placeholder.
#[derive(Debug, PartialEq, Eq)]
pub enum SqlValue {
    Null,
    Integer(i64),
    Text(String),
    /// A point in time given in Unix seconds. It is stored as Core Data
    /// stores times: a REAL number of seconds since 2001-01-01.
    UnixTime(i64),
    /// The sixteen bytes of a record's UUID, stored as a BLOB.
    Blob([u8; 16]),
}

/// What a bound value is, with its text and bytes as sequences.
pub enum SqlParam {
    Null,
    Integer(i64),
    Text(Seq<char>),
    UnixTime(i64),
    Blob(Seq<u8>),
}

impl View for SqlValue {
    type V = SqlParam;

    open spec fn view(&self) -> SqlParam {
        match self {
            SqlValue::Null => SqlParam::Null,
            SqlValue::Integer(i) => SqlParam::Integer(*i),
            SqlValue::Text(t) => SqlParam::Text(t@),
            SqlValue::UnixTime(t) => SqlParam::UnixTime(*t),
            SqlValue::Blob(b) => SqlParam::Blob(b@),
        }
    }
}

/// An SQL text and the values for its placeholders, in order.
#[derive(Debug)]
pub struct Statement {
    pub sql: String,
    pub params: Vec<SqlValue>,
}

/// A statement's text and the values it binds.
pub struct StatementView {
    pub sql: Seq<char>,
    pub params: Seq<SqlParam>,
}

impl View for Statement {
    type V = StatementView;

    open spec fn view(&self) -> StatementView {
        StatementView { sql: self.sql@, params: self.params@.map_values(|v: SqlValue| v@) }
    }
}

/// A statement binds one value for each placeholder (`?`) of its text.
pub open spec fn binds_every_placeholder(st: StatementView) -> bool {
    count_char(st.sql, '?') == st.params.len()
}

/// The statement with text `sql` and placeholder values `params`.
pub open spec fn stmt(sql: Seq<char>, params: Seq<SqlParam>) -> StatementView {
    StatementView { sql, params }
}

/// How a flag is stored: 1 for set, 0 for unset.
pub open spec fn flag_param(b: bool) -> SqlParam {
    SqlParam::Integer(if b { 1 } else { 0 })
}

/// An optional integer: NULL where absent.
pub open spec fn int_or_null(o: Option<i64>) -> SqlParam {
    match o {
        Some(i) => SqlParam::Integer(i),
        None => SqlParam::Null,
    }
}

/// An optional text: NULL where absent.
pub open spec fn text_or_null(o: Option<&str>) -> SqlParam {
    match o {
        Some(t) => SqlParam::Text(t@),
        None => SqlParam::Null,
    }
}

/// The kinds of record that draw their primary keys from `Z_PRIMARYKEY`.
#[derive(Debug, Clone, Copy, PartialEq, Eq, Structural)]
pub enum Entity {
    Note,
    Folder,
    Tag,
}

/// The Core Data entity name under which a kind of record keeps its keys.
pub open spec fn entity_name(e: Entity) -> Seq<char> {
    match e {
        Entity::Note => "CDNote"@,
        Entity::Folder => "CDFolder"@,
        Entity::Tag => "CDTag"@,
    }
}

/// Each kind of record keeps its keys under its Core Data entity name.
pub proof fn law_entity_names()
    ensures
        entity_name(Entity::Note) == "CDNote"@,
        entity_name(Entity::Folder) == "CDFolder"@,
        entity_name(Entity::Tag) == "CDTag"@,
{
}

impl Entity {
    /// The entity name of this kind of record.
    pub fn name(&self) -> (r: &'static str)
        ensures
            r@ == entity_name(*self),
    {
        match self {
            Entity::Note => "CDNote",
            Entity::Folder => "CDFolder",
            Entity::Tag => "CDTag",
        }
    }
}

/// The columns of a note listing: key, title, text, flags, folder name, creation
/// time, and the note's tag names joined with commas.
pub const NOTES_SELECT_SQL: &'static str = "SELECT n.Z_PK, n.ZTITLE, n.ZTEXT, n.ZCOMPLETED, n.ZPINNED, f.ZNAME, n.ZCREATED_AT, \
    (SELECT GROUP_CONCAT(t.ZNAME, ',') FROM Z_2TAGS jt JOIN ZCDTAG t ON jt.Z_3TAGS = t.Z_PK WHERE jt.Z_2NOTES = n.Z_PK) \
    FROM ZCDNOTE n LEFT JOIN ZCDFOLDER f ON n.ZFOLDER = f.Z_PK";

/// Narrows a note listing to titles or texts that match a pattern, newest first.
pub const NOTES_SEARCH_SUFFIX: &'static str = " WHERE n.ZTITLE LIKE ?1 OR n.ZTEXT LIKE ?2 ORDER BY n.ZCREATED_AT DESC LIMIT ?3";

/// Orders a note listing newest first.
pub const NOTES_ALL_SUFFIX: &'static str = " ORDER BY n.ZCREATED_AT DESC LIMIT ?1";

/// Lists the user's folders by name.
pub const FOLDERS_SQL: &'static str = "SELECT Z_PK, ZNAME FROM ZCDFOLDER WHERE ZISSYSTEM = 0 ORDER BY ZNAME";

/// Lists all tags by name.
pub const TAGS_SQL: &'static str = "SELECT Z_PK, ZNAME, ZCOLORHEX FROM ZCDTAG ORDER BY ZNAME";

/// Reads an entity's Core Data number (the entity name and a quote follow).
pub const ENT_QUERY_PREFIX: &'static str = "SELECT Z_ENT FROM Z_PRIMARYKEY WHERE Z_NAME = '";

/// Reads the largest key handed out for an entity (the entity name and a quote
/// follow).
pub const MAX_QUERY_PREFIX: &'static str = "SELECT Z_MAX FROM Z_PRIMARYKEY WHERE Z_NAME = '";

/// Records the largest key handed out for an entity (the entity name and a
/// quote follow).
pub const MAX_UPDATE_PREFIX: &'static str = "UPDATE Z_PRIMARYKEY SET Z_MAX = ?1 WHERE Z_NAME = '";

/// Inserts a user folder.
pub const FOLDER_INSERT_SQL: &'static str = "INSERT INTO ZCDFOLDER (Z_PK, Z_ENT, Z_OPT, ZISDYNAMIC, ZISPARTICIPANT, ZISSHARED, ZISSYSTEM, ZORDER, ZSHAREDBYME, ZCREATED_AT, ZNAME, ZID) VALUES (?1, ?2, 1, 0, 0, 0, 0, 0, 0, ?3, ?4, ?5)";

/// Inserts a note.
pub const NOTE_INSERT_SQL: &'static str = "INSERT INTO ZCDNOTE (Z_PK, Z_ENT, Z_OPT, ZCLOUDVERSION, ZTITLE, ZTEXT, ZCOMPLETED, ZFOLDER, ZCREATED_AT, ZEDITED_AT, ZID) VALUES (?1, ?2, 1, 1, ?3, ?4, ?5, ?6, ?7, ?8, ?9)";

/// Inserts a tag.
pub const TAG_INSERT_SQL: &'static str = "INSERT INTO ZCDTAG (Z_PK, Z_ENT, Z_OPT, ZNAME, ZCOLORHEX, ZID) VALUES (?1, ?2, 1, ?3, ?4, ?5)";

/// Sets a note's completed flag and marks it edited.
pub const SET_COMPLETED_SQL: &'static str = "UPDATE ZCDNOTE SET ZCOMPLETED = ?1, ZEDITED_AT = ?2, Z_OPT = COALESCE(Z_OPT, 0) + 1 WHERE Z_PK = ?3";

/// Sets a note's pinned flag and marks it edited.
pub const SET_PINNED_SQL: &'static str = "UPDATE ZCDNOTE SET ZPINNED = ?1, ZEDITED_AT = ?2, Z_OPT = COALESCE(Z_OPT, 0) + 1 WHERE Z_PK = ?3";

/// Opens an update of a note's fields.
pub const UPDATE_PREFIX: &'static str = "UPDATE ZCDNOTE SET ";

/// Closes an update of a note's fields.
pub const UPDATE_SUFFIX: &'static str = " WHERE Z_PK = ?";

/// Separates the assignments of an update.
pub const CLAUSE_SEPARATOR: &'static str = ", ";

/// Assigns a note's title.
pub const TITLE_CLAUSE: &'static str = "ZTITLE = ?";

/// Assigns a note's text.
pub const TEXT_CLAUSE: &'static str = "ZTEXT = ?";

/// Assigns a note's folder.
pub const FOLDER_CLAUSE: &'static str = "ZFOLDER = ?";

/// Assigns a note's edit time.
pub const EDITED_CLAUSE: &'static str = "ZEDITED_AT = ?";

/// Bumps a note's record version.
pub const VERSION_CLAUSE: &'static str = "Z_OPT = COALESCE(Z_OPT, 0) + 1";

/// Reads the key of the system Trash folder.
pub const TRASH_FOLDER_SQL: &'static str = "SELECT Z_PK FROM ZCDFOLDER WHERE ZISSYSTEM = 1 AND ZNAME = 'Trash' ORDER BY Z_PK ASC LIMIT 1";

/// Files a note in a folder and marks it edited.
pub const MOVE_TO_FOLDER_SQL: &'static str = "UPDATE ZCDNOTE SET ZFOLDER = ?1, ZEDITED_AT = ?2, Z_OPT = COALESCE(Z_OPT, 0) + 1 WHERE Z_PK = ?3";

/// Takes a note out of its folder and marks it edited.
pub const UNFILE_SQL: &'static str = "UPDATE ZCDNOTE SET ZFOLDER = NULL, ZEDITED_AT = ?1, Z_OPT = COALESCE(Z_OPT, 0) + 1 WHERE Z_PK = ?2";

/// Reads a note's folder.
pub const NOTE_FOLDER_SQL: &'static str = "SELECT ZFOLDER FROM ZCDNOTE WHERE Z_PK = ?1";

/// Deletes a note for good.
pub const DELETE_NOTE_SQL: &'static str = "DELETE FROM ZCDNOTE WHERE Z_PK = ?1";

/// Deletes for good every note in a folder.
pub const DELETE_FOLDER_NOTES_SQL: &'static str = "DELETE FROM ZCDNOTE WHERE ZFOLDER = ?1";

/// Links a tag to a note, unless they are linked already.
pub const ADD_TAG_SQL: &'static str = "INSERT OR IGNORE INTO Z_2TAGS (Z_2NOTES, Z_3TAGS) VALUES (?1, ?2)";

/// Unlinks a tag from a note.
pub const REMOVE_TAG_SQL: &'static str = "DELETE FROM Z_2TAGS WHERE Z_2NOTES = ?1 AND Z_3TAGS = ?2";

/// Sets a note's reminder time and identifier and marks it edited.
pub const SET_REMINDER_SQL: &'static str = "UPDATE ZCDNOTE SET ZREMINDERDATE = ?1, ZREMINDERIDENTIFIER = ?2, ZEDITED_AT = ?3, Z_OPT = COALESCE(Z_OPT, 0) + 1 WHERE Z_PK = ?4";

/// Clears a note's reminder and marks it edited.
pub const CLEAR_REMINDER_SQL: &'static str = "UPDATE ZCDNOTE SET ZREMINDERDATE = NULL, ZREMINDERIDENTIFIER = NULL, ZEDITED_AT = ?1, Z_OPT = COALESCE(Z_OPT, 0) + 1 WHERE Z_PK = ?2";

fn text_value(s: &str) -> (v: SqlValue)
    ensures
        v@ == SqlParam::Text(s@),
{
    SqlValue::Text(String::from_str(s))
}

fn flag_value(b: bool) -> (v: SqlValue)
    ensures
        v@ == flag_param(b),
{
    SqlValue::Integer(if b { 1 } else { 0 })
}

fn int_or_null_value(o: Option<i64>) -> (v: SqlValue)
    ensures
        v@ == int_or_null(o),
{
    match o {
        Some(i) => SqlValue::Integer(i),
        None => SqlValue::Null,
    }
}

fn text_or_null_value(o: Option<&str>) -> (v: SqlValue)
    ensures
        v@ == text_or_null(o),
{
    match o {
        Some(t) => text_value(t),
        None => SqlValue::Null,
    }
}

/// A statement from its text and its values.
fn make(sql: &str, params: Vec<SqlValue>) -> (st: Statement)
    ensures
        st@ == stmt(sql@, params@.map_values(|v: SqlValue| v@)),
{
    Statement { sql: String::from_str(sql), params }
}

/// The vector holding the given values, in order.
fn values1(a: SqlValue) -> (v: Vec<SqlValue>)
    ensures
        v@.map_values(|x: SqlValue| x@) == seq![a@],
{
    let mut v = Vec::new();
    v.push(a);
    assert(v@.map_values(|x: SqlValue| x@) =~= seq![a@]);
    v
}

fn values2(a: SqlValue, b: SqlValue) -> (v: Vec<SqlValue>)
    ensures
        v@.map_values(|x: SqlValue| x@) == seq![a@, b@],
{
    let mut v = Vec::new();
    v.push(a);
    v.push(b);
    assert(v@.map_values(|x: SqlValue| x@) =~= seq![a@, b@]);
    v
}

fn values3(a: SqlValue, b: SqlValue, c: SqlValue) -> (v: Vec<SqlValue>)
    ensures
        v@.map_values(|x: SqlValue| x@) == seq![a@, b@, c@],
{
    let mut v = Vec::new();
    v.push(a);
    v.push(b);
    v.push(c);
    assert(v@.map_values(|x: SqlValue| x@) =~= seq![a@, b@, c@]);
    v
}

fn values4(a: SqlValue, b: SqlValue, c: SqlValue, d: SqlValue) -> (v: Vec<SqlValue>)
    ensures
        v@.map_values(|x: SqlValue| x@) == seq![a@, b@, c@, d@],
{
    let mut v = Vec::new();
    v.push(a);
    v.push(b);
    v.push(c);
    v.push(d);
    assert(v@.map_values(|x: SqlValue| x@) =~= seq![a@, b@, c@, d@]);
    v
}

fn values5(a: SqlValue, b: SqlValue, c: SqlValue, d: SqlValue, e: SqlValue) -> (v: Vec<
    SqlValue,
>)
    ensures
        v@.len() == 5,
        v@.map_values(|x: SqlValue| x@) == seq![a@, b@, c@, d@, e@],
{
    let mut v = Vec::new();
    v.push(a);
    v.push(b);
    v.push(c);
    v.push(d);
    v.push(e);
    assert(v@.map_values(|x: SqlValue| x@) =~= seq![a@, b@, c@, d@, e@]);
    v
}

/// The `LIKE` pattern that matches any text holding `q`.
pub open spec fn like_pattern(q: Seq<char>) -> Seq<char> {
    seq!['%'] + q + seq!['%']
}

/// The query for the newest `limit` notes, or for the newest `limit` notes
/// whose title or text holds `search`.
pub fn notes_query(limit: i32, search: Option<&str>) -> (st: Statement)
    ensures
        binds_every_placeholder(st@),
        st@ == match search {
            Some(q) => stmt(
                NOTES_SELECT_SQL@ + NOTES_SEARCH_SUFFIX@,
                seq![
                    SqlParam::Text(like_pattern(q@)),
                    SqlParam::Text(like_pattern(q@)),
                    SqlParam::Integer(limit as i64),
                ],
            ),
            None => stmt(
                NOTES_SELECT_SQL@ + NOTES_ALL_SUFFIX@,
                seq![SqlParam::Integer(limit as i64)],
            ),
        },
{
    proof {
        lemma_placeholder_counts();
    }
    let mut sql = String::from_str(NOTES_SELECT_SQL);
    match search {
        Some(q) => {
            sql.append(NOTES_SEARCH_SUFFIX);
            proof {
                lemma_count_concat(NOTES_SELECT_SQL@, NOTES_SEARCH_SUFFIX@, '?');
            }
            let mut pattern = String::from_str("%");
            pattern.append(q);
            pattern.append("%");
            proof {
                reveal_strlit("%");
            }
            assert(pattern@ =~= like_pattern(q@));
            let pattern2 = pattern.clone();
            let params = values3(
                SqlValue::Text(pattern),
                SqlValue::Text(pattern2),
                SqlValue::Integer(limit as i64),
            );
            Statement { sql, params }
        },
        None => {
            sql.append(NOTES_ALL_SUFFIX);
            proof {
                lemma_count_concat(NOTES_SELECT_SQL@, NOTES_ALL_SUFFIX@, '?');
            }
            let params = values1(SqlValue::Integer(limit as i64));
            Statement { sql, params }
        },
    }
}

/// The query for the user's folders (the system ones left out), by name.
pub fn folders_query() -> (st: Statement)
    ensures
        binds_every_placeholder(st@),
        st@ == stmt(FOLDERS_SQL@, Seq::empty()),
{
    proof {
        lemma_placeholder_counts();
    }
    let st = make(FOLDERS_SQL, Vec::new());
    assert(st@.params =~= Seq::<SqlParam>::empty());
    st
}

/// The query for all tags, by name.
pub fn tags_query() -> (st: Statement)
    ensures
        binds_every_placeholder(st@),
        st@ == stmt(TAGS_SQL@, Seq::empty()),
{
    proof {
        lemma_placeholder_counts();
    }
    let st = make(TAGS_SQL, Vec::new());
    assert(st@.params =~= Seq::<SqlParam>::empty());
    st
}

fn keyed_by_entity(prefix: &str, e: Entity, params: Vec<SqlValue>) -> (st: Statement)
    ensures
        st@ == stmt(prefix@ + entity_name(e) + "'"@, params@.map_values(|v: SqlValue| v@)),
        count_char(st@.sql, '?') == count_char(prefix@, '?'),
{
    proof {
        lemma_placeholder_counts();
        lemma_count_concat(prefix@, entity_name(e), '?');
        lemma_count_concat(prefix@ + entity_name(e), "'"@, '?');
    }
    let mut sql = String::from_str(prefix);
    sql.append(e.name());
    sql.append("'");
    Statement { sql, params }
}

/// The query for the Core Data entity number of a kind of record.
pub fn entity_number_query(e: Entity) -> (st: Statement)
    ensures
        binds_every_placeholder(st@),
        st@ == stmt(ENT_QUERY_PREFIX@ + entity_name(e) + "'"@, Seq::empty()),
{
    proof {
        lemma_placeholder_counts();
    }
    let st = keyed_by_entity(ENT_QUERY_PREFIX, e, Vec::new());
    assert(st@.params =~= Seq::<SqlParam>::empty());
    st
}

/// The query for the largest primary key handed out so far for a kind of
/// record.
pub fn max_key_query(e: Entity) -> (st: Statement)
    ensures
        binds_every_placeholder(st@),
        st@ == stmt(MAX_QUERY_PREFIX@ + entity_name(e) + "'"@, Seq::empty()),
{
    proof {
        lemma_placeholder_counts();
    }
    let st = keyed_by_entity(MAX_QUERY_PREFIX, e, Vec::new());
    assert(st@.params =~= Seq::<SqlParam>::empty());
    st
}

/// The key that a new record takes, and the statement that records it as
/// the largest key handed out for its kind of record: one more than the
/// largest so far.
pub fn claim_next_key(e: Entity, current_max: i64) -> (r: (i64, Statement))
    requires
        current_max < i64::MAX,
    ensures
        r.0 == current_max + 1,
        r.1@ == stmt(MAX_UPDATE_PREFIX@ + entity_name(e) + "'"@, seq![SqlParam::Integer(r.0)]),
        binds_every_placeholder(r.1@),
{
    proof {
        lemma_placeholder_counts();
    }
    let z_pk = current_max + 1;
    let st = keyed_by_entity(MAX_UPDATE_PREFIX, e, values1(SqlValue::Integer(z_pk)));
    (z_pk, st)
}

/// The statement that inserts a folder.
pub open spec fn folder_insert_view(
    z_pk: i64,
    z_ent: i32,
    now: i64,
    name: Seq<char>,
    id: Seq<u8>,
) -> StatementView {
    stmt(
        FOLDER_INSERT_SQL@,
        seq![
            SqlParam::Integer(z_pk),
            SqlParam::Integer(z_ent as i64),
            SqlParam::UnixTime(now),
            SqlParam::Text(name),
            SqlParam::Blob(id),
        ],
    )
}

/// The statement that inserts a user folder named `name` with key `z_pk`,
/// created at `now` (Unix seconds), whose UUID has the bytes `id`.
pub fn folder_insert_with_id(z_pk: i64, z_ent: i32, now: i64, name: &str, id: [u8; 16]) -> (st:
    Statement)
    ensures
        binds_every_placeholder(st@),
        st@ == folder_insert_view(z_pk, z_ent, now, name@, id@),
        st@.sql == FOLDER_INSERT_SQL@,
        st@.params.len() == 5,
        st@.params[0] == SqlParam::Integer(z_pk),
        st@.params[1] == SqlParam::Integer(z_ent as i64),
        st@.params[2] == SqlParam::UnixTime(now),
        st@.params[3] == SqlParam::Text(name@),
        st@.params[4] == SqlParam::Blob(id@),
{
    proof {
        lemma_placeholder_counts();
    }
    make(
        FOLDER_INSERT_SQL,
        values5(
            SqlValue::Integer(z_pk),
            SqlValue::Integer(z_ent as i64),
            SqlValue::UnixTime(now),
            text_value(name),
            SqlValue::Blob(id),
        ),
    )
}

/// The statement that inserts a user folder under a fresh random UUID.
pub fn folder_insert(z_pk: i64, z_ent: i32, now: i64, name: &str) -> (st: Statement)
    ensures
        binds_every_placeholder(st@),
        exists|id: Seq<u8>|
            is_random_uuid(id) && st@ == folder_insert_view(z_pk, z_ent, now, name@, id),
{
    proof {
        lemma_placeholder_counts();
    }
    let id = random_uuid();
    let st = folder_insert_with_id(z_pk, z_ent, now, name, id);
    assert(is_random_uuid(id@) && st@ == folder_insert_view(z_pk, z_ent, now, name@, id@));
    st
}

/// The statement that inserts a note.
pub open spec fn note_insert_view(
    z_pk: i64,
    z_ent: i32,
    now: i64,
    title: Seq<char>,
    content: Seq<char>,
    completed: bool,
    folder_id: Option<i64>,
    id: Seq<u8>,
) -> StatementView {
    stmt(
        NOTE_INSERT_SQL@,
        seq![
            SqlParam::Integer(z_pk),
            SqlParam::Integer(z_ent as i64),
            SqlParam::Text(title),
            SqlParam::Text(content),
            flag_param(completed),
            int_or_null(folder_id),
            SqlParam::UnixTime(now),
            SqlParam::UnixTime(now),
            SqlParam::Blob(id),
        ],
    )
}

/// The statement that inserts a note with key `z_pk`, created and edited
/// at `now`, checked off when `completed`, filed in `folder_id` (unfiled
/// when `None`), whose UUID has the bytes `id`.
pub fn note_insert_with_id(
    z_pk: i64,
    z_ent: i32,
    now: i64,
    title: &str,
    content: &str,
    completed: bool,
    folder_id: Option<i64>,
    id: [u8; 16],
) -> (st: Statement)
    ensures
        binds_every_placeholder(st@),
        st@ == note_insert_view(z_pk, z_ent, now, title@, content@, completed, folder_id, id@),
        st@.sql == NOTE_INSERT_SQL@,
        st@.params.len() == 9,
        st@.params[0] == SqlParam::Integer(z_pk),
        st@.params[1] == SqlParam::Integer(z_ent as i64),
        st@.params[2] == SqlParam::Text(title@),
        st@.params[3] == SqlParam::Text(content@),
        st@.params[4] == SqlParam::Integer(if completed { 1 } else { 0 }),
        st@.params[5] == (match folder_id {
            Some(f) => SqlParam::Integer(f),
            None => SqlParam::Null,
        }),
        st@.params[6] == SqlParam::UnixTime(now),
        st@.params[7] == SqlParam::UnixTime(now),
        st@.params[8] == SqlParam::Blob(id@),
{
    proof {
        lemma_placeholder_counts();
    }
    let mut params = values5(
        SqlValue::Integer(z_pk),
        SqlValue::Integer(z_ent as i64),
        text_value(title),
        text_value(content),
        flag_value(completed),
    );
    let ghost first = params@;
    let folder = int_or_null_value(folder_id);
    let ghost folder_view = folder@;
    params.push(folder);
    params.push(SqlValue::UnixTime(now));
    params.push(SqlValue::UnixTime(now));
    params.push(SqlValue::Blob(id));
    assert(params@.len() == 9);
    assert(forall|i: int| 0 <= i < 5 ==> params@[i] == first[i]);
    assert(params@[5]@ == folder_view);
    let st = make(NOTE_INSERT_SQL, params);
    assert(st@.params =~= note_insert_view(
        z_pk,
        z_ent,
        now,
        title@,
        content@,
        completed,
        folder_id,
        id@,
    ).params);
    st
}

/// The statement that inserts a note under a fresh random UUID.
pub fn note_insert(
    z_pk: i64,
    z_ent: i32,
    now: i64,
    title: &str,
    content: &str,
    completed: bool,
    folder_id: Option<i64>,
) -> (st: Statement)
    ensures
        binds_every_placeholder(st@),
        exists|id: Seq<u8>|
            is_random_uuid(id) && st@ == note_insert_view(
                z_pk,
                z_ent,
                now,
                title@,
                content@,
                completed,
                folder_id,
                id,
            ),
{
    proof {
        lemma_placeholder_counts();
    }
    let id = random_uuid();
    let st = note_insert_with_id(z_pk, z_ent, now, title, content, completed, folder_id, id);
    assert(is_random_uuid(id@) && st@ == note_insert_view(
        z_pk,
        z_ent,
        now,
        title@,
        content@,
        completed,
        folder_id,
        id@,
    ));
    st
}

/// The statement that inserts a tag.
pub open spec fn tag_insert_view(
    z_pk: i64,
    z_ent: i32,
    name: Seq<char>,
    color: SqlParam,
    id: Seq<u8>,
) -> StatementView {
    stmt(
        TAG_INSERT_SQL@,
        seq![
            SqlParam::Integer(z_pk),
            SqlParam::Integer(z_ent as i64),
            SqlParam::Text(name),
            color,
            SqlParam::Blob(id),
        ],
    )
}

/// The statement that inserts a tag named `name` with key `z_pk` and the
/// colour `color_hex` (none when `None`), whose UUID has the bytes `id`.
pub fn tag_insert_with_id(
    z_pk: i64,
    z_ent: i32,
    name: &str,
    color_hex: Option<&str>,
    id: [u8; 16],
) -> (st: Statement)
    ensures
        binds_every_placeholder(st@),
        st@ == tag_insert_view(z_pk, z_ent, name@, text_or_null(color_hex), id@),
        st@.sql == TAG_INSERT_SQL@,
        st@.params.len() == 5,
        st@.params[0] == SqlParam::Integer(z_pk),
        st@.params[1] == SqlParam::Integer(z_ent as i64),
        st@.params[2] == SqlParam::Text(name@),
        st@.params[3] == (match color_hex {
            Some(c) => SqlParam::Text(c@),
            None => SqlParam::Null,
        }),
        st@.params[4] == SqlParam::Blob(id@),
{
    proof {
        lemma_placeholder_counts();
    }
    make(
        TAG_INSERT_SQL,
        values5(
            SqlValue::Integer(z_pk),
            SqlValue::Integer(z_ent as i64),
            text_value(name),
            text_or_null_value(color_hex),
            SqlValue::Blob(id),
        ),
    )
}

/// The statement that inserts a tag under a fresh random UUID.
pub fn tag_insert(z_pk: i64, z_ent: i32, name: &str, color_hex: Option<&str>) -> (st: Statement)
    ensures
        binds_every_placeholder(st@),
        exists|id: Seq<u8>|
            is_random_uuid(id) && st@ == tag_insert_view(
                z_pk,
                z_ent,
                name@,
                text_or_null(color_hex),
                id,
            ),
{
    proof {
        lemma_placeholder_counts();
    }
    let id = random_uuid();
    let st = tag_insert_with_id(z_pk, z_ent, name, color_hex, id);
    assert(is_random_uuid(id@) && st@ == tag_insert_view(
        z_pk,
        z_ent,
        name@,
        text_or_null(color_hex),
        id@,
    ));
    st
}

/// The statement that checks a note off (or back on) and marks it edited.
pub fn completed_statement(id: i64, completed: bool, now: i64) -> (st: Statement)
    ensures
        binds_every_placeholder(st@),
        st@ == stmt(
            SET_COMPLETED_SQL@,
            seq![flag_param(completed), SqlParam::UnixTime(now), SqlParam::Integer(id)],
        ),
{
    proof {
        lemma_placeholder_counts();
    }
    make(
        SET_COMPLETED_SQL,
        values3(flag_value(completed), SqlValue::UnixTime(now), SqlValue::Integer(id)),
    )
}

/// The statement that pins (or unpins) a note and marks it edited.
pub fn pinned_statement(id: i64, pinned: bool, now: i64) -> (st: Statement)
    ensures
        binds_every_placeholder(st@),
        st@ == stmt(
            SET_PINNED_SQL@,
            seq![flag_param(pinned), SqlParam::UnixTime(now), SqlParam::Integer(id)],
        ),
{
    proof {
        lemma_placeholder_counts();
    }
    make(
        SET_PINNED_SQL,
        values3(flag_value(pinned), SqlValue::UnixTime(now), SqlValue::Integer(id)),
    )
}

/// The assignments of an update: one for each field that is given, in the
/// order title, text, folder, then the edit time and the version bump.
pub open spec fn update_clauses(has_title: bool, has_content: bool, has_folder: bool) -> Seq<
    Seq<char>,
> {
    (if has_title {
        seq![TITLE_CLAUSE@]
    } else {
        Seq::empty()
    }) + (if has_content {
        seq![TEXT_CLAUSE@]
    } else {
        Seq::empty()
    }) + (if has_folder {
        seq![FOLDER_CLAUSE@]
    } else {
        Seq::empty()
    }) + seq![EDITED_CLAUSE@, VERSION_CLAUSE@]
}

/// An update assigns the title, the text or the folder exactly when that
/// field is given, so the fields left out keep their values; it always
/// stamps the edit time and bumps the record version.
pub proof fn law_update_assigns_only_given_fields(
    has_title: bool,
    has_content: bool,
    has_folder: bool,
)
    ensures
        update_clauses(has_title, has_content, has_folder).contains(TITLE_CLAUSE@) <==> has_title,
        update_clauses(has_title, has_content, has_folder).contains(TEXT_CLAUSE@) <==> has_content,
        update_clauses(has_title, has_content, has_folder).contains(FOLDER_CLAUSE@) <==> has_folder,
        update_clauses(has_title, has_content, has_folder).contains(EDITED_CLAUSE@),
        update_clauses(has_title, has_content, has_folder).contains(VERSION_CLAUSE@),
{
    reveal_strlit("ZTITLE = ?");
    reveal_strlit("ZTEXT = ?");
    reveal_strlit("ZFOLDER = ?");
    reveal_strlit("ZEDITED_AT = ?");
    reveal_strlit("Z_OPT = COALESCE(Z_OPT, 0) + 1");
    let cl = update_clauses(has_title, has_content, has_folder);
    let t = TITLE_CLAUSE@;
    let x = TEXT_CLAUSE@;
    let f = FOLDER_CLAUSE@;
    let e = EDITED_CLAUSE@;
    let v = VERSION_CLAUSE@;
    assert(t[2] != x[2] && t[1] != f[1] && t[1] != e[1] && t[1] != v[1]);
    assert(x[1] != f[1] && x[1] != e[1] && x[1] != v[1]);
    assert(f[1] != e[1] && f[1] != v[1]);
    assert(t != x && t != f && t != e && t != v);
    assert(x != f && x != e && x != v);
    assert(f != e && f != v);
    assert(cl[cl.len() - 2] == e);
    assert(cl[cl.len() - 1] == v);
    if has_title {
        assert(cl[0] == t);
    }
    if !has_title {
        assert forall|i: int| 0 <= i < cl.len() implies cl[i] != t by {}
    }
    if has_content {
        assert(cl[if has_title { 1int } else { 0int }] == x);
    }
    if !has_content {
        assert forall|i: int| 0 <= i < cl.len() implies cl[i] != x by {}
    }
    if has_folder {
        assert(cl[cl.len() - 3] == f);
    }
    if !has_folder {
        assert forall|i: int| 0 <= i < cl.len() implies cl[i] != f by {}
    }
}

/// The text of an update of the given fields.
pub open spec fn update_sql(has_title: bool, has_content: bool, has_folder: bool) -> Seq<char> {
    UPDATE_PREFIX@ + join_with(update_clauses(has_title, has_content, has_folder), CLAUSE_SEPARATOR@)
        + UPDATE_SUFFIX@
}

/// Every placeholder of an update gets a value: its text holds as many
/// `?` as the update binds values.
pub proof fn law_update_binds_every_placeholder(
    id: i64,
    title: Option<&str>,
    content: Option<&str>,
    folder_id: Option<i64>,
    now: i64,
)
    ensures
        count_char(update_sql(title is Some, content is Some, folder_id is Some), '?')
            == update_params(id, title, content, folder_id, now).len(),
{
    lemma_placeholder_counts();
    let cl = update_clauses(title is Some, content is Some, folder_id is Some);
    lemma_count_join(cl, CLAUSE_SEPARATOR@, '?');
    let joined = join_with(cl, CLAUSE_SEPARATOR@);
    lemma_count_concat(UPDATE_PREFIX@, joined, '?');
    lemma_count_concat(UPDATE_PREFIX@ + joined, UPDATE_SUFFIX@, '?');
    let opt = |b: bool, t: Seq<char>| if b { seq![t] } else { Seq::<Seq<char>>::empty() };
    let a = opt(title is Some, TITLE_CLAUSE@);
    let b = opt(content is Some, TEXT_CLAUSE@);
    let f = opt(folder_id is Some, FOLDER_CLAUSE@);
    let tail = seq![EDITED_CLAUSE@, VERSION_CLAUSE@];
    assert(cl =~= a + b + f + tail);
    let n = (if title is Some { 1int } else { 0int }) + (if content is Some { 1int } else { 0int })
        + (if folder_id is Some { 1int } else { 0int });
    assert(cl.len() == n + 2);
    assert(count_in_pieces(cl, '?') == n + 1) by {
        lemma_count_one_piece(TITLE_CLAUSE@, '?');
        lemma_count_one_piece(TEXT_CLAUSE@, '?');
        lemma_count_one_piece(FOLDER_CLAUSE@, '?');
        lemma_count_one_piece(EDITED_CLAUSE@, '?');
        lemma_count_one_piece(VERSION_CLAUSE@, '?');
        assert(count_in_pieces(Seq::<Seq<char>>::empty(), '?') == 0);
        assert(tail =~= seq![EDITED_CLAUSE@] + seq![VERSION_CLAUSE@]);
        lemma_count_pieces_concat(seq![EDITED_CLAUSE@], seq![VERSION_CLAUSE@], '?');
        lemma_count_pieces_concat(a, b, '?');
        lemma_count_pieces_concat(a + b, f, '?');
        lemma_count_pieces_concat(a + b + f, tail, '?');
    }
}

/// The values of an update, in the order of its placeholders: the given
/// fields, the edit time, then the note's key.
pub open spec fn update_params(
    id: i64,
    title: Option<&str>,
    content: Option<&str>,
    folder_id: Option<i64>,
    now: i64,
) -> Seq<SqlParam> {
    (match title {
        Some(t) => seq![SqlParam::Text(t@)],
        None => Seq::empty(),
    }) + (match content {
        Some(c) => seq![SqlParam::Text(c@)],
        None => Seq::empty(),
    }) + (match folder_id {
        Some(f) => seq![SqlParam::Integer(f)],
        None => Seq::empty(),
    }) + seq![SqlParam::UnixTime(now), SqlParam::Integer(id)]
}

/// The statement that updates the given fields of a note and marks it
/// edited; there is none when no field is given.
pub fn update_statement(
    id: i64,
    title: Option<&str>,
    content: Option<&str>,
    folder_id: Option<i64>,
    now: i64,
) -> (r: Option<Statement>)
    ensures
        r is None <==> (title is None && content is None && folder_id is None),
        r matches Some(st) ==> st@ == stmt(
            update_sql(title is Some, content is Some, folder_id is Some),
            update_params(id, title, content, folder_id, now),
        ),
        r matches Some(st) ==> binds_every_placeholder(st@),
{
    proof {
        law_update_binds_every_placeholder(id, title, content, folder_id, now);
    }
    if title.is_none() && content.is_none() && folder_id.is_none() {
        return None;
    }
    let mut clauses: Vec<&str> = Vec::new();
    let mut values: Vec<SqlValue> = Vec::new();
    let ghost f = |x: SqlValue| x@;
    if let Some(t) = title {
        clauses.push(TITLE_CLAUSE);
        values.push(text_value(t));
    }
    assert(str_views(clauses@) =~= update_clauses(title is Some, false, false).take(
        clauses@.len() as int,
    ));
    assert(values@.map_values(f) =~= (match title {
        Some(t) => seq![SqlParam::Text(t@)],
        None => Seq::<SqlParam>::empty(),
    }));
    let ghost c1 = str_views(clauses@);
    let ghost v1 = values@.map_values(f);
    if let Some(c) = content {
        clauses.push(TEXT_CLAUSE);
        values.push(text_value(c));
    }
    let ghost c2 = str_views(clauses@);
    let ghost v2 = values@.map_values(f);
    assert(c2 =~= c1 + (if content is Some {
        seq![TEXT_CLAUSE@]
    } else {
        Seq::<Seq<char>>::empty()
    }));
    assert(v2 =~= v1 + (match content {
        Some(c) => seq![SqlParam::Text(c@)],
        None => Seq::<SqlParam>::empty(),
    }));
    if let Some(fid) = folder_id {
        clauses.push(FOLDER_CLAUSE);
        values.push(SqlValue::Integer(fid));
    }
    let ghost c3 = str_views(clauses@);
    let ghost v3 = values@.map_values(f);
    assert(c3 =~= c2 + (if folder_id is Some {
        seq![FOLDER_CLAUSE@]
    } else {
        Seq::<Seq<char>>::empty()
    }));
    assert(v3 =~= v2 + (match folder_id {
        Some(x) => seq![SqlParam::Integer(x)],
        None => Seq::<SqlParam>::empty(),
    }));
    clauses.push(EDITED_CLAUSE);
    values.push(SqlValue::UnixTime(now));
    clauses.push(VERSION_CLAUSE);
    values.push(SqlValue::Integer(id));
    assert(str_views(clauses@) =~= c3 + seq![EDITED_CLAUSE@, VERSION_CLAUSE@]);
    assert(values@.map_values(f) =~= v3 + seq![SqlParam::UnixTime(now), SqlParam::Integer(id)]);
    assert(str_views(clauses@) =~= update_clauses(title is Some, content is Some, folder_id is Some));
    assert(values@.map_values(f) =~= update_params(id, title, content, folder_id, now));
    let mut sql = String::from_str(UPDATE_PREFIX);
    let set_list = join_strs(&clauses, CLAUSE_SEPARATOR);
    sql.append(set_list.as_str());
    sql.append(UPDATE_SUFFIX);
    Some(Statement { sql, params: values })
}

/// The query for the key of Jot's system Trash folder (the first one, if
/// there were several).
pub fn trash_folder_query() -> (st: Statement)
    ensures
        binds_every_placeholder(st@),
        st@ == stmt(TRASH_FOLDER_SQL@, Seq::empty()),
{
    proof {
        lemma_placeholder_counts();
    }
    let st = make(TRASH_FOLDER_SQL, Vec::new());
    assert(st@.params =~= Seq::<SqlParam>::empty());
    st
}

/// The statement that files a note in a folder and marks it edited.
pub fn move_to_folder_statement(id: i64, folder: i64, now: i64) -> (st: Statement)
    ensures
        binds_every_placeholder(st@),
        st@ == stmt(
            MOVE_TO_FOLDER_SQL@,
            seq![SqlParam::Integer(folder), SqlParam::UnixTime(now), SqlParam::Integer(id)],
        ),
{
    proof {
        lemma_placeholder_counts();
    }
    make(
        MOVE_TO_FOLDER_SQL,
        values3(SqlValue::Integer(folder), SqlValue::UnixTime(now), SqlValue::Integer(id)),
    )
}

/// The statement that takes a note out of its folder (leaving it unfiled,
/// where a note created without a folder starts) and marks it edited.
pub fn unfile_statement(id: i64, now: i64) -> (st: Statement)
    ensures
        binds_every_placeholder(st@),
        st@ == stmt(UNFILE_SQL@, seq![SqlParam::UnixTime(now), SqlParam::Integer(id)]),
{
    proof {
        lemma_placeholder_counts();
    }
    make(UNFILE_SQL, values2(SqlValue::UnixTime(now), SqlValue::Integer(id)))
}

/// The query for the folder column of one note.
pub fn note_folder_query(id: i64) -> (st: Statement)
    ensures
        binds_every_placeholder(st@),
        st@ == stmt(NOTE_FOLDER_SQL@, seq![SqlParam::Integer(id)]),
{
    proof {
        lemma_placeholder_counts();
    }
    make(NOTE_FOLDER_SQL, values1(SqlValue::Integer(id)))
}

/// The statement that removes one note for good.
pub fn delete_note_statement(id: i64) -> (st: Statement)
    ensures
        binds_every_placeholder(st@),
        st@ == stmt(DELETE_NOTE_SQL@, seq![SqlParam::Integer(id)]),
{
    proof {
        lemma_placeholder_counts();
    }
    make(DELETE_NOTE_SQL, values1(SqlValue::Integer(id)))
}

/// The statement that removes for good every note filed in a folder.
pub fn delete_folder_notes_statement(folder: i64) -> (st: Statement)
    ensures
        binds_every_placeholder(st@),
        st@ == stmt(DELETE_FOLDER_NOTES_SQL@, seq![SqlParam::Integer(folder)]),
{
    proof {
        lemma_placeholder_counts();
    }
    make(DELETE_FOLDER_NOTES_SQL, values1(SqlValue::Integer(folder)))
}

/// The statement that tags a note, doing nothing where it is tagged so
/// already.
pub fn add_tag_statement(note_id: i64, tag_id: i64) -> (st: Statement)
    ensures
        binds_every_placeholder(st@),
        st@ == stmt(ADD_TAG_SQL@, seq![SqlParam::Integer(note_id), SqlParam::Integer(tag_id)]),
{
    proof {
        lemma_placeholder_counts();
    }
    make(ADD_TAG_SQL, values2(SqlValue::Integer(note_id), SqlValue::Integer(tag_id)))
}

/// The statement that takes a tag off a note.
pub fn remove_tag_statement(note_id: i64, tag_id: i64) -> (st: Statement)
    ensures
        binds_every_placeholder(st@),
        st@ == stmt(REMOVE_TAG_SQL@, seq![SqlParam::Integer(note_id), SqlParam::Integer(tag_id)]),
{
    proof {
        lemma_placeholder_counts();
    }
    make(REMOVE_TAG_SQL, values2(SqlValue::Integer(note_id), SqlValue::Integer(tag_id)))
}

/// The statement that sets a note's reminder to `at` (Unix seconds) under
/// the reminder identifier `identifier`, and marks the note edited.
pub fn set_reminder_statement_with(id: i64, at: i64, identifier: &str, now: i64) -> (st:
    Statement)
    ensures
        binds_every_placeholder(st@),
        st@ == stmt(
            SET_REMINDER_SQL@,
            seq![
                SqlParam::UnixTime(at),
                SqlParam::Text(identifier@),
                SqlParam::UnixTime(now),
                SqlParam::Integer(id),
            ],
        ),
{
    proof {
        lemma_placeholder_counts();
    }
    make(
        SET_REMINDER_SQL,
        values4(
            SqlValue::UnixTime(at),
            text_value(identifier),
            SqlValue::UnixTime(now),
            SqlValue::Integer(id),
        ),
    )
}

/// The statement that sets a note's reminder to `reminder_at` (Unix
/// seconds) under a fresh reminder identifier, or clears its reminder when
/// `reminder_at` is `None`; either way it marks the note edited.
pub fn reminder_statement(id: i64, reminder_at: Option<i64>, now: i64) -> (st: Statement)
    ensures
        binds_every_placeholder(st@),
        match reminder_at {
            Some(at) => exists|b: Seq<u8>|
                is_random_uuid(b) && st@ == stmt(
                    SET_REMINDER_SQL@,
                    seq![
                        SqlParam::UnixTime(at),
                        SqlParam::Text(reminder_identifier_text(b)),
                        SqlParam::UnixTime(now),
                        SqlParam::Integer(id),
                    ],
                ),
            None => st@ == stmt(
                CLEAR_REMINDER_SQL@,
                seq![SqlParam::UnixTime(now), SqlParam::Integer(id)],
            ),
        },
{
    proof {
        lemma_placeholder_counts();
    }
    match reminder_at {
        Some(at) => {
            let identifier = new_reminder_identifier();
            set_reminder_statement_with(id, at, identifier.as_str(), now)
        },
        None => make(CLEAR_REMINDER_SQL, values2(SqlValue::UnixTime(now), SqlValue::Integer(id))),
    }
}

/// A folder insert stores exactly what it was asked to: the key, the entity
/// number, the creation time, the name unchanged and the UUID bytes, in the
/// order of the insert's placeholders.
pub proof fn law_folder_insert_binds_its_inputs(
    z_pk: i64,
    z_ent: i32,
    now: i64,
    name: Seq<char>,
    id: Seq<u8>,
)
    ensures
        folder_insert_view(z_pk, z_ent, now, name, id).sql == FOLDER_INSERT_SQL@,
        folder_insert_view(z_pk, z_ent, now, name, id).params.len() == 5,
        folder_insert_view(z_pk, z_ent, now, name, id).params[0] == SqlParam::Integer(z_pk),
        folder_insert_view(z_pk, z_ent, now, name, id).params[1] == SqlParam::Integer(
            z_ent as i64,
        ),
        folder_insert_view(z_pk, z_ent, now, name, id).params[2] == SqlParam::UnixTime(now),
        folder_insert_view(z_pk, z_ent, now, name, id).params[3] == SqlParam::Text(name),
        folder_insert_view(z_pk, z_ent, now, name, id).params[4] == SqlParam::Blob(id),
{
}

/// A note insert stores exactly what it was asked to: the title and the
/// text unchanged, the completed flag as 1 or 0, the folder (NULL for an
/// unfiled note), the time as both creation and edit time, and the UUID.
pub proof fn law_note_insert_binds_its_inputs(
    z_pk: i64,
    z_ent: i32,
    now: i64,
    title: Seq<char>,
    content: Seq<char>,
    completed: bool,
    folder_id: Option<i64>,
    id: Seq<u8>,
)
    ensures
        ({
            let v = note_insert_view(z_pk, z_ent, now, title, content, completed, folder_id, id);
            &&& v.sql == NOTE_INSERT_SQL@
            &&& v.params.len() == 9
            &&& v.params[0] == SqlParam::Integer(z_pk)
            &&& v.params[1] == SqlParam::Integer(z_ent as i64)
            &&& v.params[2] == SqlParam::Text(title)
            &&& v.params[3] == SqlParam::Text(content)
            &&& v.params[4] == SqlParam::Integer(if completed { 1 } else { 0 })
            &&& v.params[5] == (match folder_id {
                Some(f) => SqlParam::Integer(f),
                None => SqlParam::Null,
            })
            &&& v.params[6] == SqlParam::UnixTime(now)
            &&& v.params[7] == SqlParam::UnixTime(now)
            &&& v.params[8] == SqlParam::Blob(id)
        }),
{
}

/// A tag insert stores exactly what it was asked to: the name unchanged, the
/// colour unchanged (NULL when none is given) and the UUID.
pub proof fn law_tag_insert_binds_its_inputs(
    z_pk: i64,
    z_ent: i32,
    name: Seq<char>,
    color_hex: Option<&str>,
    id: Seq<u8>,
)
    ensures
        ({
            let v = tag_insert_view(z_pk, z_ent, name, text_or_null(color_hex), id);
            &&& v.sql == TAG_INSERT_SQL@
            &&& v.params.len() == 5
            &&& v.params[0] == SqlParam::Integer(z_pk)
            &&& v.params[1] == SqlParam::Integer(z_ent as i64)
            &&& v.params[2] == SqlParam::Text(name)
            &&& v.params[3] == (match color_hex {
                Some(c) => SqlParam::Text(c@),
                None => SqlParam::Null,
            })
            &&& v.params[4] == SqlParam::Blob(id)
        }),
{
}

/// A search pattern is the query itself, unchanged, with one `%` on each
/// side, so it matches exactly the texts that contain the query.
pub proof fn law_like_pattern_wraps_query(q: Seq<char>)
    ensures
        like_pattern(q).len() == q.len() + 2,
        like_pattern(q)[0] == '%',
        like_pattern(q)[q.len() + 1int] == '%',
        like_pattern(q).subrange(1, q.len() + 1int) == q,
{
    assert(like_pattern(q).subrange(1, q.len() + 1int) =~= q);
}

/// In an update, each assignment's placeholder is bound to that field's own
/// value: where the i-th assignment sets the title, the i-th value is the
/// title; where it sets the text, the text; where the folder, the folder;
/// where the edit time, the time. The value after the assignments is the
/// note's key, for the closing `WHERE Z_PK = ?`.
pub proof fn law_update_binds_each_field_to_its_value(
    id: i64,
    title: Option<&str>,
    content: Option<&str>,
    folder_id: Option<i64>,
    now: i64,
)
    ensures
        ({
            let cl = update_clauses(title is Some, content is Some, folder_id is Some);
            let p = update_params(id, title, content, folder_id, now);
            &&& p.len() == cl.len()
            &&& cl[cl.len() - 1] == VERSION_CLAUSE@
            &&& p[p.len() - 1] == SqlParam::Integer(id)
            &&& forall|i: int|
                0 <= i < cl.len() - 1 ==> {
                    &&& cl[i] == TITLE_CLAUSE@ ==> title is Some && p[i] == SqlParam::Text(
                        title->0@,
                    )
                    &&& cl[i] == TEXT_CLAUSE@ ==> content is Some && p[i] == SqlParam::Text(
                        content->0@,
                    )
                    &&& cl[i] == FOLDER_CLAUSE@ ==> folder_id is Some && p[i] == SqlParam::Integer(
                        folder_id->0,
                    )
                    &&& cl[i] == EDITED_CLAUSE@ ==> p[i] == SqlParam::UnixTime(now)
                    &&& (cl[i] == TITLE_CLAUSE@ || cl[i] == TEXT_CLAUSE@ || cl[i] == FOLDER_CLAUSE@
                        || cl[i] == EDITED_CLAUSE@)
                }
        }),
{
    reveal_strlit("ZTITLE = ?");
    reveal_strlit("ZTEXT = ?");
    reveal_strlit("ZFOLDER = ?");
    reveal_strlit("ZEDITED_AT = ?");
    reveal_strlit("Z_OPT = COALESCE(Z_OPT, 0) + 1");
    let t = TITLE_CLAUSE@;
    let x = TEXT_CLAUSE@;
    let f = FOLDER_CLAUSE@;
    let e = EDITED_CLAUSE@;
    let v = VERSION_CLAUSE@;
    assert(t[2] != x[2] && t[1] != f[1] && t[1] != e[1] && t[1] != v[1]);
    assert(x[1] != f[1] && x[1] != e[1] && x[1] != v[1]);
    assert(f[1] != e[1] && f[1] != v[1]);
    assert(t != x && t != f && t != e && t != v);
    assert(x != f && x != e && x != v);
    assert(f != e && f != v);
    let cl = update_clauses(title is Some, content is Some, folder_id is Some);
    let p = update_params(id, title, content, folder_id, now);
    let a = if title is Some { 1int } else { 0int };
    let b = if content is Some { 1int } else { 0int };
    let c = if folder_id is Some { 1int } else { 0int };
    assert(cl.len() == a + b + c + 2);
    assert(p.len() == a + b + c + 2);
    assert forall|i: int| 0 <= i < cl.len() - 1 implies {
        &&& cl[i] == t ==> title is Some && p[i] == SqlParam::Text(title->0@)
        &&& cl[i] == x ==> content is Some && p[i] == SqlParam::Text(content->0@)
        &&& cl[i] == f ==> folder_id is Some && p[i] == SqlParam::Integer(folder_id->0)
        &&& cl[i] == e ==> p[i] == SqlParam::UnixTime(now)
        &&& (cl[i] == t || cl[i] == x || cl[i] == f || cl[i] == e)
    } by {
        if i < a {
            assert(cl[i] == t);
            assert(p[i] == SqlParam::Text(title->0@));
        } else if i < a + b {
            assert(cl[i] == x);
            assert(p[i] == SqlParam::Text(content->0@));
        } else if i < a + b + c {
            assert(cl[i] == f);
            assert(p[i] == SqlParam::Integer(folder_id->0));
        } else {
            assert(cl[i] == e);
            assert(p[i] == SqlParam::UnixTime(now));
        }
    }
}

} // verus!
