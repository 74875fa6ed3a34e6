//! The catalogue of applications and their shortcuts kept in SQLite: the
//! schema, the row mappings, and the operations the user interface invokes.

use vstd::prelude::*;
use crate::db::{
    added, change_answer, database_error_of, db_error_message, extends, failed_in_database,
    failed_with, is_db_error_message, item_read, lemma_sent_concat, lemma_sent_push,
    listing_reported, lookup_reported, map_db_error, optional_text_view, rows_found,
    texts_answer, text_views, reads_added, reads_continue, row_id_request,
    stopped_at_failure, Answer, ColumnRead, Database, DatabaseError, Exchange, ParamView, Read, Recorded,
    RowReader, RowView, SqlParam, SqlStatement, StatementView,
};
use crate::text::{
    blank_field_message, decimal, decimal_text, eq_ignore_ascii_case_spec, normalize_optional_text,
    normalized_text, opt_view, require_non_empty, text_eq_ignore_ascii_case, trim_ws,
};

verus! {

/// An application together with the number of shortcuts recorded for it.
#[derive(Debug)]
pub struct AppItem {
    pub id: i64,
    pub name: String,
    pub description: Option<String>,
    pub shortcut_count: i64,
}

/// A keyboard shortcut of an application.
#[derive(Debug)]
pub struct ShortcutItem {
    pub id: i64,
    pub app_id: i64,
    pub title: String,
    pub combo: String,
    pub notes: Option<String>,
    pub is_pinned: bool,
}

/// An application row as the contracts see it.
pub struct AppRecord {
    pub id: i64,
    pub name: Seq<char>,
    pub description: Option<Seq<char>>,
    pub shortcut_count: i64,
}

/// A shortcut row as the contracts see it.
pub struct ShortcutRecord {
    pub id: i64,
    pub app_id: i64,
    pub title: Seq<char>,
    pub combo: Seq<char>,
    pub notes: Option<Seq<char>>,
    pub is_pinned: bool,
}

impl Recorded for AppItem {
    open spec fn record(&self) -> RowView {
        RowView::App(
            AppRecord {
                id: self.id,
                name: self.name@,
                description: opt_view(self.description),
                shortcut_count: self.shortcut_count,
            },
        )
    }

    /// The reads of an application row, from its first column to its fourth.
    open spec fn read_from(&self, reads: Seq<ColumnRead>) -> bool {
        self.record() matches RowView::App(record) && reads == app_reads(record)
    }
}

impl Recorded for ShortcutItem {
    open spec fn record(&self) -> RowView {
        RowView::Shortcut(
            ShortcutRecord {
                id: self.id,
                app_id: self.app_id,
                title: self.title@,
                combo: self.combo@,
                notes: opt_view(self.notes),
                is_pinned: self.is_pinned,
            },
        )
    }

    /// The reads of a shortcut row, from its first column to its sixth.
    open spec fn read_from(&self, reads: Seq<ColumnRead>) -> bool {
        self.record() matches RowView::Shortcut(record) && shortcut_reads_give(reads, record)
    }
}

/// The fields of an application as the user enters them.
#[derive(Debug)]
pub struct UpsertAppPayload {
    pub name: String,
    pub description: Option<String>,
}

/// The fields of a new shortcut as the user enters them.
#[derive(Debug)]
pub struct CreateShortcutPayload {
    pub app_id: i64,
    pub title: String,
    pub combo: String,
    pub notes: Option<String>,
}

/// The editable fields of a shortcut as the user enters them.
#[derive(Debug)]
pub struct UpdateShortcutPayload {
    pub title: String,
    pub combo: String,
    pub notes: Option<String>,
}

/// The message for an application id that has no record.
pub open spec fn app_missing_message(app_id: i64) -> Seq<char> {
    "应用不存在: "@ + decimal(app_id as int)
}

/// The message for a shortcut id that has no record.
pub open spec fn shortcut_missing_message(shortcut_id: i64) -> Seq<char> {
    "快捷键不存在: "@ + decimal(shortcut_id as int)
}

/// `message` reports an application id without a record.
pub open spec fn is_app_missing_message(message: Seq<char>) -> bool {
    exists|app_id: i64| app_missing_message(app_id) == message
}

/// `message` reports a shortcut id without a record.
pub open spec fn is_shortcut_missing_message(message: Seq<char>) -> bool {
    exists|shortcut_id: i64| shortcut_missing_message(shortcut_id) == message
}

/// The message for an application id that has no record.
pub fn app_not_found(app_id: i64) -> (r: String)
    ensures
        r@ == app_missing_message(app_id),
{
    String::from_str("应用不存在: ").concat(decimal_text(app_id).as_str())
}

/// The message for a shortcut id that has no record.
pub fn shortcut_not_found(shortcut_id: i64) -> (r: String)
    ensures
        r@ == shortcut_missing_message(shortcut_id),
{
    String::from_str("快捷键不存在: ").concat(decimal_text(shortcut_id).as_str())
}

/// The message for a failed database call, from the rusqlite error.
fn db_failure(error: rusqlite::Error) -> (r: String)
    ensures
        is_db_error_message(r@),
{
    let converted = database_error_of(error);
    let message = map_db_error(converted);
    proof {
        assert(db_error_message(converted) == message@);
    }
    message
}

/// What a statement that must change a row reports: a database failure,
/// `missing` when no row was changed, success otherwise.
pub fn changed_or_missing(outcome: Result<usize, rusqlite::Error>, missing: String) -> (r: Result<(), String>)
    ensures
        match outcome {
            Err(_) => r is Err && is_db_error_message(r->Err_0@),
            Ok(changed) => if changed == 0 {
                r is Err && r->Err_0@ == missing@
            } else {
                r is Ok
            },
        },
{
    match outcome {
        Err(e) => Err(db_failure(e)),
        Ok(changed) => if changed == 0 {
            Err(missing)
        } else {
            Ok(())
        },
    }
}

/// What a lookup of one record reports: a database failure, `missing` when
/// there was no record, the record otherwise.
pub fn found_or_missing<T>(found: Result<Option<T>, rusqlite::Error>, missing: String) -> (r: Result<T, String>)
    ensures
        match found {
            Err(_) => r is Err && is_db_error_message(r->Err_0@),
            Ok(None) => r is Err && r->Err_0@ == missing@,
            Ok(Some(record)) => r == Ok::<T, String>(record),
        },
{
    match found {
        Err(e) => Err(db_failure(e)),
        Ok(None) => Err(missing),
        Ok(Some(record)) => Ok(record),
    }
}

/// The outcome of reading all rows of a query: the rows in order when every
/// row could be read, otherwise the first failure.
pub open spec fn collected<T>(rows: Seq<Result<T, rusqlite::Error>>) -> Result<Seq<T>, rusqlite::Error>
    decreases rows.len(),
{
    if rows.len() == 0 {
        Ok(Seq::empty())
    } else {
        match rows[0] {
            Err(e) => Err(e),
            Ok(first) => match collected(rows.drop_first()) {
                Err(e) => Err(e),
                Ok(rest) => Ok(seq![first] + rest),
            },
        }
    }
}

/// Gathers the rows of a query, stopping at the first row that failed.
pub fn collect_rows<T>(rows: Vec<Result<T, rusqlite::Error>>) -> (r: Result<Vec<T>, rusqlite::Error>)
    ensures
        match (r, collected(rows@)) {
            (Ok(v), Ok(s)) => v@ == s,
            (Err(e), Err(f)) => e == f,
            _ => false,
        },
{
    let mut rest = rows;
    let mut out: Vec<T> = Vec::new();
    while rest.len() > 0
        invariant
            match collected(rows@) {
                Ok(s) => collected(rest@) is Ok && s == out@ + collected(rest@)->Ok_0,
                Err(e) => collected(rest@) == Err::<Seq<T>, rusqlite::Error>(e),
            },
        decreases rest.len(),
    {
        let ghost before = rest@;
        let first = rest.remove(0);
        assert(rest@ == before.drop_first());
        match first {
            Err(e) => {
                return Err(e);
            },
            Ok(value) => {
                proof {
                    if collected(rows@) is Ok {
                        assert(out@.push(value) + collected(rest@)->Ok_0 =~= out@ + (seq![value] + collected(rest@)->Ok_0));
                    }
                }
                out.push(value);
            },
        }
    }
    Ok(out)
}

/// The reads of an application row that give `item`: id, name, description
/// and shortcut count, from columns 0 to 3 in turn.
pub open spec fn app_reads(item: AppRecord) -> Seq<ColumnRead> {
    seq![
        ColumnRead::Integer(0, item.id),
        ColumnRead::Text(1, item.name),
        ColumnRead::OptionalText(2, item.description),
        ColumnRead::Integer(3, item.shortcut_count),
    ]
}

/// The reads of a shortcut row that give `item`: id, application id,
/// title, combination and notes from columns 0 to 4, then the pinned flag
/// from column 5, set when the integer read is not zero.
pub open spec fn shortcut_reads_give(reads: Seq<ColumnRead>, item: ShortcutRecord) -> bool {
    &&& reads.len() == 6
    &&& reads[0] == ColumnRead::Integer(0, item.id)
    &&& reads[1] == ColumnRead::Integer(1, item.app_id)
    &&& reads[2] == ColumnRead::Text(2, item.title)
    &&& reads[3] == ColumnRead::Text(3, item.combo)
    &&& reads[4] == ColumnRead::OptionalText(4, item.notes)
    &&& reads[5] matches ColumnRead::Integer(column, flag) && column == 5 && item.is_pinned == (flag != 0)
}

/// Reads an application row: id, name, description and shortcut count.
pub fn app_row_mapper(reader: &mut RowReader<'_, '_>) -> (r: Result<AppItem, rusqlite::Error>)
    ensures
        match r {
            Ok(item) => item.record() matches RowView::App(record)
                && reads_continue(old(reader).reads(), final(reader).reads())
                && reads_added(old(reader).reads(), final(reader).reads()) == app_reads(record),
            Err(_) => reads_continue(old(reader).reads(), final(reader).reads())
                && stopped_at_failure(reads_added(old(reader).reads(), final(reader).reads())),
        },
{
    let ghost r0 = reader.reads();
    let id = match reader.integer(0) {
        Err(e) => {
            assert(reader.reads().subrange(0, r0.len() as int) =~= r0);
            return Err(e);
        },
        Ok(v) => v,
    };
    let name = match reader.text(1) {
        Err(e) => {
            assert(reader.reads().subrange(0, r0.len() as int) =~= r0);
            return Err(e);
        },
        Ok(v) => v,
    };
    let description = match reader.optional_text(2) {
        Err(e) => {
            assert(reader.reads().subrange(0, r0.len() as int) =~= r0);
            return Err(e);
        },
        Ok(v) => v,
    };
    let shortcut_count = match reader.integer(3) {
        Err(e) => {
            assert(reader.reads().subrange(0, r0.len() as int) =~= r0);
            return Err(e);
        },
        Ok(v) => v,
    };
    assert(reader.reads().subrange(0, r0.len() as int) =~= r0);
    Ok(AppItem { id, name, description, shortcut_count })
}

/// A shortcut built from its columns; the pinned column is a flag stored as
/// an integer, set when it is not zero.
pub fn shortcut_from_columns(
    id: i64,
    app_id: i64,
    title: String,
    combo: String,
    notes: Option<String>,
    pinned_flag: i64,
) -> (r: ShortcutItem)
    ensures
        r.id == id,
        r.app_id == app_id,
        r.title == title,
        r.combo == combo,
        r.notes == notes,
        r.is_pinned == (pinned_flag != 0),
{
    ShortcutItem { id, app_id, title, combo, notes, is_pinned: pinned_flag != 0 }
}

/// Reads a shortcut row: id, application id, title, combination, notes and
/// pinned flag.
pub fn shortcut_row_mapper(reader: &mut RowReader<'_, '_>) -> (r: Result<ShortcutItem, rusqlite::Error>)
    ensures
        match r {
            Ok(item) => item.record() matches RowView::Shortcut(record)
                && reads_continue(old(reader).reads(), final(reader).reads())
                && shortcut_reads_give(reads_added(old(reader).reads(), final(reader).reads()), record),
            Err(_) => reads_continue(old(reader).reads(), final(reader).reads())
                && stopped_at_failure(reads_added(old(reader).reads(), final(reader).reads())),
        },
{
    let ghost r0 = reader.reads();
    let id = match reader.integer(0) {
        Err(e) => {
            assert(reader.reads().subrange(0, r0.len() as int) =~= r0);
            return Err(e);
        },
        Ok(v) => v,
    };
    let app_id = match reader.integer(1) {
        Err(e) => {
            assert(reader.reads().subrange(0, r0.len() as int) =~= r0);
            return Err(e);
        },
        Ok(v) => v,
    };
    let title = match reader.text(2) {
        Err(e) => {
            assert(reader.reads().subrange(0, r0.len() as int) =~= r0);
            return Err(e);
        },
        Ok(v) => v,
    };
    let combo = match reader.text(3) {
        Err(e) => {
            assert(reader.reads().subrange(0, r0.len() as int) =~= r0);
            return Err(e);
        },
        Ok(v) => v,
    };
    let notes = match reader.optional_text(4) {
        Err(e) => {
            assert(reader.reads().subrange(0, r0.len() as int) =~= r0);
            return Err(e);
        },
        Ok(v) => v,
    };
    let pinned_flag = match reader.integer(5) {
        Err(e) => {
            assert(reader.reads().subrange(0, r0.len() as int) =~= r0);
            return Err(e);
        },
        Ok(v) => v,
    };
    assert(reader.reads().subrange(0, r0.len() as int) =~= r0);
    Ok(shortcut_from_columns(id, app_id, title, combo, notes, pinned_flag))
}

/// Reads an application row of a query.
fn read_app_row(row: &rusqlite::Row<'_>) -> (r: Result<Read<AppItem>, rusqlite::Error>) {
    let mut reader = RowReader::new(row);
    match app_row_mapper(&mut reader) {
        Ok(item) => {
            assert(reads_added(Seq::empty(), reader.reads()) =~= reader.reads());
            Ok(Read::new(item, reader))
        },
        Err(e) => Err(e),
    }
}

/// Reads a shortcut row of a query.
fn read_shortcut_row(row: &rusqlite::Row<'_>) -> (r: Result<Read<ShortcutItem>, rusqlite::Error>) {
    let mut reader = RowReader::new(row);
    match shortcut_row_mapper(&mut reader) {
        Ok(item) => {
            assert(reads_added(Seq::empty(), reader.reads()) =~= reader.reads());
            Ok(Read::new(item, reader))
        },
        Err(e) => Err(e),
    }
}

/// Reads the first column of a row as an integer.
fn first_integer_column(row: &rusqlite::Row<'_>) -> (r: Result<Read<i64>, rusqlite::Error>) {
    let mut reader = RowReader::new(row);
    match reader.integer(0) {
        Ok(id) => Ok(Read::new(id, reader)),
        Err(e) => Err(e),
    }
}

/// Binds an optional text as text or `NULL`.
fn optional_text_param(text: Option<String>) -> (r: SqlParam)
    ensures
        match text {
            Some(t) => r == SqlParam::Text(t),
            None => r == SqlParam::Null,
        },
{
    match text {
        Some(t) => SqlParam::Text(t),
        None => SqlParam::Null,
    }
}

/// Loads one application, with its shortcut count, by id.
pub const FETCH_APP_SQL: &'static str = "SELECT a.id, a.name, a.description, COUNT(s.id) AS shortcut_count FROM apps a LEFT JOIN shortcuts s ON s.app_id = a.id WHERE a.id = ?1 GROUP BY a.id";

/// Loads one shortcut by id.
pub const FETCH_SHORTCUT_SQL: &'static str = "SELECT id, app_id, title, combo, notes, is_pinned FROM shortcuts WHERE id = ?1";

/// Lists the applications with their shortcut counts, by name without regard to case.
pub const LIST_APPS_SQL: &'static str = "SELECT a.id, a.name, a.description, COUNT(s.id) AS shortcut_count FROM apps a LEFT JOIN shortcuts s ON s.app_id = a.id GROUP BY a.id ORDER BY a.name COLLATE NOCASE ASC";

/// Inserts an application: name, description.
pub const INSERT_APP_SQL: &'static str = "INSERT INTO apps (name, description, created_at, updated_at) VALUES (?1, ?2, CURRENT_TIMESTAMP, CURRENT_TIMESTAMP)";

/// Updates an application: name, description, id.
pub const UPDATE_APP_SQL: &'static str = "UPDATE apps SET name = ?1, description = ?2, updated_at = CURRENT_TIMESTAMP WHERE id = ?3";

/// Deletes an application by id.
pub const DELETE_APP_SQL: &'static str = "DELETE FROM apps WHERE id = ?1";

/// Finds whether an application id exists.
pub const APP_EXISTS_SQL: &'static str = "SELECT id FROM apps WHERE id = ?1";

/// Lists the shortcuts of an application, pinned first, then by title without regard to case.
pub const LIST_SHORTCUTS_SQL: &'static str = "SELECT id, app_id, title, combo, notes, is_pinned FROM shortcuts WHERE app_id = ?1 ORDER BY is_pinned DESC, title COLLATE NOCASE ASC";

/// Inserts a shortcut: application id, title, combination, notes.
pub const INSERT_SHORTCUT_SQL: &'static str = "INSERT INTO shortcuts (app_id, title, combo, notes, created_at, updated_at) VALUES (?1, ?2, ?3, ?4, CURRENT_TIMESTAMP, CURRENT_TIMESTAMP)";

/// Updates a shortcut: title, combination, notes, id.
pub const UPDATE_SHORTCUT_SQL: &'static str = "UPDATE shortcuts SET title = ?1, combo = ?2, notes = ?3, updated_at = CURRENT_TIMESTAMP WHERE id = ?4";

/// Sets the pinned flag of a shortcut: flag, id.
pub const UPDATE_SHORTCUT_PIN_SQL: &'static str = "UPDATE shortcuts SET is_pinned = ?1, updated_at = CURRENT_TIMESTAMP WHERE id = ?2";

/// Deletes a shortcut by id.
pub const DELETE_SHORTCUT_SQL: &'static str = "DELETE FROM shortcuts WHERE id = ?1";

/// A statement as the contracts see it.
pub open spec fn statement(sql: Seq<char>, params: Seq<ParamView>) -> StatementView {
    StatementView { sql, params }
}

/// The lookup of an application.
pub open spec fn fetch_app_statement(app_id: i64) -> StatementView {
    statement(FETCH_APP_SQL@, seq![ParamView::Integer(app_id)])
}

/// The lookup of a shortcut.
pub open spec fn fetch_shortcut_statement(shortcut_id: i64) -> StatementView {
    statement(FETCH_SHORTCUT_SQL@, seq![ParamView::Integer(shortcut_id)])
}

/// The listing of the applications.
pub open spec fn list_apps_statement() -> StatementView {
    statement(LIST_APPS_SQL@, Seq::empty())
}

/// The insertion of an application.
pub open spec fn insert_app_statement(name: Seq<char>, description: Option<Seq<char>>) -> StatementView {
    statement(INSERT_APP_SQL@, seq![ParamView::Text(name), optional_text_view(description)])
}

/// The update of an application.
pub open spec fn update_app_statement(name: Seq<char>, description: Option<Seq<char>>, app_id: i64) -> StatementView {
    statement(
        UPDATE_APP_SQL@,
        seq![ParamView::Text(name), optional_text_view(description), ParamView::Integer(app_id)],
    )
}

/// The deletion of an application.
pub open spec fn delete_app_statement(app_id: i64) -> StatementView {
    statement(DELETE_APP_SQL@, seq![ParamView::Integer(app_id)])
}

/// The check that an application exists.
pub open spec fn app_exists_statement(app_id: i64) -> StatementView {
    statement(APP_EXISTS_SQL@, seq![ParamView::Integer(app_id)])
}

/// The listing of an application's shortcuts.
pub open spec fn list_shortcuts_statement(app_id: i64) -> StatementView {
    statement(LIST_SHORTCUTS_SQL@, seq![ParamView::Integer(app_id)])
}

/// The insertion of a shortcut.
pub open spec fn insert_shortcut_statement(app_id: i64, title: Seq<char>, combo: Seq<char>, notes: Option<Seq<char>>) -> StatementView {
    statement(
        INSERT_SHORTCUT_SQL@,
        seq![
            ParamView::Integer(app_id),
            ParamView::Text(title),
            ParamView::Text(combo),
            optional_text_view(notes),
        ],
    )
}

/// The update of a shortcut.
pub open spec fn update_shortcut_statement(title: Seq<char>, combo: Seq<char>, notes: Option<Seq<char>>, shortcut_id: i64) -> StatementView {
    statement(
        UPDATE_SHORTCUT_SQL@,
        seq![
            ParamView::Text(title),
            ParamView::Text(combo),
            optional_text_view(notes),
            ParamView::Integer(shortcut_id),
        ],
    )
}

/// The setting of a shortcut's pinned flag.
pub open spec fn update_shortcut_pin_statement(flag: i64, shortcut_id: i64) -> StatementView {
    statement(UPDATE_SHORTCUT_PIN_SQL@, seq![ParamView::Integer(flag), ParamView::Integer(shortcut_id)])
}

/// The deletion of a shortcut.
pub open spec fn delete_shortcut_statement(shortcut_id: i64) -> StatementView {
    statement(DELETE_SHORTCUT_SQL@, seq![ParamView::Integer(shortcut_id)])
}

/// Builds a statement without parameters.
fn build_plain(sql: &'static str) -> (r: SqlStatement)
    ensures
        r@ == statement(sql@, Seq::empty()),
{
    let r = SqlStatement { sql, params: Vec::new() };
    assert(r@.params =~= Seq::<ParamView>::empty());
    r
}

/// Builds a statement whose one parameter is an id.
fn build_with_id(sql: &'static str, id: i64) -> (r: SqlStatement)
    ensures
        r@ == statement(sql@, seq![ParamView::Integer(id)]),
{
    let r = SqlStatement { sql, params: vec![SqlParam::Integer(id)] };
    assert(r@.params =~= seq![ParamView::Integer(id)]);
    r
}

/// Builds the insertion of an application.
pub fn build_insert_app(name: String, description: Option<String>) -> (r: SqlStatement)
    ensures
        r@ == insert_app_statement(name@, opt_view(description)),
{
    let ghost expected = insert_app_statement(name@, opt_view(description));
    let r = SqlStatement {
        sql: INSERT_APP_SQL,
        params: vec![SqlParam::Text(name), optional_text_param(description)],
    };
    assert(r@.params =~= expected.params);
    r
}

/// Builds the update of an application.
pub fn build_update_app(name: String, description: Option<String>, app_id: i64) -> (r: SqlStatement)
    ensures
        r@ == update_app_statement(name@, opt_view(description), app_id),
{
    let ghost expected = update_app_statement(name@, opt_view(description), app_id);
    let r = SqlStatement {
        sql: UPDATE_APP_SQL,
        params: vec![SqlParam::Text(name), optional_text_param(description), SqlParam::Integer(app_id)],
    };
    assert(r@.params =~= expected.params);
    r
}

/// Builds the insertion of a shortcut.
pub fn build_insert_shortcut(app_id: i64, title: String, combo: String, notes: Option<String>) -> (r: SqlStatement)
    ensures
        r@ == insert_shortcut_statement(app_id, title@, combo@, opt_view(notes)),
{
    let ghost expected = insert_shortcut_statement(app_id, title@, combo@, opt_view(notes));
    let r = SqlStatement {
        sql: INSERT_SHORTCUT_SQL,
        params: vec![
            SqlParam::Integer(app_id),
            SqlParam::Text(title),
            SqlParam::Text(combo),
            optional_text_param(notes),
        ],
    };
    assert(r@.params =~= expected.params);
    r
}

/// Builds the update of a shortcut.
pub fn build_update_shortcut(title: String, combo: String, notes: Option<String>, shortcut_id: i64) -> (r: SqlStatement)
    ensures
        r@ == update_shortcut_statement(title@, combo@, opt_view(notes), shortcut_id),
{
    let ghost expected = update_shortcut_statement(title@, combo@, opt_view(notes), shortcut_id);
    let r = SqlStatement {
        sql: UPDATE_SHORTCUT_SQL,
        params: vec![
            SqlParam::Text(title),
            SqlParam::Text(combo),
            optional_text_param(notes),
            SqlParam::Integer(shortcut_id),
        ],
    };
    assert(r@.params =~= expected.params);
    r
}

/// Builds the setting of a shortcut's pinned flag.
pub fn build_update_shortcut_pin(flag: i64, shortcut_id: i64) -> (r: SqlStatement)
    ensures
        r@ == update_shortcut_pin_statement(flag, shortcut_id),
{
    let r = SqlStatement {
        sql: UPDATE_SHORTCUT_PIN_SQL,
        params: vec![SqlParam::Integer(flag), SqlParam::Integer(shortcut_id)],
    };
    assert(r@.params =~= update_shortcut_pin_statement(flag, shortcut_id).params);
    r
}

/// From `before` to `after`, exactly `lookup` was sent, and `r` reports
/// SQLite's answer to it (`missing` when no row was found).
pub open spec fn looked_up<T: Recorded>(before: Seq<Exchange>, after: Seq<Exchange>, lookup: StatementView, r: Result<T, String>, missing: Seq<char>) -> bool {
    &&& extends(before, after)
    &&& added(before, after).len() == 1
    &&& added(before, after)[0].statement == lookup
    &&& lookup_reported(added(before, after)[0].answer, r, missing)
}

/// From `before` to `after`, exactly `query` was sent, and `r` reports the
/// rows SQLite returned.
pub open spec fn listed<T: Recorded>(before: Seq<Exchange>, after: Seq<Exchange>, query: StatementView, r: Result<Vec<T>, String>) -> bool {
    &&& extends(before, after)
    &&& added(before, after).len() == 1
    &&& added(before, after)[0].statement == query
    &&& listing_reported(added(before, after)[0].answer, r)
}

/// From `before` to `after`, exactly `change` was sent; `r` is success when
/// it changed a row, `missing` when it changed none, a database message
/// when it failed.
pub open spec fn changed_one(before: Seq<Exchange>, after: Seq<Exchange>, change: StatementView, r: Result<(), String>, missing: Seq<char>) -> bool {
    &&& extends(before, after)
    &&& added(before, after).len() == 1
    &&& added(before, after)[0].statement == change
    &&& match added(before, after)[0].answer {
        Answer::Changed(n) => if n == 0 {
            failed_with(r, missing)
        } else {
            r is Ok
        },
        _ => failed_in_database(r),
    }
}

/// From `before` to `after`, `change` was sent and, when it changed a row,
/// `lookup` after it; `r` reports the lookup, `missing` when no row was
/// changed or found, a database message when a statement failed.
pub open spec fn changed_then_looked_up<T: Recorded>(before: Seq<Exchange>, after: Seq<Exchange>, change: StatementView, lookup: StatementView, r: Result<T, String>, missing: Seq<char>) -> bool {
    let sent = added(before, after);
    &&& extends(before, after)
    &&& sent.len() >= 1
    &&& sent[0].statement == change
    &&& match sent[0].answer {
        Answer::Changed(n) => if n == 0 {
            sent.len() == 1 && failed_with(r, missing)
        } else {
            sent.len() == 2 && sent[1].statement == lookup && lookup_reported(sent[1].answer, r, missing)
        },
        _ => sent.len() == 1 && failed_in_database(r),
    }
}

/// From `before` to `after`, the insertion `insert` was sent and, when it
/// succeeded, the request for the new row's id and the lookup of the
/// application under the id SQLite gave; `r` reports that lookup.
pub open spec fn app_inserted(before: Seq<Exchange>, after: Seq<Exchange>, insert: StatementView, r: Result<AppItem, String>) -> bool {
    let sent = added(before, after);
    &&& extends(before, after)
    &&& sent.len() >= 1
    &&& sent[0].statement == insert
    &&& match sent[0].answer {
        Answer::Changed(_) => {
            &&& sent.len() == 3
            &&& sent[1].statement == row_id_request()
            &&& sent[1].answer matches Answer::RowId(id) && sent[2].statement == fetch_app_statement(id)
                && lookup_reported(sent[2].answer, r, app_missing_message(id))
        },
        _ => sent.len() == 1 && failed_in_database(r),
    }
}

/// From `before` to `after`, the insertion `insert` was sent and, when it
/// succeeded, the request for the new row's id and the lookup of the
/// shortcut under the id SQLite gave; `r` reports that lookup.
pub open spec fn shortcut_inserted(before: Seq<Exchange>, after: Seq<Exchange>, insert: StatementView, r: Result<ShortcutItem, String>) -> bool {
    let sent = added(before, after);
    &&& extends(before, after)
    &&& sent.len() >= 1
    &&& sent[0].statement == insert
    &&& match sent[0].answer {
        Answer::Changed(_) => {
            &&& sent.len() == 3
            &&& sent[1].statement == row_id_request()
            &&& sent[1].answer matches Answer::RowId(id) && sent[2].statement == fetch_shortcut_statement(id)
                && lookup_reported(sent[2].answer, r, shortcut_missing_message(id))
        },
        _ => sent.len() == 1 && failed_in_database(r),
    }
}

/// Loads one application with its shortcut count.
pub fn fetch_app_by_id(db: &mut Database, app_id: i64) -> (r: Result<AppItem, String>)
    ensures
        looked_up(old(db).history(), final(db).history(), fetch_app_statement(app_id), r, app_missing_message(app_id)),
{
    let ghost h0 = db.history();
    let query = build_with_id(FETCH_APP_SQL, app_id);
    let ghost qv = query@;
    let found = db.query_row(query, read_app_row);
    proof {
        lemma_sent_push(h0, db.history().last());
    }
    found_or_missing(found, app_not_found(app_id))
}

/// Loads one shortcut.
pub fn fetch_shortcut_by_id(db: &mut Database, shortcut_id: i64) -> (r: Result<ShortcutItem, String>)
    ensures
        looked_up(old(db).history(), final(db).history(), fetch_shortcut_statement(shortcut_id), r, shortcut_missing_message(shortcut_id)),
{
    let ghost h0 = db.history();
    let query = build_with_id(FETCH_SHORTCUT_SQL, shortcut_id);
    let ghost qv = query@;
    let found = db.query_row(query, read_shortcut_row);
    proof {
        lemma_sent_push(h0, db.history().last());
    }
    found_or_missing(found, shortcut_not_found(shortcut_id))
}

/// Gathers the rows of a listing in order, or reports the first failure.
fn gather<T: Recorded>(rows: Result<Vec<Result<T, rusqlite::Error>>, rusqlite::Error>, Ghost(answer): Ghost<Answer>) -> (r: Result<Vec<T>, String>)
    requires
        rows_found(answer, rows),
    ensures
        listing_reported(answer, r),
{
    match rows {
        Err(e) => Err(db_failure(e)),
        Ok(rows) => {
            let ghost all = rows@;
            let ghost reads = answer->Rows_0;
            let collected = collect_rows(rows);
            proof {
                lemma_collected(all);
                assert forall|i: int| 0 <= i < all.len() implies (#[trigger] reads[i] is Some
                    <==> all[i] is Ok) by {
                    assert(item_read(all[i], reads[i]));
                }
            }
            match collected {
                Err(e) => {
                    proof {
                        let i = choose|i: int| 0 <= i < all.len() && !(#[trigger] all[i] is Ok);
                        assert(!(reads[i] is Some));
                    }
                    Err(db_failure(e))
                },
                Ok(items) => {
                    proof {
                        assert forall|i: int| 0 <= i < reads.len() implies (#[trigger] items@[i]).read_from(
                            reads[i]->0,
                        ) by {
                            assert(item_read(all[i], reads[i]));
                            assert(all[i] == Ok::<T, rusqlite::Error>(items@[i]));
                        }
                    }
                    Ok(items)
                },
            }
        },
    }
}

proof fn lemma_collected<T>(rows: Seq<Result<T, rusqlite::Error>>)
    ensures
        collected(rows) is Ok <==> forall|i: int| 0 <= i < rows.len() ==> #[trigger] rows[i] is Ok,
        collected(rows) is Ok ==> collected(rows)->Ok_0.len() == rows.len() && forall|i: int|
            0 <= i < rows.len() ==> rows[i] == Ok::<T, rusqlite::Error>(
                #[trigger] collected(rows)->Ok_0[i],
            ),
    decreases rows.len(),
{
    if rows.len() > 0 {
        let rest = rows.drop_first();
        lemma_collected(rest);
        assert forall|i: int| 0 < i < rows.len() implies rows[i] == rest[i - 1] by {}
        if collected(rows) is Ok {
            let out = collected(rows)->Ok_0;
            assert forall|i: int| 0 <= i < rows.len() implies rows[i] == Ok::<T, rusqlite::Error>(
                #[trigger] out[i],
            ) by {
                if i > 0 {
                    assert(out[i] == collected(rest)->Ok_0[i - 1]);
                }
            }
        }
        if forall|i: int| 0 <= i < rows.len() ==> #[trigger] rows[i] is Ok {
            assert forall|i: int| 0 <= i < rest.len() implies #[trigger] rest[i] is Ok by {
                assert(rest[i] == rows[i + 1]);
            }
        }
    }
}

/// All applications with their shortcut counts, ordered by name without
/// regard to case.
pub fn list_apps(db: &mut Database) -> (r: Result<Vec<AppItem>, String>)
    ensures
        listed(old(db).history(), final(db).history(), list_apps_statement(), r),
{
    let ghost h0 = db.history();
    let query = build_plain(LIST_APPS_SQL);
    let ghost qv = query@;
    let rows = db.query_rows(query, read_app_row);
    proof {
        lemma_sent_push(h0, db.history().last());
    }
    gather(rows, Ghost(db.history().last().answer))
}

/// Runs a change and, when it changed a row, reports success; `missing`
/// when it changed none.
fn run_change(db: &mut Database, change: SqlStatement, missing: String) -> (r: Result<(), String>)
    ensures
        changed_one(old(db).history(), final(db).history(), change@, r, missing@),
{
    let ghost h0 = db.history();
    let ghost cv = change@;
    let outcome = db.run(change);
    proof {
        lemma_sent_push(h0, Exchange { statement: cv, answer: change_answer(outcome) });
    }
    changed_or_missing(outcome, missing)
}

/// Records a new application. The name is required; both fields are
/// trimmed and a blank description is stored as absent.
pub fn create_app(db: &mut Database, payload: UpsertAppPayload) -> (r: Result<AppItem, String>)
    ensures
        trim_ws(payload.name@).len() == 0 ==> failed_with(r, blank_field_message("应用名称"@))
            && final(db).history() == old(db).history(),
        trim_ws(payload.name@).len() > 0 ==> app_inserted(
            old(db).history(),
            final(db).history(),
            insert_app_statement(trim_ws(payload.name@), normalized_text(opt_view(payload.description))),
            r,
        ),
{
    let name = match require_non_empty(payload.name.as_str(), "应用名称") {
        Err(message) => {
            return Err(message);
        },
        Ok(name) => name,
    };
    let description = normalize_optional_text(payload.description);
    let ghost h0 = db.history();
    let insert = build_insert_app(name, description);
    let ghost iv = insert@;
    let outcome = db.run(insert);
    let ghost h1 = db.history();
    proof {
        lemma_sent_push(h0, Exchange { statement: iv, answer: change_answer(outcome) });
    }
    match outcome {
        Err(e) => Err(db_failure(e)),
        Ok(_) => {
            let id = db.last_insert_rowid();
            let ghost h2 = db.history();
            let r = fetch_app_by_id(db, id);
            proof {
                lemma_sent_push(h1, Exchange { statement: row_id_request(), answer: Answer::RowId(id) });
                lemma_sent_concat(h0, h1, h2);
                lemma_sent_concat(h0, h2, db.history());
            }
            r
        },
    }
}

/// Changes the name and description of an application.
pub fn update_app(db: &mut Database, app_id: i64, payload: UpsertAppPayload) -> (r: Result<AppItem, String>)
    ensures
        trim_ws(payload.name@).len() == 0 ==> failed_with(r, blank_field_message("应用名称"@))
            && final(db).history() == old(db).history(),
        trim_ws(payload.name@).len() > 0 ==> changed_then_looked_up(
            old(db).history(),
            final(db).history(),
            update_app_statement(trim_ws(payload.name@), normalized_text(opt_view(payload.description)), app_id),
            fetch_app_statement(app_id),
            r,
            app_missing_message(app_id),
        ),
{
    let name = match require_non_empty(payload.name.as_str(), "应用名称") {
        Err(message) => {
            return Err(message);
        },
        Ok(name) => name,
    };
    let description = normalize_optional_text(payload.description);
    let ghost h0 = db.history();
    if let Err(message) = run_change(db, build_update_app(name, description, app_id), app_not_found(app_id)) {
        return Err(message);
    }
    let ghost h1 = db.history();
    let r = fetch_app_by_id(db, app_id);
    proof {
        lemma_sent_concat(h0, h1, db.history());
    }
    r
}

/// Deletes an application; its shortcuts go with it.
pub fn delete_app(db: &mut Database, app_id: i64) -> (r: Result<(), String>)
    ensures
        changed_one(old(db).history(), final(db).history(), delete_app_statement(app_id), r, app_missing_message(app_id)),
{
    run_change(db, build_with_id(DELETE_APP_SQL, app_id), app_not_found(app_id))
}

/// The shortcuts of an application, pinned ones first, then by title
/// without regard to case.
pub fn list_shortcuts(db: &mut Database, app_id: i64) -> (r: Result<Vec<ShortcutItem>, String>)
    ensures
        ({
            let sent = added(old(db).history(), final(db).history());
            &&& extends(old(db).history(), final(db).history())
            &&& sent.len() >= 1
            &&& sent[0].statement == app_exists_statement(app_id)
            &&& match sent[0].answer {
                Answer::Row(Some(_)) => sent.len() == 2 && sent[1].statement == list_shortcuts_statement(app_id)
                    && listing_reported(sent[1].answer, r),
                Answer::Row(None) => sent.len() == 1 && failed_with(r, app_missing_message(app_id)),
                _ => sent.len() == 1 && failed_in_database(r),
            }
        }),
{
    let ghost h0 = db.history();
    let check = build_with_id(APP_EXISTS_SQL, app_id);
    let ghost cv = check@;
    let found = db.query_row(check, first_integer_column);
    let ghost h1 = db.history();
    proof {
        lemma_sent_push(h0, db.history().last());
    }
    if let Err(message) = found_or_missing(found, app_not_found(app_id)) {
        return Err(message);
    }
    let query = build_with_id(LIST_SHORTCUTS_SQL, app_id);
    let ghost qv = query@;
    let rows = db.query_rows(query, read_shortcut_row);
    proof {
        lemma_sent_push(h1, db.history().last());
        lemma_sent_concat(h0, h1, db.history());
    }
    gather(rows, Ghost(db.history().last().answer))
}

/// Records a new shortcut. Title and combination are required; all fields
/// are trimmed and blank notes are stored as absent.
pub fn create_shortcut(db: &mut Database, payload: CreateShortcutPayload) -> (r: Result<ShortcutItem, String>)
    ensures
        trim_ws(payload.title@).len() == 0 ==> failed_with(r, blank_field_message("快捷键名称"@))
            && final(db).history() == old(db).history(),
        trim_ws(payload.title@).len() > 0 && trim_ws(payload.combo@).len() == 0 ==> failed_with(
            r,
            blank_field_message("快捷键组合"@),
        ) && final(db).history() == old(db).history(),
        trim_ws(payload.title@).len() > 0 && trim_ws(payload.combo@).len() > 0 ==> shortcut_inserted(
            old(db).history(),
            final(db).history(),
            insert_shortcut_statement(
                payload.app_id,
                trim_ws(payload.title@),
                trim_ws(payload.combo@),
                normalized_text(opt_view(payload.notes)),
            ),
            r,
        ),
{
    let title = match require_non_empty(payload.title.as_str(), "快捷键名称") {
        Err(message) => {
            return Err(message);
        },
        Ok(title) => title,
    };
    let combo = match require_non_empty(payload.combo.as_str(), "快捷键组合") {
        Err(message) => {
            return Err(message);
        },
        Ok(combo) => combo,
    };
    let notes = normalize_optional_text(payload.notes);
    let ghost h0 = db.history();
    let insert = build_insert_shortcut(payload.app_id, title, combo, notes);
    let ghost iv = insert@;
    let outcome = db.run(insert);
    let ghost h1 = db.history();
    proof {
        lemma_sent_push(h0, Exchange { statement: iv, answer: change_answer(outcome) });
    }
    match outcome {
        Err(e) => Err(db_failure(e)),
        Ok(_) => {
            let id = db.last_insert_rowid();
            let ghost h2 = db.history();
            let r = fetch_shortcut_by_id(db, id);
            proof {
                lemma_sent_push(h1, Exchange { statement: row_id_request(), answer: Answer::RowId(id) });
                lemma_sent_concat(h0, h1, h2);
                lemma_sent_concat(h0, h2, db.history());
            }
            r
        },
    }
}

/// Changes the title, combination and notes of a shortcut.
pub fn update_shortcut(db: &mut Database, shortcut_id: i64, payload: UpdateShortcutPayload) -> (r: Result<ShortcutItem, String>)
    ensures
        trim_ws(payload.title@).len() == 0 ==> failed_with(r, blank_field_message("快捷键名称"@))
            && final(db).history() == old(db).history(),
        trim_ws(payload.title@).len() > 0 && trim_ws(payload.combo@).len() == 0 ==> failed_with(
            r,
            blank_field_message("快捷键组合"@),
        ) && final(db).history() == old(db).history(),
        trim_ws(payload.title@).len() > 0 && trim_ws(payload.combo@).len() > 0 ==> changed_then_looked_up(
            old(db).history(),
            final(db).history(),
            update_shortcut_statement(
                trim_ws(payload.title@),
                trim_ws(payload.combo@),
                normalized_text(opt_view(payload.notes)),
                shortcut_id,
            ),
            fetch_shortcut_statement(shortcut_id),
            r,
            shortcut_missing_message(shortcut_id),
        ),
{
    let title = match require_non_empty(payload.title.as_str(), "快捷键名称") {
        Err(message) => {
            return Err(message);
        },
        Ok(title) => title,
    };
    let combo = match require_non_empty(payload.combo.as_str(), "快捷键组合") {
        Err(message) => {
            return Err(message);
        },
        Ok(combo) => combo,
    };
    let notes = normalize_optional_text(payload.notes);
    let ghost h0 = db.history();
    let change = build_update_shortcut(title, combo, notes, shortcut_id);
    if let Err(message) = run_change(db, change, shortcut_not_found(shortcut_id)) {
        return Err(message);
    }
    let ghost h1 = db.history();
    let r = fetch_shortcut_by_id(db, shortcut_id);
    proof {
        lemma_sent_concat(h0, h1, db.history());
    }
    r
}

/// Pins or unpins a shortcut; pinned shortcuts are listed first. The flag
/// is stored as 1 or 0.
pub fn update_shortcut_pin(db: &mut Database, shortcut_id: i64, pinned: bool) -> (r: Result<ShortcutItem, String>)
    ensures
        changed_then_looked_up(
            old(db).history(),
            final(db).history(),
            update_shortcut_pin_statement(if pinned { 1 } else { 0 }, shortcut_id),
            fetch_shortcut_statement(shortcut_id),
            r,
            shortcut_missing_message(shortcut_id),
        ),
{
    let flag: i64 = if pinned { 1 } else { 0 };
    let ghost h0 = db.history();
    if let Err(message) = run_change(db, build_update_shortcut_pin(flag, shortcut_id), shortcut_not_found(shortcut_id)) {
        return Err(message);
    }
    let ghost h1 = db.history();
    let r = fetch_shortcut_by_id(db, shortcut_id);
    proof {
        lemma_sent_concat(h0, h1, db.history());
    }
    r
}

/// Deletes a shortcut.
pub fn delete_shortcut(db: &mut Database, shortcut_id: i64) -> (r: Result<(), String>)
    ensures
        changed_one(old(db).history(), final(db).history(), delete_shortcut_statement(shortcut_id), r, shortcut_missing_message(shortcut_id)),
{
    run_change(db, build_with_id(DELETE_SHORTCUT_SQL, shortcut_id), shortcut_not_found(shortcut_id))
}

/// Every application a listing gives is its row as SQLite returned it, in
/// the same place: id, name, description and shortcut count are the values
/// read from the first four columns of that row.
pub proof fn lemma_listed_apps_are_rows_read(rows: Seq<Option<Seq<ColumnRead>>>, r: Result<Vec<AppItem>, String>)
    requires
        listing_reported(Answer::Rows(rows), r),
        r is Ok,
    ensures
        r->Ok_0@.len() == rows.len(),
        forall|i: int|
            0 <= i < rows.len() ==> #[trigger] rows[i] == Some(
                seq![
                    ColumnRead::Integer(0, r->Ok_0@[i].id),
                    ColumnRead::Text(1, r->Ok_0@[i].name@),
                    ColumnRead::OptionalText(2, opt_view(r->Ok_0@[i].description)),
                    ColumnRead::Integer(3, r->Ok_0@[i].shortcut_count),
                ],
            ),
{
    assert forall|i: int| 0 <= i < rows.len() implies #[trigger] rows[i] == Some(
        seq![
            ColumnRead::Integer(0, r->Ok_0@[i].id),
            ColumnRead::Text(1, r->Ok_0@[i].name@),
            ColumnRead::OptionalText(2, opt_view(r->Ok_0@[i].description)),
            ColumnRead::Integer(3, r->Ok_0@[i].shortcut_count),
        ],
    ) by {
        assert(r->Ok_0@[i].read_from(rows[i]->0));
    }
}

/// The reads of a shortcut row give `item`: id, application id, title,
/// combination and notes read from the first five columns, and the item is
/// pinned exactly when the integer read from the sixth is not zero.
pub open spec fn shortcut_row_read_as(reads: Seq<ColumnRead>, item: ShortcutItem) -> bool {
    &&& reads.len() == 6
    &&& reads[0] == ColumnRead::Integer(0, item.id)
    &&& reads[1] == ColumnRead::Integer(1, item.app_id)
    &&& reads[2] == ColumnRead::Text(2, item.title@)
    &&& reads[3] == ColumnRead::Text(3, item.combo@)
    &&& reads[4] == ColumnRead::OptionalText(4, opt_view(item.notes))
    &&& reads[5] is Integer
    &&& forall|flag: i64| reads[5] == ColumnRead::Integer(5, flag) ==> item.is_pinned == (flag != 0)
}

/// Every shortcut a listing gives is its row as SQLite returned it, in the
/// same place; in particular it is pinned exactly when the flag read from
/// the row is not zero.
pub proof fn lemma_listed_shortcuts_are_rows_read(rows: Seq<Option<Seq<ColumnRead>>>, r: Result<Vec<ShortcutItem>, String>)
    requires
        listing_reported(Answer::Rows(rows), r),
        r is Ok,
    ensures
        r->Ok_0@.len() == rows.len(),
        forall|i: int| 0 <= i < rows.len() ==> #[trigger] rows[i] is Some && shortcut_row_read_as(rows[i]->0, r->Ok_0@[i]),
{
    assert forall|i: int| 0 <= i < rows.len() implies #[trigger] rows[i] is Some && shortcut_row_read_as(rows[i]->0, r->Ok_0@[i]) by {
        assert(r->Ok_0@[i].read_from(rows[i]->0));
    }
}

/// A shortcut found by a lookup is the row SQLite returned for it, as read.
pub proof fn lemma_looked_up_shortcut_is_row_read(answer: Answer, r: Result<ShortcutItem, String>, missing: Seq<char>)
    requires
        lookup_reported(answer, r, missing),
        r is Ok,
    ensures
        answer matches Answer::Row(Some(reads)) && shortcut_row_read_as(reads, r->Ok_0),
{
}

/// An application found by a lookup is the row SQLite returned for it, as
/// read: id, name, description and shortcut count from its first four
/// columns.
pub proof fn lemma_looked_up_app_is_row_read(answer: Answer, r: Result<AppItem, String>, missing: Seq<char>)
    requires
        lookup_reported(answer, r, missing),
        r is Ok,
    ensures
        answer == Answer::Row(
            Some(
                seq![
                    ColumnRead::Integer(0, r->Ok_0.id),
                    ColumnRead::Text(1, r->Ok_0.name@),
                    ColumnRead::OptionalText(2, opt_view(r->Ok_0.description)),
                    ColumnRead::Integer(3, r->Ok_0.shortcut_count),
                ],
            ),
        ),
{
}

/// The shortcut a successful change gives back is the shortcut's row as
/// read by the lookup sent after the change: title, combination and notes
/// are what that row holds, as read.
pub proof fn lemma_changed_shortcut_is_row_read_back(
    before: Seq<Exchange>,
    after: Seq<Exchange>,
    change: StatementView,
    shortcut_id: i64,
    r: Result<ShortcutItem, String>,
)
    requires
        changed_then_looked_up(
            before,
            after,
            change,
            fetch_shortcut_statement(shortcut_id),
            r,
            shortcut_missing_message(shortcut_id),
        ),
        r is Ok,
    ensures
        added(before, after).len() == 2,
        added(before, after)[0].statement == change,
        added(before, after)[1].statement == fetch_shortcut_statement(shortcut_id),
        added(before, after)[1].answer matches Answer::Row(Some(reads)) && shortcut_row_read_as(reads, r->Ok_0),
{
    lemma_looked_up_shortcut_is_row_read(added(before, after)[1].answer, r, shortcut_missing_message(shortcut_id));
}

/// The tables of the catalogue and of the settings, with the default
/// settings; every statement keeps what already exists.
pub const SCHEMA_SQL: &'static str = "
    PRAGMA foreign_keys = ON;

    CREATE TABLE IF NOT EXISTS app_meta (
      key TEXT PRIMARY KEY,
      value TEXT NOT NULL
    );

    INSERT OR IGNORE INTO app_meta (key, value) VALUES ('schema_version', '1');

    CREATE TABLE IF NOT EXISTS app_settings (
      key TEXT PRIMARY KEY,
      value TEXT NOT NULL
    );

    INSERT OR IGNORE INTO app_settings (key, value)
    VALUES ('toggle_shortcut', 'CmdOrCtrl+Shift+I');

    INSERT OR IGNORE INTO app_settings (key, value)
    VALUES ('window_position_mode', 'top_center');

    CREATE TABLE IF NOT EXISTS apps (
      id INTEGER PRIMARY KEY AUTOINCREMENT,
      name TEXT NOT NULL UNIQUE,
      description TEXT,
      created_at TEXT NOT NULL DEFAULT CURRENT_TIMESTAMP,
      updated_at TEXT NOT NULL DEFAULT CURRENT_TIMESTAMP
    );

    CREATE TABLE IF NOT EXISTS shortcuts (
      id INTEGER PRIMARY KEY AUTOINCREMENT,
      app_id INTEGER NOT NULL,
      title TEXT NOT NULL,
      combo TEXT NOT NULL,
      notes TEXT,
      is_pinned INTEGER NOT NULL DEFAULT 0,
      created_at TEXT NOT NULL DEFAULT CURRENT_TIMESTAMP,
      updated_at TEXT NOT NULL DEFAULT CURRENT_TIMESTAMP,
      UNIQUE(app_id, combo),
      FOREIGN KEY(app_id) REFERENCES apps(id) ON DELETE CASCADE
    );
";

/// What scanning the column names of a table for `name` gives: the first
/// entry that is a read failure or a match (ignoring ASCII case) decides;
/// with neither, the column is missing.
pub open spec fn column_scan(columns: Seq<Result<String, rusqlite::Error>>, name: Seq<char>) -> Result<bool, rusqlite::Error>
    decreases columns.len(),
{
    if columns.len() == 0 {
        Ok(false)
    } else {
        match columns[0] {
            Err(e) => Err(e),
            Ok(column) => if eq_ignore_ascii_case_spec(column@, name) {
                Ok(true)
            } else {
                column_scan(columns.drop_first(), name)
            },
        }
    }
}

/// What scanning column names, as read, for `name` gives: the first entry
/// that failed to read (`None`) or that matches `name` ignoring ASCII case
/// decides; `Some(false)` when neither occurs.
pub open spec fn column_scan_views(columns: Seq<Option<Seq<char>>>, name: Seq<char>) -> Option<bool>
    decreases columns.len(),
{
    if columns.len() == 0 {
        Some(false)
    } else {
        match columns[0] {
            None => None,
            Some(column) => if eq_ignore_ascii_case_spec(column, name) {
                Some(true)
            } else {
                column_scan_views(columns.drop_first(), name)
            },
        }
    }
}

proof fn lemma_column_scan_views(columns: Seq<Result<String, rusqlite::Error>>, name: Seq<char>)
    ensures
        match column_scan(columns, name) {
            Ok(found) => column_scan_views(text_views(columns), name) == Some(found),
            Err(_) => column_scan_views(text_views(columns), name) is None,
        },
    decreases columns.len(),
{
    if columns.len() > 0 {
        lemma_column_scan_views(columns.drop_first(), name);
        assert(text_views(columns).drop_first() =~= text_views(columns.drop_first()));
    }
}

/// Scans column names, as read from the database, for `name`.
pub fn has_column(columns: Vec<Result<String, rusqlite::Error>>, name: &str) -> (r: Result<bool, rusqlite::Error>)
    ensures
        r == column_scan(columns@, name@),
        match r {
            Ok(found) => column_scan_views(text_views(columns@), name@) == Some(found),
            Err(_) => column_scan_views(text_views(columns@), name@) is None,
        },
{
    proof {
        lemma_column_scan_views(columns@, name@);
    }
    let mut rest = columns;
    while rest.len() > 0
        invariant
            column_scan(rest@, name@) == column_scan(columns@, name@),
            match column_scan(columns@, name@) {
                Ok(found) => column_scan_views(text_views(columns@), name@) == Some(found),
                Err(_) => column_scan_views(text_views(columns@), name@) is None,
            },
        decreases rest.len(),
    {
        let ghost before = rest@;
        let first = rest.remove(0);
        assert(rest@ == before.drop_first());
        match first {
            Err(e) => {
                return Err(e);
            },
            Ok(column) => {
                if text_eq_ignore_ascii_case(column.as_str(), name) {
                    return Ok(true);
                }
            },
        }
    }
    Ok(false)
}

/// Lists the columns of the shortcuts table; the name is the second column.
pub const TABLE_INFO_SQL: &'static str = "PRAGMA table_info(shortcuts)";

/// Adds the pinned flag to the shortcuts table.
pub const ADD_PINNED_COLUMN_SQL: &'static str = "ALTER TABLE shortcuts ADD COLUMN is_pinned INTEGER NOT NULL DEFAULT 0";

/// The name of the pinned flag column.
pub const PINNED_COLUMN: &'static str = "is_pinned";

/// The listing of the shortcuts table's columns.
pub open spec fn table_info_statement() -> StatementView {
    statement(TABLE_INFO_SQL@, Seq::empty())
}

/// The addition of the pinned flag column.
pub open spec fn add_pinned_column_statement() -> StatementView {
    statement(ADD_PINNED_COLUMN_SQL@, Seq::empty())
}

/// The batch that creates the schema.
pub open spec fn schema_statement() -> StatementView {
    statement(SCHEMA_SQL@, Seq::empty())
}

/// The statement that brings the shortcuts table up to date, given what
/// scanning its column names for the pinned flag found: the addition of the
/// column when it is missing, nothing when it is there.
pub open spec fn pinned_column_migration(found: bool) -> Option<StatementView> {
    if found {
        None
    } else {
        Some(add_pinned_column_statement())
    }
}

/// From `before` to `after`, the columns of the shortcuts table were listed
/// and scanned for the pinned flag; the column was added exactly when the
/// scan found it missing. `ok` tells whether all of it succeeded.
pub open spec fn pinned_column_ensured(before: Seq<Exchange>, after: Seq<Exchange>, ok: bool) -> bool {
    let sent = added(before, after);
    &&& extends(before, after)
    &&& sent.len() >= 1
    &&& sent[0].statement == table_info_statement()
    &&& match sent[0].answer {
        Answer::Texts(columns) => match column_scan_views(columns, PINNED_COLUMN@) {
            Some(found) => match pinned_column_migration(found) {
                None => sent.len() == 1 && ok,
                Some(migration) => sent.len() == 2 && sent[1].statement == migration && (ok
                    <==> sent[1].answer is Changed),
            },
            None => sent.len() == 1 && !ok,
        },
        _ => sent.len() == 1 && !ok,
    }
}

/// From `before` to `after`, the schema batch was run and, when it
/// succeeded, the pinned flag column was ensured. `ok` tells whether all of
/// it succeeded.
pub open spec fn schema_initialized(before: Seq<Exchange>, after: Seq<Exchange>, ok: bool) -> bool {
    let sent = added(before, after);
    &&& extends(before, after)
    &&& sent.len() >= 1
    &&& sent[0].statement == schema_statement()
    &&& if sent[0].answer is Done {
        pinned_column_ensured(before.push(sent[0]), after, ok)
    } else {
        sent.len() == 1 && !ok
    }
}

/// Adds the pinned flag to a shortcuts table created before the flag
/// existed.
pub fn ensure_shortcuts_is_pinned_column(db: &mut Database) -> (r: Result<(), DatabaseError>)
    ensures
        pinned_column_ensured(old(db).history(), final(db).history(), r is Ok),
{
    let ghost h0 = db.history();
    let query = build_plain(TABLE_INFO_SQL);
    let ghost qv = query@;
    let listing = db.query_second_texts(query);
    let ghost h1 = db.history();
    proof {
        lemma_sent_push(h0, Exchange { statement: qv, answer: texts_answer(listing) });
    }
    let columns = match listing {
        Err(e) => {
            return Err(database_error_of(e));
        },
        Ok(columns) => columns,
    };
    let has_is_pinned = match has_column(columns, PINNED_COLUMN) {
        Err(e) => {
            return Err(database_error_of(e));
        },
        Ok(found) => found,
    };
    if !has_is_pinned {
        let migration = build_plain(ADD_PINNED_COLUMN_SQL);
        let ghost mv = migration@;
        let outcome = db.run(migration);
        proof {
            lemma_sent_push(h1, Exchange { statement: mv, answer: change_answer(outcome) });
            lemma_sent_concat(h0, h1, db.history());
        }
        if let Err(e) = outcome {
            return Err(database_error_of(e));
        }
    }
    Ok(())
}

/// Creates the tables and default settings that are missing, then brings the
/// shortcuts table up to date.
pub fn initialize_schema(db: &mut Database) -> (r: Result<(), DatabaseError>)
    ensures
        schema_initialized(old(db).history(), final(db).history(), r is Ok),
{
    let ghost h0 = db.history();
    let batch = db.run_batch(SCHEMA_SQL);
    let ghost h1 = db.history();
    proof {
        lemma_sent_push(h0, h1.last());
        assert(h1 == h0.push(h1.last()));
    }
    match batch {
        Err(e) => Err(database_error_of(e)),
        Ok(()) => {
            let r = ensure_shortcuts_is_pinned_column(db);
            proof {
                lemma_sent_concat(h0, h1, db.history());
                assert(h0.push(added(h0, db.history())[0]) == h1);
            }
            r
        },
    }
}

} // verus!
