//! The SQLite database, reached through rusqlite: the calls this library
//! makes, the values it binds and reads, and how failures are reported.

use vstd::prelude::*;
use rusqlite::OptionalExtension;
use crate::store::{AppRecord, ShortcutRecord};
use crate::text::{contains_text, lowercase, opt_view, text_contains, to_lowercase};

verus! {

#[verifier::external_type_specification]
#[verifier::external_body]
pub struct ExConnection(rusqlite::Connection);

#[verifier::external_type_specification]
#[verifier::external_body]
pub struct ExError(rusqlite::Error);

#[verifier::external_type_specification]
#[verifier::external_body]
pub struct ExRow<'stmt>(rusqlite::Row<'stmt>);

#[verifier::external_type_specification]
#[verifier::external_body]
pub struct ExValue(rusqlite::types::Value);

/// A value bound to a `?N` parameter of a statement.
pub enum SqlParam {
    Integer(i64),
    Text(String),
    Null,
}

/// A bound value as the contracts see it.
pub enum ParamView {
    Integer(i64),
    Text(Seq<char>),
    Null,
}

impl View for SqlParam {
    type V = ParamView;

    open spec fn view(&self) -> ParamView {
        match self {
            SqlParam::Integer(i) => ParamView::Integer(*i),
            SqlParam::Text(t) => ParamView::Text(t@),
            SqlParam::Null => ParamView::Null,
        }
    }
}

/// A statement: its SQL text and the values bound to `?1`, `?2`, ... in order.
pub struct SqlStatement {
    pub sql: &'static str,
    pub params: Vec<SqlParam>,
}

/// A statement as the contracts see it.
pub struct StatementView {
    pub sql: Seq<char>,
    pub params: Seq<ParamView>,
}

impl View for SqlStatement {
    type V = StatementView;

    open spec fn view(&self) -> StatementView {
        StatementView { sql: self.sql@, params: self.params@.map_values(|p: SqlParam| p@) }
    }
}

/// What SQLite answered to a statement, as far as this library reads it.
pub enum Answer {
    /// The statement failed.
    Failed,
    /// A statement that changes rows ran and changed this many.
    Changed(nat),
    /// A batch of statements ran.
    Done,
    /// A query for at most one row ran; the reads made of the row it
    /// returned, or `None` when there was none.
    Row(Option<Seq<ColumnRead>>),
    /// A query for one text value ran; the value, or `None` when there was no row.
    Text(Option<Seq<char>>),
    /// A query for many rows ran; per row, the reads made of it, or `None`
    /// where reading it failed.
    Rows(Seq<Option<Seq<ColumnRead>>>),
    /// A query for one text column of many rows ran; per row, the text, or
    /// `None` where reading the row failed.
    Texts(Seq<Option<Seq<char>>>),
    /// The row id SQLite gave to the latest inserted row.
    RowId(i64),
}

/// A row read from the database, as the contracts see it.
pub enum RowView {
    /// A single integer column.
    Id(i64),
    /// An application row.
    App(AppRecord),
    /// A shortcut row.
    Shortcut(ShortcutRecord),
    /// A single text column.
    Text(Seq<char>),
}

/// A value read from a row, which the record of answers can hold.
pub trait Recorded {
    /// The row as the contracts see it.
    spec fn record(&self) -> RowView;

    /// `reads`, the columns read from a row in order, give this value.
    spec fn read_from(&self, reads: Seq<ColumnRead>) -> bool;
}

impl Recorded for i64 {
    open spec fn record(&self) -> RowView {
        RowView::Id(*self)
    }

    /// The integer in the first column.
    open spec fn read_from(&self, reads: Seq<ColumnRead>) -> bool {
        reads == seq![ColumnRead::Integer(0, *self)]
    }
}

impl Recorded for String {
    open spec fn record(&self) -> RowView {
        RowView::Text(self@)
    }

    /// The text in the first column.
    open spec fn read_from(&self, reads: Seq<ColumnRead>) -> bool {
        reads == seq![ColumnRead::Text(0, self@)]
    }
}

/// The name of a column, as `PRAGMA table_info` lists it in its second column.
pub struct ColumnName {
    pub text: String,
}

impl Recorded for ColumnName {
    open spec fn record(&self) -> RowView {
        RowView::Text(self.text@)
    }

    /// The text in the second column.
    open spec fn read_from(&self, reads: Seq<ColumnRead>) -> bool {
        reads == seq![ColumnRead::Text(1, self.text@)]
    }
}

/// A value mapped from a row, together with the reads of that row it was
/// built from; the value is always what those reads give.
pub struct Read<T: Recorded> {
    item: T,
    reads: Ghost<Seq<ColumnRead>>,
}

impl<T: Recorded> Read<T> {
    #[verifier::type_invariant]
    spec fn built_from_reads(self) -> bool {
        self.item.read_from(self.reads@)
    }

    /// The value.
    pub closed spec fn item(&self) -> T {
        self.item
    }

    /// The reads of the row the value was built from.
    pub closed spec fn reads(&self) -> Seq<ColumnRead> {
        self.reads@
    }

    /// Pairs a value with the reads of the row it was built from; the
    /// reads must give the value.
    pub fn new(item: T, reader: RowReader<'_, '_>) -> (r: Self)
        requires
            item.read_from(reader.reads()),
        ensures
            r.item() == item,
            r.reads() == reader.reads(),
    {
        Read { item, reads: Ghost(reader.reads()) }
    }

    /// The value, which the reads give.
    pub fn into_item(self) -> (r: T)
        ensures
            r == self.item(),
            r.read_from(self.reads()),
    {
        proof {
            use_type_invariant(&self);
        }
        self.item
    }
}

/// The request for the row id of the latest insert. It is no SQL statement:
/// it stands in the history with empty text and no parameters.
pub open spec fn row_id_request() -> StatementView {
    StatementView { sql: Seq::empty(), params: Seq::empty() }
}

/// One statement handed to SQLite, with its answer.
pub struct Exchange {
    pub statement: StatementView,
    pub answer: Answer,
}

/// An open SQLite database, together with the record of every statement
/// this library handed to it through this value, in order, with the answers.
pub struct Database {
    conn: rusqlite::Connection,
    exchanges: Ghost<Seq<Exchange>>,
}

/// The per-row texts of a column as read: the text, or `None` for a failed read.
pub open spec fn text_views(rows: Seq<Result<String, rusqlite::Error>>) -> Seq<Option<Seq<char>>> {
    rows.map_values(|row: Result<String, rusqlite::Error>| match row {
        Ok(t) => Some(t@),
        Err(_) => None,
    })
}

/// `after` continues the history `before`.
pub open spec fn extends(before: Seq<Exchange>, after: Seq<Exchange>) -> bool {
    before.len() <= after.len() && after.subrange(0, before.len() as int) == before
}

/// What `after` adds to the history `before`.
pub open spec fn added(before: Seq<Exchange>, after: Seq<Exchange>) -> Seq<Exchange> {
    after.subrange(before.len() as int, after.len() as int)
}

/// A history continues itself, adding nothing.
pub proof fn lemma_sent_none(before: Seq<Exchange>)
    ensures
        extends(before, before),
        added(before, before) == Seq::<Exchange>::empty(),
{
    assert(before.subrange(0, before.len() as int) =~= before);
    assert(added(before, before) =~= Seq::<Exchange>::empty());
}

/// Continuing a history twice continues it by both additions in turn.
pub proof fn lemma_sent_concat(a: Seq<Exchange>, b: Seq<Exchange>, c: Seq<Exchange>)
    requires
        extends(a, b),
        extends(b, c),
    ensures
        extends(a, c),
        added(a, c) == added(a, b) + added(b, c),
{
    assert(c.subrange(0, a.len() as int) =~= b.subrange(0, a.len() as int));
    assert(added(a, c) =~= added(a, b) + added(b, c));
}

/// Adding one exchange continues a history by that exchange.
pub proof fn lemma_sent_push(before: Seq<Exchange>, e: Exchange)
    ensures
        extends(before, before.push(e)),
        added(before, before.push(e)) == seq![e],
{
    assert(before.push(e).subrange(0, before.len() as int) =~= before);
    assert(added(before, before.push(e)) =~= seq![e]);
}

/// An error that reports a failed database call.
pub open spec fn failed_in_database<T>(r: Result<T, String>) -> bool {
    r is Err && is_db_error_message(r->Err_0@)
}

/// An error with exactly the message `message`.
pub open spec fn failed_with<T>(r: Result<T, String>, message: Seq<char>) -> bool {
    r is Err && r->Err_0@ == message
}

/// How a lookup of one record is reported for SQLite's answer: the row read
/// when there was one, `missing` when there was none, a database message
/// when the query failed.
pub open spec fn lookup_reported<T: Recorded>(answer: Answer, r: Result<T, String>, missing: Seq<char>) -> bool {
    match answer {
        Answer::Row(Some(reads)) => r is Ok && r->Ok_0.read_from(reads),
        Answer::Row(None) => failed_with(r, missing),
        _ => failed_in_database(r),
    }
}

/// How a listing is reported for SQLite's answer: every row read, in the
/// order SQLite returned them, when all could be read; a database message
/// when one could not or the query failed.
pub open spec fn listing_reported<T: Recorded>(answer: Answer, r: Result<Vec<T>, String>) -> bool {
    match answer {
        Answer::Rows(rows) => if forall|i: int| 0 <= i < rows.len() ==> #[trigger] rows[i] is Some {
            &&& r is Ok
            &&& r->Ok_0@.len() == rows.len()
            &&& forall|i: int| 0 <= i < rows.len() ==> (#[trigger] r->Ok_0@[i]).read_from(rows[i]->0)
        } else {
            failed_in_database(r)
        },
        _ => failed_in_database(r),
    }
}

/// A parameter holding a text, or `NULL` for none.
pub open spec fn optional_text_view(text: Option<Seq<char>>) -> ParamView {
    match text {
        Some(t) => ParamView::Text(t),
        None => ParamView::Null,
    }
}

/// The answer SQLite gives to a statement that changes rows.
pub open spec fn change_answer(outcome: Result<usize, rusqlite::Error>) -> Answer {
    match outcome {
        Ok(n) => Answer::Changed(n as nat),
        Err(_) => Answer::Failed,
    }
}

/// The answer to a query for at most one row: the reads of the row found.
pub open spec fn found_answer<T: Recorded>(r: Result<Option<Read<T>>, rusqlite::Error>) -> Answer {
    match r {
        Ok(Some(row)) => Answer::Row(Some(row.reads())),
        Ok(None) => Answer::Row(None),
        Err(_) => Answer::Failed,
    }
}

/// A row as read: its reads, or `None` where reading it failed.
pub open spec fn row_read<T: Recorded>(row: Result<Read<T>, rusqlite::Error>) -> Option<Seq<ColumnRead>> {
    match row {
        Ok(v) => Some(v.reads()),
        Err(_) => None,
    }
}

/// `row`, a row's value or the failure to read it, is what `read` records
/// of that row: a value the reads give, or `None` for the failure.
pub open spec fn item_read<T: Recorded>(row: Result<T, rusqlite::Error>, read: Option<Seq<ColumnRead>>) -> bool {
    match row {
        Ok(v) => read matches Some(reads) && v.read_from(reads),
        Err(_) => read is None,
    }
}

/// `r`, the outcome of a query for at most one row, is what `answer`
/// records: the value the recorded reads give, no row, or a failure.
pub open spec fn row_found<T: Recorded>(answer: Answer, r: Result<Option<T>, rusqlite::Error>) -> bool {
    match r {
        Ok(Some(v)) => answer matches Answer::Row(Some(reads)) && v.read_from(reads),
        Ok(None) => answer == Answer::Row(None),
        Err(_) => answer == Answer::Failed,
    }
}

/// `r`, the outcome of a query for many rows, is what `answer` records:
/// per row, in order, the value the recorded reads give or the failure.
pub open spec fn rows_found<T: Recorded>(answer: Answer, r: Result<Vec<Result<T, rusqlite::Error>>, rusqlite::Error>) -> bool {
    match r {
        Ok(rows) => answer matches Answer::Rows(reads) && reads.len() == rows@.len() && forall|i: int|
            0 <= i < reads.len() ==> #[trigger] item_read(rows@[i], reads[i]),
        Err(_) => answer == Answer::Failed,
    }
}

/// The text a read of one text column gave.
pub open spec fn read_text(reads: Seq<ColumnRead>) -> Seq<char> {
    reads[0]->Text_1
}

/// The answer to a query for one text value, as read from the row found.
pub open spec fn found_text_answer<T: Recorded>(r: Result<Option<Read<T>>, rusqlite::Error>) -> Answer {
    match r {
        Ok(Some(row)) => Answer::Text(Some(read_text(row.reads()))),
        Ok(None) => Answer::Text(None),
        Err(_) => Answer::Failed,
    }
}

/// The texts read from many rows, in order, `None` where reading a row failed.
pub open spec fn read_texts<T: Recorded>(rows: Seq<Result<Read<T>, rusqlite::Error>>) -> Seq<Option<Seq<char>>> {
    rows.map_values(|row: Result<Read<T>, rusqlite::Error>| match row {
        Ok(read) => Some(read_text(read.reads())),
        Err(_) => None,
    })
}

/// The answer to a query for one text column of many rows, as read from them.
pub open spec fn found_texts_answer<T: Recorded>(r: Result<Vec<Result<Read<T>, rusqlite::Error>>, rusqlite::Error>) -> Answer {
    match r {
        Ok(rows) => Answer::Texts(read_texts(rows@)),
        Err(_) => Answer::Failed,
    }
}

/// The answer to a query for one text value.
pub open spec fn text_answer(r: Result<Option<String>, rusqlite::Error>) -> Answer {
    match r {
        Ok(Some(t)) => Answer::Text(Some(t@)),
        Ok(None) => Answer::Text(None),
        Err(_) => Answer::Failed,
    }
}

/// The answer to a query for many rows.
pub open spec fn rows_answer<T: Recorded>(r: Result<Vec<Result<Read<T>, rusqlite::Error>>, rusqlite::Error>) -> Answer {
    match r {
        Ok(rows) => Answer::Rows(rows@.map_values(|row: Result<Read<T>, rusqlite::Error>| row_read(row))),
        Err(_) => Answer::Failed,
    }
}

/// The answer to a query for one text column of many rows.
pub open spec fn texts_answer(r: Result<Vec<Result<String, rusqlite::Error>>, rusqlite::Error>) -> Answer {
    match r {
        Ok(rows) => Answer::Texts(text_views(rows@)),
        Err(_) => Answer::Failed,
    }
}

impl Database {
    /// The statements handed to SQLite through this value, with their answers.
    pub closed spec fn history(&self) -> Seq<Exchange> {
        self.exchanges@
    }

    /// Starts using an open connection, with nothing sent yet.
    pub fn new(conn: rusqlite::Connection) -> (r: Database)
        ensures
            r.history() == Seq::<Exchange>::empty(),
    {
        Database { conn, exchanges: Ghost(Seq::empty()) }
    }

    /// The underlying connection. Statements run on it directly are not
    /// part of the history.
    pub fn connection(&self) -> (r: &rusqlite::Connection) {
        &self.conn
    }

    /// Runs a statement that changes rows.
    pub fn run(&mut self, statement: SqlStatement) -> (r: Result<usize, rusqlite::Error>)
        ensures
            final(self).history() == old(self).history().push(
                Exchange { statement: statement@, answer: change_answer(r) },
            ),
    {
        let r = execute(&self.conn, statement.sql, statement.params.as_slice());
        proof {
            self.exchanges@ = self.exchanges@.push(Exchange { statement: statement@, answer: change_answer(r) });
        }
        r
    }

    /// Runs a batch of statements without parameters.
    pub fn run_batch(&mut self, sql: &'static str) -> (r: Result<(), rusqlite::Error>)
        ensures
            final(self).history() == old(self).history().push(
                Exchange {
                    statement: StatementView { sql: sql@, params: Seq::empty() },
                    answer: if r is Ok { Answer::Done } else { Answer::Failed },
                },
            ),
    {
        let r = execute_batch(&self.conn, sql);
        proof {
            self.exchanges@ = self.exchanges@.push(
                Exchange {
                    statement: StatementView { sql: sql@, params: Seq::empty() },
                    answer: if r is Ok { Answer::Done } else { Answer::Failed },
                },
            );
        }
        r
    }

    /// The row id given to the latest inserted row.
    pub fn last_insert_rowid(&mut self) -> (r: i64)
        ensures
            final(self).history() == old(self).history().push(
                Exchange { statement: row_id_request(), answer: Answer::RowId(r) },
            ),
    {
        let r = last_insert_rowid(&self.conn);
        proof {
            self.exchanges@ = self.exchanges@.push(Exchange { statement: row_id_request(), answer: Answer::RowId(r) });
        }
        r
    }

    /// Runs a query for at most one row, mapping the row with `f`.
    pub fn query_row<T: Recorded, F>(&mut self, statement: SqlStatement, f: F) -> (r: Result<Option<T>, rusqlite::Error>)
        where F: FnOnce(&rusqlite::Row<'_>) -> Result<Read<T>, rusqlite::Error>
        ensures
            final(self).history() == old(self).history().push(final(self).history().last()),
            final(self).history().last().statement == statement@,
            row_found(final(self).history().last().answer, r),
    {
        let found = query_optional(&self.conn, statement.sql, statement.params.as_slice(), f);
        proof {
            self.exchanges@ = self.exchanges@.push(
                Exchange {
                    statement: statement@,
                    answer: found_answer(found),
                },
            );
        }
        match found {
            Ok(Some(read)) => Ok(Some(read.into_item())),
            Ok(None) => Ok(None),
            Err(e) => Err(e),
        }
    }

    /// Runs a query for one text value in the first column of at most one row.
    pub fn query_text(&mut self, statement: SqlStatement) -> (r: Result<Option<String>, rusqlite::Error>)
        ensures
            final(self).history() == old(self).history().push(
                Exchange {
                    statement: statement@,
                    answer: text_answer(r),
                },
            ),
    {
        let found = query_optional(&self.conn, statement.sql, statement.params.as_slice(), first_text_column);
        proof {
            self.exchanges@ = self.exchanges@.push(
                Exchange {
                    statement: statement@,
                    answer: found_text_answer(found),
                },
            );
        }
        match found {
            Ok(Some(read)) => Ok(Some(read.into_item())),
            Ok(None) => Ok(None),
            Err(e) => Err(e),
        }
    }

    /// Runs a query for many rows, mapping each row with `f`.
    pub fn query_rows<T: Recorded, F>(&mut self, statement: SqlStatement, f: F) -> (r: Result<Vec<Result<T, rusqlite::Error>>, rusqlite::Error>)
        where F: FnMut(&rusqlite::Row<'_>) -> Result<Read<T>, rusqlite::Error>
        ensures
            final(self).history() == old(self).history().push(final(self).history().last()),
            final(self).history().last().statement == statement@,
            rows_found(final(self).history().last().answer, r),
    {
        let found = query_each(&self.conn, statement.sql, statement.params.as_slice(), f);
        proof {
            self.exchanges@ = self.exchanges@.push(
                Exchange {
                    statement: statement@,
                    answer: rows_answer(found),
                },
            );
        }
        match found {
            Ok(rows) => Ok(items_of_reads(rows)),
            Err(e) => Err(e),
        }
    }

    /// Runs a query for the second column, as text, of many rows.
    pub fn query_second_texts(&mut self, statement: SqlStatement) -> (r: Result<Vec<Result<String, rusqlite::Error>>, rusqlite::Error>)
        ensures
            final(self).history() == old(self).history().push(
                Exchange {
                    statement: statement@,
                    answer: texts_answer(r),
                },
            ),
    {
        let found = query_each(&self.conn, statement.sql, statement.params.as_slice(), second_text_column);
        proof {
            self.exchanges@ = self.exchanges@.push(
                Exchange {
                    statement: statement@,
                    answer: found_texts_answer(found),
                },
            );
        }
        match found {
            Ok(rows) => {
                let ghost all = rows@;
                let items = items_of_reads(rows);
                let ghost iv = items@;
                let names = names_of(items);
                assert(text_views(names@) =~= read_texts(all)) by {
                    assert forall|i: int| 0 <= i < all.len() implies text_views(names@)[i] == read_texts(all)[i] by {
                        assert(item_read(iv[i], row_read(all[i])));
                    }
                }
                Ok(names)
            },
            Err(e) => Err(e),
        }
    }
}

/// One read of a column of a row: the column's index and the value read,
/// or `Failed` when reading it failed.
pub enum ColumnRead {
    Integer(usize, i64),
    Text(usize, Seq<char>),
    OptionalText(usize, Option<Seq<char>>),
    Failed(usize),
}

/// The column a read was made from.
pub open spec fn read_column(read: ColumnRead) -> usize {
    match read {
        ColumnRead::Integer(idx, _) => idx,
        ColumnRead::Text(idx, _) => idx,
        ColumnRead::OptionalText(idx, _) => idx,
        ColumnRead::Failed(idx) => idx,
    }
}

/// `reads` read the columns 0, 1, ... in turn and stopped at the first
/// column that could not be read.
pub open spec fn stopped_at_failure(reads: Seq<ColumnRead>) -> bool {
    &&& reads.len() >= 1
    &&& reads.last() == ColumnRead::Failed((reads.len() - 1) as usize)
    &&& forall|i: int| 0 <= i < reads.len() - 1 ==> read_column(#[trigger] reads[i]) == i && !(reads[i] is Failed)
}

/// The read of column `idx` as an integer, for what reading it gave.
pub open spec fn integer_read(idx: usize, r: Result<i64, rusqlite::Error>) -> ColumnRead {
    match r {
        Ok(v) => ColumnRead::Integer(idx, v),
        Err(_) => ColumnRead::Failed(idx),
    }
}

/// The read of column `idx` as text, for what reading it gave.
pub open spec fn text_read(idx: usize, r: Result<String, rusqlite::Error>) -> ColumnRead {
    match r {
        Ok(v) => ColumnRead::Text(idx, v@),
        Err(_) => ColumnRead::Failed(idx),
    }
}

/// The read of column `idx` as text that may be `NULL`, for what reading it gave.
pub open spec fn optional_text_read(idx: usize, r: Result<Option<String>, rusqlite::Error>) -> ColumnRead {
    match r {
        Ok(v) => ColumnRead::OptionalText(idx, opt_view(v)),
        Err(_) => ColumnRead::Failed(idx),
    }
}

/// `after` continues the reads `before`.
pub open spec fn reads_continue(before: Seq<ColumnRead>, after: Seq<ColumnRead>) -> bool {
    before.len() <= after.len() && after.subrange(0, before.len() as int) == before
}

/// The reads `after` adds to `before`.
pub open spec fn reads_added(before: Seq<ColumnRead>, after: Seq<ColumnRead>) -> Seq<ColumnRead> {
    after.subrange(before.len() as int, after.len() as int)
}

/// A row being read, with the record of every column read from it, in order.
pub struct RowReader<'a, 'stmt> {
    row: &'a rusqlite::Row<'stmt>,
    reads: Ghost<Seq<ColumnRead>>,
}

impl<'a, 'stmt> RowReader<'a, 'stmt> {
    /// The columns read so far, in order, with the values read.
    pub closed spec fn reads(&self) -> Seq<ColumnRead> {
        self.reads@
    }

    /// Starts reading a row, with nothing read yet.
    pub fn new(row: &'a rusqlite::Row<'stmt>) -> (r: Self)
        ensures
            r.reads() == Seq::<ColumnRead>::empty(),
    {
        RowReader { row, reads: Ghost(Seq::empty()) }
    }

    /// Reads column `idx` as an integer.
    pub fn integer(&mut self, idx: usize) -> (r: Result<i64, rusqlite::Error>)
        ensures
            final(self).reads() == old(self).reads().push(integer_read(idx, r)),
    {
        let r = row_i64(self.row, idx);
        proof {
            self.reads@ = self.reads@.push(integer_read(idx, r));
        }
        r
    }

    /// Reads column `idx` as text.
    pub fn text(&mut self, idx: usize) -> (r: Result<String, rusqlite::Error>)
        ensures
            final(self).reads() == old(self).reads().push(text_read(idx, r)),
    {
        let r = row_text(self.row, idx);
        proof {
            self.reads@ = self.reads@.push(text_read(idx, r));
        }
        r
    }

    /// Reads column `idx` as text that may be `NULL`.
    pub fn optional_text(&mut self, idx: usize) -> (r: Result<Option<String>, rusqlite::Error>)
        ensures
            final(self).reads() == old(self).reads().push(optional_text_read(idx, r)),
    {
        let r = row_opt_text(self.row, idx);
        proof {
            self.reads@ = self.reads@.push(optional_text_read(idx, r));
        }
        r
    }
}

/// Reads the first column of a row as text.
fn first_text_column(row: &rusqlite::Row<'_>) -> (r: Result<Read<String>, rusqlite::Error>) {
    let mut reader = RowReader::new(row);
    match reader.text(0) {
        Ok(text) => Ok(Read::new(text, reader)),
        Err(e) => Err(e),
    }
}

/// Reads the second column of a row as a column name.
fn second_text_column(row: &rusqlite::Row<'_>) -> (r: Result<Read<ColumnName>, rusqlite::Error>) {
    let mut reader = RowReader::new(row);
    match reader.text(1) {
        Ok(text) => Ok(Read::new(ColumnName { text }, reader)),
        Err(e) => Err(e),
    }
}

/// The values of read rows, in order, with each failure kept in its place.
fn items_of_reads<T: Recorded>(rows: Vec<Result<Read<T>, rusqlite::Error>>) -> (r: Vec<Result<T, rusqlite::Error>>)
    ensures
        r@.len() == rows@.len(),
        forall|i: int| 0 <= i < rows@.len() ==> #[trigger] item_read(r@[i], row_read(rows@[i])),
{
    let ghost all = rows@;
    let mut rest = rows;
    let mut out: Vec<Result<T, rusqlite::Error>> = Vec::new();
    while rest.len() > 0
        invariant
            out@.len() + rest@.len() == all.len(),
            rest@ == all.subrange(out@.len() as int, all.len() as int),
            forall|i: int| 0 <= i < out@.len() ==> #[trigger] item_read(out@[i], row_read(all[i])),
        decreases rest.len(),
    {
        let ghost k = out@.len();
        let first = rest.remove(0);
        assert(all[k as int] == first);
        match first {
            Ok(read) => out.push(Ok(read.into_item())),
            Err(e) => out.push(Err(e)),
        }
        assert(rest@ =~= all.subrange(out@.len() as int, all.len() as int));
    }
    out
}

/// The texts of read column names, in order, with each failure kept in its place.
fn names_of(rows: Vec<Result<ColumnName, rusqlite::Error>>) -> (r: Vec<Result<String, rusqlite::Error>>)
    ensures
        r@.len() == rows@.len(),
        forall|i: int| 0 <= i < rows@.len() ==> match (#[trigger] r@[i], rows@[i]) {
            (Ok(t), Ok(name)) => t == name.text,
            (Err(e), Err(f)) => e == f,
            _ => false,
        },
{
    let ghost all = rows@;
    let mut rest = rows;
    let mut out: Vec<Result<String, rusqlite::Error>> = Vec::new();
    while rest.len() > 0
        invariant
            out@.len() + rest@.len() == all.len(),
            rest@ == all.subrange(out@.len() as int, all.len() as int),
            forall|i: int| 0 <= i < out@.len() ==> match (#[trigger] out@[i], all[i]) {
                (Ok(t), Ok(name)) => t == name.text,
                (Err(e), Err(f)) => e == f,
                _ => false,
            },
        decreases rest.len(),
    {
        let ghost k = out@.len();
        let first = rest.remove(0);
        assert(all[k as int] == first);
        match first {
            Ok(name) => out.push(Ok(name.text)),
            Err(e) => out.push(Err(e)),
        }
        assert(rest@ =~= all.subrange(out@.len() as int, all.len() as int));
    }
    out
}

/// A failed database call, as much of it as the messages shown to the user
/// depend on.
#[derive(Debug)]
pub enum DatabaseError {
    /// SQLite reported the failure together with its own message.
    Sqlite(String),
    /// Any other failure, carried by its displayed text.
    Other(String),
}

/// The message shown for a rejected duplicate.
pub open spec fn duplicate_record_message() -> Seq<char> {
    "已存在重复记录，请更换名称或快捷键组合"@
}

/// The message shown when a referenced record does not exist.
pub open spec fn missing_relation_message() -> Seq<char> {
    "关联数据不存在或已被删除"@
}

/// The prefix of the message shown for any other database failure.
pub open spec fn generic_failure_prefix() -> Seq<char> {
    "数据库错误: "@
}

/// The message shown to the user for a failed database call.
pub open spec fn db_error_message(error: DatabaseError) -> Seq<char> {
    match error {
        DatabaseError::Sqlite(message) => {
            let lower = lowercase(message@);
            if contains_text(lower, "unique"@) {
                duplicate_record_message()
            } else if contains_text(lower, "foreign key"@) {
                missing_relation_message()
            } else {
                generic_failure_prefix() + message@
            }
        },
        DatabaseError::Other(text) => generic_failure_prefix() + text@,
    }
}

/// `message` has one of the forms `db_error_message` produces.
pub open spec fn is_db_error_message(message: Seq<char>) -> bool {
    exists|error: DatabaseError| db_error_message(error) == message
}

/// The message shown for a failed database call: constraint violations get
/// a specific explanation, anything else is reported with its own text.
pub fn map_db_error(error: DatabaseError) -> (r: String)
    ensures
        r@ == db_error_message(error),
{
    match error {
        DatabaseError::Sqlite(message) => {
            let lower = to_lowercase(message.as_str());
            if text_contains(lower.as_str(), "unique") {
                String::from_str("已存在重复记录，请更换名称或快捷键组合")
            } else if text_contains(lower.as_str(), "foreign key") {
                String::from_str("关联数据不存在或已被删除")
            } else {
                String::from_str("数据库错误: ").concat(message.as_str())
            }
        },
        DatabaseError::Other(text) => String::from_str("数据库错误: ").concat(text.as_str()),
    }
}

/// Keeps of a `rusqlite::Error` what the messages depend on: the message of
/// an `SqliteFailure` that has one, otherwise the error's `Display` text.
/// Nothing is stated of the result: the error is opaque here.
#[verifier::external_body]
pub(crate) fn database_error_of(error: rusqlite::Error) -> (r: DatabaseError) {
    match error {
        rusqlite::Error::SqliteFailure(_, Some(message)) => DatabaseError::Sqlite(message),
        other => DatabaseError::Other(other.to_string()),
    }
}

/// Converts bound values into rusqlite's `Value`, one for one.
#[verifier::external_body]
fn sql_values(params: &[SqlParam]) -> (r: Vec<rusqlite::types::Value>) {
    params.iter().map(|p| match p {
        SqlParam::Integer(i) => rusqlite::types::Value::Integer(*i),
        SqlParam::Text(t) => rusqlite::types::Value::Text(t.clone()),
        SqlParam::Null => rusqlite::types::Value::Null,
    }).collect()
}

/// Calls `Connection::execute`, which runs one statement and returns the
/// number of rows it changed. What it returns depends on the database's
/// contents, so nothing is stated of the result.
#[verifier::external_body]
pub(crate) fn execute(conn: &rusqlite::Connection, sql: &str, params: &[SqlParam]) -> (r: Result<usize, rusqlite::Error>) {
    conn.execute(sql, rusqlite::params_from_iter(sql_values(params)))
}

/// Calls `Connection::execute_batch`, which runs several statements. Its
/// outcome depends on the database, so nothing is stated of it.
#[verifier::external_body]
pub(crate) fn execute_batch(conn: &rusqlite::Connection, sql: &str) -> (r: Result<(), rusqlite::Error>) {
    conn.execute_batch(sql)
}

/// Calls `Connection::last_insert_rowid`: the row id of the latest insert,
/// which depends on the database, so nothing is stated of it.
#[verifier::external_body]
pub(crate) fn last_insert_rowid(conn: &rusqlite::Connection) -> (r: i64) {
    conn.last_insert_rowid()
}

/// Calls `Connection::query_row` with `f` as the row mapper, and turns a
/// query without rows into `None` as `OptionalExtension::optional` does.
/// Which row the database holds is not stated.
#[verifier::external_body]
pub(crate) fn query_optional<T, F>(conn: &rusqlite::Connection, sql: &str, params: &[SqlParam], f: F) -> (r: Result<Option<T>, rusqlite::Error>)
    where F: FnOnce(&rusqlite::Row<'_>) -> Result<T, rusqlite::Error>
{
    conn.query_row(sql, rusqlite::params_from_iter(sql_values(params)), f).optional()
}

/// Prepares `sql` with `Connection::prepare` and runs it with
/// `Statement::query_map`, `f` mapping each row; the per-row results come
/// back in the order the database returned them. Which rows exist is not
/// stated.
#[verifier::external_body]
pub(crate) fn query_each<T, F>(conn: &rusqlite::Connection, sql: &str, params: &[SqlParam], f: F) -> (r: Result<Vec<Result<T, rusqlite::Error>>, rusqlite::Error>)
    where F: FnMut(&rusqlite::Row<'_>) -> Result<T, rusqlite::Error>
{
    let mut statement = conn.prepare(sql)?;
    let rows = statement.query_map(rusqlite::params_from_iter(sql_values(params)), f)?;
    Ok(rows.collect())
}

/// Calls `Row::get` for an integer column. The value comes from the
/// database, so nothing is stated of it.
#[verifier::external_body]
pub(crate) fn row_i64(row: &rusqlite::Row<'_>, idx: usize) -> (r: Result<i64, rusqlite::Error>) {
    row.get::<usize, i64>(idx)
}

/// Calls `Row::get` for a text column. The value comes from the database,
/// so nothing is stated of it.
#[verifier::external_body]
pub(crate) fn row_text(row: &rusqlite::Row<'_>, idx: usize) -> (r: Result<String, rusqlite::Error>) {
    row.get::<usize, String>(idx)
}

/// Calls `Row::get` for a text column that may be `NULL`. The value comes
/// from the database, so nothing is stated of it.
#[verifier::external_body]
pub(crate) fn row_opt_text(row: &rusqlite::Row<'_>, idx: usize) -> (r: Result<Option<String>, rusqlite::Error>) {
    row.get::<usize, Option<String>>(idx)
}

} // verus!
