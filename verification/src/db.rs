//! The statements that the database is asked, and what its rows mean.
use vstd::prelude::*;

use crate::models::{Account, NormalizedNote, StoredServer};
use crate::text;

verus! {

/// A value in the database. What is neither text nor an integer is never
/// stored by this crate; it is told apart, and no more.
#[derive(Debug, PartialEq)]
pub enum SqlValue {
    Null,
    Int(i64),
    Text(String),
    Other,
}

/// The mathematical value of a [`SqlValue`].
pub enum SqlValueV {
    Null,
    Int(int),
    Text(Seq<char>),
    Other,
}

impl SqlValue {
    pub open spec fn view(&self) -> SqlValueV {
        match *self {
            SqlValue::Null => SqlValueV::Null,
            SqlValue::Int(n) => SqlValueV::Int(n as int),
            SqlValue::Text(s) => SqlValueV::Text(s@),
            SqlValue::Other => SqlValueV::Other,
        }
    }
}

/// The values of a row.
pub open spec fn values_view(v: Seq<SqlValue>) -> Seq<SqlValueV> {
    Seq::new(v.len(), |i: int| v[i]@)
}

/// The rows of a result.
pub open spec fn rows_view(v: Seq<Vec<SqlValue>>) -> Seq<Seq<SqlValueV>> {
    Seq::new(v.len(), |i: int| values_view(v[i]@))
}

/// A statement: its text, and the values of its parameters `?1`, `?2` and so
/// on.
#[derive(Debug)]
pub struct Statement {
    pub sql: String,
    pub params: Vec<SqlValue>,
}

/// The mathematical value of a [`Statement`].
#[verifier::ext_equal]
pub struct StatementV {
    pub sql: Seq<char>,
    pub params: Seq<SqlValueV>,
}

impl Statement {
    pub open spec fn view(&self) -> StatementV {
        StatementV { sql: self.sql@, params: values_view(self.params@) }
    }

    fn new(sql: &str) -> (r: Statement)
        ensures
            r@ == (StatementV { sql: sql@, params: Seq::empty() }),
    {
        let params: Vec<SqlValue> = Vec::new();
        proof {
            assert(values_view(params@) =~= Seq::empty());
        }
        Statement { sql: sql.to_owned(), params }
    }

    fn bind(&mut self, value: SqlValue)
        ensures
            final(self)@ == (StatementV {
                sql: old(self)@.sql,
                params: old(self)@.params.push(value@),
            }),
    {
        self.params.push(value);
        proof {
            assert(values_view(self.params@) =~= values_view(old(self).params@).push(value@));
        }
    }

    fn bind_text(&mut self, value: &str)
        ensures
            final(self)@ == (StatementV {
                sql: old(self)@.sql,
                params: old(self)@.params.push(SqlValueV::Text(value@)),
            }),
    {
        self.bind(SqlValue::Text(value.to_owned()));
    }

    fn bind_opt_text(&mut self, value: &Option<String>)
        ensures
            final(self)@ == (StatementV {
                sql: old(self)@.sql,
                params: old(self)@.params.push(text_or_null(text::opt_text(*value))),
            }),
    {
        match value {
            Some(s) => self.bind_text(s.as_str()),
            None => self.bind(SqlValue::Null),
        }
    }

    fn bind_int(&mut self, value: i64)
        ensures
            final(self)@ == (StatementV {
                sql: old(self)@.sql,
                params: old(self)@.params.push(SqlValueV::Int(value as int)),
            }),
    {
        self.bind(SqlValue::Int(value));
    }

    fn bind_opt_u32(&mut self, value: Option<u32>)
        ensures
            final(self)@ == (StatementV {
                sql: old(self)@.sql,
                params: old(self)@.params.push(u32_or_null(value)),
            }),
    {
        match value {
            Some(n) => self.bind_int(n as i64),
            None => self.bind(SqlValue::Null),
        }
    }
}

/// Text, or null where there is none.
pub open spec fn text_or_null(o: Option<Seq<char>>) -> SqlValueV {
    match o {
        Some(s) => SqlValueV::Text(s),
        None => SqlValueV::Null,
    }
}

/// A number, or null where there is none.
pub open spec fn u32_or_null(o: Option<u32>) -> SqlValueV {
    match o {
        Some(n) => SqlValueV::Int(n as int),
        None => SqlValueV::Null,
    }
}

/// What a column is expected to hold.
#[derive(Debug, Clone, Copy, PartialEq, Eq, Structural)]
pub enum ColumnKind {
    Text,
    OptText,
    Int,
    Int32,
    OptUInt32,
}

/// A column that does not hold what is expected, or is not there.
#[derive(Debug, Clone, Copy, PartialEq, Eq, Structural)]
pub struct ColumnError {
    pub column: usize,
}

/// Whether a value is what is expected.
pub open spec fn fits(v: SqlValueV, kind: ColumnKind) -> bool {
    match kind {
        ColumnKind::Text => v is Text,
        ColumnKind::OptText => v is Text || v is Null,
        ColumnKind::Int => v is Int,
        ColumnKind::Int32 => v matches SqlValueV::Int(n) && i32::MIN <= n <= i32::MAX,
        ColumnKind::OptUInt32 => v is Null || (v matches SqlValueV::Int(n) && 0 <= n <= u32::MAX),
    }
}

/// Whether a row holds in a column what is expected there.
pub open spec fn column_ok(row: Seq<SqlValueV>, i: int, kind: ColumnKind) -> bool {
    0 <= i < row.len() && fits(row[i], kind)
}

fn text_at(row: &Vec<SqlValue>, i: usize) -> (r: Result<String, ColumnError>)
    ensures
        match r {
            Ok(s) => i < row@.len() && values_view(row@)[i as int] == SqlValueV::Text(s@),
            Err(e) => e.column == i && !column_ok(values_view(row@), i as int, ColumnKind::Text),
        },
{
    if i < row.len() {
        match &row[i] {
            SqlValue::Text(s) => {
                return Ok(s.clone());
            },
            _ => {},
        }
    }
    Err(ColumnError { column: i })
}

fn opt_text_at(row: &Vec<SqlValue>, i: usize) -> (r: Result<Option<String>, ColumnError>)
    ensures
        match r {
            Ok(o) => i < row@.len() && values_view(row@)[i as int] == text_or_null(
                text::opt_text(o),
            ),
            Err(e) => e.column == i && !column_ok(values_view(row@), i as int, ColumnKind::OptText),
        },
{
    if i < row.len() {
        match &row[i] {
            SqlValue::Text(s) => {
                return Ok(Some(s.clone()));
            },
            SqlValue::Null => {
                return Ok(None);
            },
            _ => {},
        }
    }
    Err(ColumnError { column: i })
}

fn int_at(row: &Vec<SqlValue>, i: usize) -> (r: Result<i64, ColumnError>)
    ensures
        match r {
            Ok(n) => i < row@.len() && values_view(row@)[i as int] == SqlValueV::Int(n as int),
            Err(e) => e.column == i && !column_ok(values_view(row@), i as int, ColumnKind::Int),
        },
{
    if i < row.len() {
        match &row[i] {
            SqlValue::Int(n) => {
                return Ok(*n);
            },
            _ => {},
        }
    }
    Err(ColumnError { column: i })
}

fn i32_at(row: &Vec<SqlValue>, i: usize) -> (r: Result<i32, ColumnError>)
    ensures
        match r {
            Ok(n) => i < row@.len() && values_view(row@)[i as int] == SqlValueV::Int(n as int),
            Err(e) => e.column == i && !column_ok(values_view(row@), i as int, ColumnKind::Int32),
        },
{
    match int_at(row, i) {
        Ok(n) => {
            if i32::MIN as i64 <= n && n <= i32::MAX as i64 {
                return Ok(n as i32);
            }
        },
        Err(_) => {},
    }
    Err(ColumnError { column: i })
}

fn opt_u32_at(row: &Vec<SqlValue>, i: usize) -> (r: Result<Option<u32>, ColumnError>)
    ensures
        match r {
            Ok(o) => i < row@.len() && values_view(row@)[i as int] == u32_or_null(o),
            Err(e) => e.column == i && !column_ok(
                values_view(row@),
                i as int,
                ColumnKind::OptUInt32,
            ),
        },
{
    if i < row.len() {
        match &row[i] {
            SqlValue::Null => {
                return Ok(None);
            },
            SqlValue::Int(n) => {
                if 0 <= *n && *n <= u32::MAX as i64 {
                    return Ok(Some(*n as u32));
                }
            },
            _ => {},
        }
    }
    Err(ColumnError { column: i })
}

proof fn lemma_column_from(row: Seq<SqlValueV>, off: int, i: int, kind: ColumnKind)
    requires
        0 <= off,
        0 <= i,
    ensures
        column_ok(columns_from(row, off), i, kind) == column_ok(row, off + i, kind),
        off + i < row.len() ==> i < columns_from(row, off).len() && columns_from(row, off)[i]
            == row[off + i],
{
}

fn opt_text_from(row: &Vec<SqlValue>, off: usize, i: usize) -> (r: Result<
    Option<String>,
    ColumnError,
>)
    requires
        off + i <= usize::MAX,
    ensures
        match r {
            Ok(o) => {
                let part = columns_from(values_view(row@), off as int);
                i < part.len() && part[i as int] == text_or_null(text::opt_text(o))
            },
            Err(e) => e.column == off + i && !column_ok(
                columns_from(values_view(row@), off as int),
                i as int,
                ColumnKind::OptText,
            ),
        },
{
    proof {
        lemma_column_from(values_view(row@), off as int, i as int, ColumnKind::OptText);
    }
    opt_text_at(row, off + i)
}

fn opt_u32_from(row: &Vec<SqlValue>, off: usize, i: usize) -> (r: Result<Option<u32>, ColumnError>)
    requires
        off + i <= usize::MAX,
    ensures
        match r {
            Ok(o) => {
                let part = columns_from(values_view(row@), off as int);
                i < part.len() && part[i as int] == u32_or_null(o)
            },
            Err(e) => e.column == off + i && !column_ok(
                columns_from(values_view(row@), off as int),
                i as int,
                ColumnKind::OptUInt32,
            ),
        },
{
    proof {
        lemma_column_from(values_view(row@), off as int, i as int, ColumnKind::OptUInt32);
    }
    opt_u32_at(row, off + i)
}

fn i32_from(row: &Vec<SqlValue>, off: usize, i: usize) -> (r: Result<i32, ColumnError>)
    requires
        off + i <= usize::MAX,
    ensures
        match r {
            Ok(n) => {
                let part = columns_from(values_view(row@), off as int);
                i < part.len() && part[i as int] == SqlValueV::Int(n as int)
            },
            Err(e) => e.column == off + i && !column_ok(
                columns_from(values_view(row@), off as int),
                i as int,
                ColumnKind::Int32,
            ),
        },
{
    proof {
        lemma_column_from(values_view(row@), off as int, i as int, ColumnKind::Int32);
    }
    i32_at(row, off + i)
}

/// A summary of a web page.
#[derive(Debug, PartialEq)]
pub struct SummaryRow {
    pub url: String,
    pub title: Option<String>,
    pub description: Option<String>,
    pub thumbnail: Option<String>,
    pub sitename: Option<String>,
    pub icon: Option<String>,
    pub player_url: Option<String>,
    pub player_width: Option<u32>,
    pub player_height: Option<u32>,
    pub player_allow: Option<String>,
    pub final_url: Option<String>,
    pub sensitive: bool,
    pub medias_json: Option<String>,
}

/// How an account is stored.
pub open spec fn account_row(a: Account) -> Seq<SqlValueV> {
    seq![
        SqlValueV::Text(a.id@),
        SqlValueV::Text(a.host@),
        SqlValueV::Text(a.token@),
        SqlValueV::Text(a.user_id@),
        SqlValueV::Text(a.username@),
        text_or_null(text::opt_text(a.display_name)),
        text_or_null(text::opt_text(a.avatar_url)),
        SqlValueV::Text(a.software@),
    ]
}

/// What the columns of an account hold.
pub open spec fn account_columns() -> Seq<ColumnKind> {
    seq![
        ColumnKind::Text,
        ColumnKind::Text,
        ColumnKind::Text,
        ColumnKind::Text,
        ColumnKind::Text,
        ColumnKind::OptText,
        ColumnKind::OptText,
        ColumnKind::Text,
    ]
}

/// How a server is stored.
pub open spec fn server_row(s: StoredServer) -> Seq<SqlValueV> {
    seq![
        SqlValueV::Text(s.host@),
        SqlValueV::Text(s.software@),
        SqlValueV::Text(s.version@),
        SqlValueV::Text(s.features_json@),
        SqlValueV::Int(s.updated_at as int),
    ]
}

/// What the columns of a server hold.
pub open spec fn server_columns() -> Seq<ColumnKind> {
    seq![ColumnKind::Text, ColumnKind::Text, ColumnKind::Text, ColumnKind::Text, ColumnKind::Int]
}

/// How a summary is stored, but for its address and the time it expires.
pub open spec fn summary_row(s: SummaryRow) -> Seq<SqlValueV> {
    seq![
        text_or_null(text::opt_text(s.title)),
        text_or_null(text::opt_text(s.description)),
        text_or_null(text::opt_text(s.thumbnail)),
        text_or_null(text::opt_text(s.sitename)),
        text_or_null(text::opt_text(s.icon)),
        text_or_null(text::opt_text(s.player_url)),
        u32_or_null(s.player_width),
        u32_or_null(s.player_height),
        text_or_null(text::opt_text(s.player_allow)),
        text_or_null(text::opt_text(s.final_url)),
        SqlValueV::Int(
            if s.sensitive {
                1
            } else {
                0
            },
        ),
        text_or_null(text::opt_text(s.medias_json)),
    ]
}

/// What the columns of a summary hold.
pub open spec fn summary_columns() -> Seq<ColumnKind> {
    seq![
        ColumnKind::OptText,
        ColumnKind::OptText,
        ColumnKind::OptText,
        ColumnKind::OptText,
        ColumnKind::OptText,
        ColumnKind::OptText,
        ColumnKind::OptUInt32,
        ColumnKind::OptUInt32,
        ColumnKind::OptText,
        ColumnKind::OptText,
        ColumnKind::Int32,
        ColumnKind::OptText,
    ]
}

/// Whether `column` is the first column of a row that does not hold what is
/// expected.
pub open spec fn first_misfit(row: Seq<SqlValueV>, kinds: Seq<ColumnKind>, column: int) -> bool {
    &&& 0 <= column < kinds.len()
    &&& !column_ok(row, column, kinds[column])
    &&& forall|j: int| 0 <= j < column ==> column_ok(row, j, #[trigger] kinds[j])
}

/// What is read of a row that stands for an account: the account, if every
/// column holds what is expected, and else the first column that does not.
pub open spec fn account_read(row: Seq<SqlValueV>, r: Result<Account, ColumnError>) -> bool {
    match r {
        Ok(a) => row.len() >= 8 && account_row(a) == row.take(8),
        Err(e) => first_misfit(row, account_columns(), e.column as int),
    }
}

/// What is read of a row that stands for a server.
pub open spec fn server_read(row: Seq<SqlValueV>, r: Result<StoredServer, ColumnError>) -> bool {
    match r {
        Ok(s) => row.len() >= 5 && server_row(s) == row.take(5),
        Err(e) => first_misfit(row, server_columns(), e.column as int),
    }
}

/// The columns of a row from `off` on.
pub open spec fn columns_from(row: Seq<SqlValueV>, off: int) -> Seq<SqlValueV> {
    if off <= row.len() {
        row.skip(off)
    } else {
        Seq::empty()
    }
}

/// What is read of a row whose columns from `off` on stand for a summary. The
/// mark of a sensitive page is looked at first; any number but zero sets it.
pub open spec fn summary_read(
    url: Seq<char>,
    row: Seq<SqlValueV>,
    off: int,
    r: Result<SummaryRow, ColumnError>,
) -> bool {
    let part = columns_from(row, off);
    match r {
        Ok(s) => {
            &&& s.url@ == url
            &&& part.len() >= 12
            &&& column_ok(part, 10, ColumnKind::Int32)
            &&& s.sensitive == (part[10] != SqlValueV::Int(0))
            &&& summary_row(s).update(10, part[10]) == part.take(12)
        },
        Err(e) => if column_ok(part, 10, ColumnKind::Int32) {
            first_misfit(part, summary_columns(), e.column - off)
        } else {
            e.column == off + 10
        },
    }
}

/// How accounts are read.
pub open spec fn account_reader() -> spec_fn(Seq<SqlValueV>, Result<Account, ColumnError>) -> bool {
    |row: Seq<SqlValueV>, r: Result<Account, ColumnError>| account_read(row, r)
}

/// How servers are read.
pub open spec fn server_reader() -> spec_fn(
    Seq<SqlValueV>,
    Result<StoredServer, ColumnError>,
) -> bool {
    |row: Seq<SqlValueV>, r: Result<StoredServer, ColumnError>| server_read(row, r)
}

/// How summaries are read from rows that start with the address.
pub open spec fn full_summary_reader() -> spec_fn(
    Seq<SqlValueV>,
    Result<SummaryRow, ColumnError>,
) -> bool {
    |row: Seq<SqlValueV>, r: Result<SummaryRow, ColumnError>| full_summary_read(row, r)
}

/// Whether something can be read of a row.
pub open spec fn readable<T>(
    row: Seq<SqlValueV>,
    read: spec_fn(Seq<SqlValueV>, Result<T, ColumnError>) -> bool,
) -> bool {
    exists|x: T| #[trigger] read(row, Ok(x))
}

/// What is made of a list of rows each of which is read by `read`: all of
/// them, or the first error.
pub open spec fn all_read<T>(
    rows: Seq<Seq<SqlValueV>>,
    read: spec_fn(Seq<SqlValueV>, Result<T, ColumnError>) -> bool,
    r: Result<Vec<T>, ColumnError>,
) -> bool {
    match r {
        Ok(v) => {
            &&& v@.len() == rows.len()
            &&& forall|i: int| 0 <= i < rows.len() ==> read(#[trigger] rows[i], Ok(v@[i]))
        },
        Err(e) => exists|k: int|
            {
                &&& 0 <= k < rows.len()
                &&& read(#[trigger] rows[k], Err(e))
                &&& forall|i: int| 0 <= i < k ==> readable(#[trigger] rows[i], read)
            },
    }
}

/// What is made of the first of some rows, where there is one.
pub open spec fn first_read<T>(
    rows: Seq<Seq<SqlValueV>>,
    read: spec_fn(Seq<SqlValueV>, Result<T, ColumnError>) -> bool,
    r: Result<Option<T>, ColumnError>,
) -> bool {
    match r {
        Ok(Some(x)) => rows.len() > 0 && read(rows[0], Ok(x)),
        Ok(None) => rows.len() == 0,
        Err(e) => rows.len() > 0 && read(rows[0], Err(e)),
    }
}

/// Which rows of the cache a search keeps: conditions, and the values of their
/// parameters.
pub open spec fn narrowed(
    st: (Seq<Seq<char>>, Seq<SqlValueV>),
    before: Seq<char>,
    after: Seq<char>,
    value: Option<Seq<char>>,
) -> (Seq<Seq<char>>, Seq<SqlValueV>) {
    match value {
        Some(v) => (
            st.0.push(before + text::decimal(st.1.len() as int + 1) + after),
            st.1.push(SqlValueV::Text(v)),
        ),
        None => st,
    }
}

/// The phrase for which the full text index is asked: the query in quotation
/// marks, with those inside it doubled.
pub open spec fn fts_phrase(query: Seq<char>) -> Seq<char> {
    seq!['"'] + text::replaced(query, '"', seq!['"', '"']) + seq!['"']
}

/// The pattern for a query that is too short for the index.
pub open spec fn like_pattern(query: Seq<char>) -> Seq<char> {
    seq!['%'] + query + seq!['%']
}

/// Which phrase the index is asked for, if it is: from three characters on.
pub open spec fn fts_value(query: Seq<char>) -> Option<Seq<char>> {
    if query.len() >= 3 {
        Some(fts_phrase(query))
    } else {
        None
    }
}

/// Which pattern the text has to match, if any: for a query of one or two
/// characters.
pub open spec fn like_value(query: Seq<char>) -> Option<Seq<char>> {
    if 0 < query.len() < 3 {
        Some(like_pattern(query))
    } else {
        None
    }
}

/// The conditions of a search and their parameters, in order.
pub open spec fn search_conditions(
    account_id: Seq<char>,
    query: Seq<char>,
    since_date: Option<Seq<char>>,
    until_date: Option<Seq<char>>,
) -> (Seq<Seq<char>>, Seq<SqlValueV>) {
    let none = (Seq::<Seq<char>>::empty(), Seq::<SqlValueV>::empty());
    let a = narrowed(none, "nc.account_id = ?"@, ""@, Some(account_id));
    let b = narrowed(
        a,
        "nc.rowid IN (SELECT rowid FROM notes_fts WHERE notes_fts MATCH ?"@,
        ")"@,
        fts_value(query),
    );
    let c = narrowed(b, "nc.text LIKE ?"@, ""@, like_value(query));
    let d = narrowed(c, "nc.created_at >= ?"@, ""@, since_date);
    narrowed(d, "nc.created_at <= ?"@, ""@, until_date)
}

/// A search of the cached notes of an account.
pub open spec fn search_statement(
    account_id: Seq<char>,
    query: Seq<char>,
    limit: int,
    since_date: Option<Seq<char>>,
    until_date: Option<Seq<char>>,
    ascending: bool,
) -> StatementV {
    let st = search_conditions(account_id, query, since_date, until_date);
    StatementV {
        sql: "SELECT nc.note_json FROM notes_cache nc WHERE "@ + text::joined(st.0, " AND "@)
            + " ORDER BY nc.created_at "@ + (if ascending {
            "ASC"@
        } else {
            "DESC"@
        }) + " LIMIT ?"@ + text::decimal(st.1.len() as int + 1),
        params: st.1.push(SqlValueV::Int(limit)),
    }
}

/// A search of the cached notes of an account at any time, newest first.
pub open spec fn newest_search(account_id: Seq<char>, query: Seq<char>, limit: int) -> StatementV {
    search_statement(account_id, query, limit, None, None, false)
}

/// The statement that asks for the newest cached notes of a timeline.
pub open spec fn timeline_query(account_id: Seq<char>, timeline_type: Seq<char>, limit: int) -> StatementV {
    StatementV {
        sql: CACHED_TIMELINE@,
        params: seq![
            SqlValueV::Text(account_id),
            SqlValueV::Text(timeline_type),
            SqlValueV::Int(limit),
        ],
    }
}

/// The statement that asks for the newest cached notes of a timeline up to a
/// date.
pub open spec fn timeline_page_query(
    account_id: Seq<char>,
    timeline_type: Seq<char>,
    before: Seq<char>,
    limit: int,
) -> StatementV {
    StatementV {
        sql: CACHED_TIMELINE_BEFORE@,
        params: seq![
            SqlValueV::Text(account_id),
            SqlValueV::Text(timeline_type),
            SqlValueV::Text(before),
            SqlValueV::Int(limit),
        ],
    }
}

struct Narrowing {
    conditions: Vec<String>,
    params: Vec<SqlValue>,
}

impl Narrowing {
    spec fn view(&self) -> (Seq<Seq<char>>, Seq<SqlValueV>) {
        (text::texts(self.conditions@), values_view(self.params@))
    }

    fn narrow(&mut self, before: &str, after: &str, value: Option<&str>)
        requires
            old(self).params@.len() < 100,
        ensures
            final(self)@ == narrowed(old(self)@, before@, after@, text::opt_str(value)),
            final(self).params@.len() <= old(self).params@.len() + 1,
    {
        match value {
            Some(v) => {
                let place = self.params.len() + 1;
                let mut condition = before.to_owned();
                condition.append(text::decimal_of(place as i64).as_str());
                condition.append(after);
                self.conditions.push(condition);
                self.params.push(SqlValue::Text(v.to_owned()));
                proof {
                    assert(text::texts(self.conditions@) =~= text::texts(
                        old(self).conditions@,
                    ).push(condition@));
                    assert(values_view(self.params@) =~= values_view(old(self).params@).push(
                        SqlValueV::Text(v@),
                    ));
                }
            },
            None => {},
        }
    }
}

/// The tables that the statements below speak of, and the full text index that
/// follows the cached notes.
pub const SCHEMA: &'static str = "CREATE TABLE IF NOT EXISTS accounts (id TEXT PRIMARY KEY, host TEXT NOT NULL, token TEXT NOT NULL, user_id TEXT NOT NULL, username TEXT NOT NULL, display_name TEXT, avatar_url TEXT, software TEXT NOT NULL, UNIQUE(host, user_id)); CREATE TABLE IF NOT EXISTS servers (host TEXT PRIMARY KEY, software TEXT NOT NULL, version TEXT NOT NULL, features_json TEXT NOT NULL, updated_at INTEGER NOT NULL); CREATE TABLE IF NOT EXISTS notes_cache (note_id TEXT NOT NULL, account_id TEXT NOT NULL, server_host TEXT NOT NULL, created_at TEXT NOT NULL, text TEXT, note_json TEXT NOT NULL, cached_at INTEGER NOT NULL, timeline_type TEXT NOT NULL DEFAULT '', PRIMARY KEY (note_id, account_id)); CREATE INDEX IF NOT EXISTS idx_notes_cache_timeline ON notes_cache(account_id, timeline_type, created_at); CREATE VIRTUAL TABLE IF NOT EXISTS notes_fts USING fts5(text, content='notes_cache', content_rowid='rowid', tokenize='trigram'); CREATE TRIGGER IF NOT EXISTS notes_cache_ai AFTER INSERT ON notes_cache BEGIN INSERT INTO notes_fts(rowid, text) VALUES (new.rowid, new.text); END; CREATE TRIGGER IF NOT EXISTS notes_cache_ad AFTER DELETE ON notes_cache BEGIN INSERT INTO notes_fts(notes_fts, rowid, text) VALUES ('delete', old.rowid, old.text); END; CREATE TABLE IF NOT EXISTS ogp_cache (url TEXT PRIMARY KEY, title TEXT, description TEXT, image TEXT, site_name TEXT, icon TEXT, player_url TEXT, player_width INTEGER, player_height INTEGER, player_allow TEXT, final_url TEXT, sensitive INTEGER NOT NULL DEFAULT 0, medias_json TEXT, expires_at INTEGER NOT NULL);";

/// What is set on a connection when the database is opened.
pub const PRAGMAS: &'static str = "PRAGMA journal_mode=WAL; PRAGMA foreign_keys=ON; PRAGMA synchronous=NORMAL; PRAGMA mmap_size=67108864; PRAGMA cache_size=-2000; PRAGMA temp_store=MEMORY;";

/// Asks whether the full text index is empty although there are notes for it.
pub const FTS_NEEDS_REBUILD: &'static str = "SELECT (SELECT COUNT(*) FROM notes_fts) = 0 AND (SELECT COUNT(*) FROM notes_cache WHERE text IS NOT NULL) > 0";

/// Fills the full text index from the notes.
pub const FTS_REBUILD: &'static str = "INSERT INTO notes_fts(notes_fts) VALUES('rebuild')";

/// All accounts, oldest first.
pub const LOAD_ACCOUNTS: &'static str = "SELECT id, host, token, user_id, username, display_name, avatar_url, software FROM accounts ORDER BY rowid";

/// Stores an account; one of the same user on the same server keeps its id.
pub const UPSERT_ACCOUNT: &'static str = "INSERT INTO accounts (id, host, token, user_id, username, display_name, avatar_url, software) VALUES (?1, ?2, ?3, ?4, ?5, ?6, ?7, ?8) ON CONFLICT(host, user_id) DO UPDATE SET token = excluded.token, username = excluded.username, display_name = excluded.display_name, avatar_url = excluded.avatar_url, software = excluded.software";

/// The account with an id.
pub const GET_ACCOUNT: &'static str = "SELECT id, host, token, user_id, username, display_name, avatar_url, software FROM accounts WHERE id = ?1";

/// An account on a server.
pub const GET_ACCOUNT_BY_HOST: &'static str = "SELECT id, host, token, user_id, username, display_name, avatar_url, software FROM accounts WHERE host = ?1 LIMIT 1";

/// The account of a user on a server.
pub const GET_ACCOUNT_BY_HOST_USER: &'static str = "SELECT id, host, token, user_id, username, display_name, avatar_url, software FROM accounts WHERE host = ?1 AND user_id = ?2";

/// Empties the token of an account.
pub const CLEAR_TOKEN: &'static str = "UPDATE accounts SET token = '' WHERE id = ?1";

/// Deletes an account.
pub const DELETE_ACCOUNT: &'static str = "DELETE FROM accounts WHERE id = ?1";

/// All servers.
pub const LOAD_SERVERS: &'static str = "SELECT host, software, version, features_json, updated_at FROM servers";

/// A server.
pub const GET_SERVER: &'static str = "SELECT host, software, version, features_json, updated_at FROM servers WHERE host = ?1";

/// Stores a server.
pub const UPSERT_SERVER: &'static str = "INSERT INTO servers (host, software, version, features_json, updated_at) VALUES (?1, ?2, ?3, ?4, ?5) ON CONFLICT(host) DO UPDATE SET software = excluded.software, version = excluded.version, features_json = excluded.features_json, updated_at = excluded.updated_at";

/// Stores a note in the cache.
pub const CACHE_NOTE: &'static str = "INSERT INTO notes_cache (note_id, account_id, server_host, created_at, text, note_json, cached_at, timeline_type) VALUES (?1, ?2, ?3, ?4, ?5, ?6, ?7, ?8) ON CONFLICT(note_id, account_id) DO UPDATE SET note_json = excluded.note_json, cached_at = excluded.cached_at, timeline_type = excluded.timeline_type";

/// The newest cached notes of a timeline.
pub const CACHED_TIMELINE: &'static str = "SELECT note_json FROM notes_cache WHERE account_id = ?1 AND timeline_type = ?2 ORDER BY created_at DESC LIMIT ?3";

/// The newest cached notes of a timeline up to a date.
pub const CACHED_TIMELINE_BEFORE: &'static str = "SELECT note_json FROM notes_cache WHERE account_id = ?1 AND timeline_type = ?2 AND created_at <= ?3 ORDER BY created_at DESC LIMIT ?4";

/// Deletes a note from the cache.
pub const DELETE_CACHED_NOTE: &'static str = "DELETE FROM notes_cache WHERE note_id = ?1";

/// The number of cached notes.
pub const NOTE_COUNT: &'static str = "SELECT COUNT(*) FROM notes_cache";

/// The number of pages of the database.
pub const PAGE_COUNT: &'static str = "SELECT page_count FROM pragma_page_count";

/// The size of a page of the database.
pub const PAGE_SIZE: &'static str = "SELECT page_size FROM pragma_page_size";

/// The oldest and the newest date in the cache of a timeline.
pub const CACHE_DATE_RANGE: &'static str = "SELECT MIN(created_at), MAX(created_at) FROM notes_cache WHERE account_id = ?1 AND timeline_type = ?2";

/// Stores the summary of a page.
pub const CACHE_SUMMARY: &'static str = "INSERT INTO ogp_cache (url, title, description, image, site_name, icon, player_url, player_width, player_height, player_allow, final_url, sensitive, medias_json, expires_at) VALUES (?1, ?2, ?3, ?4, ?5, ?6, ?7, ?8, ?9, ?10, ?11, ?12, ?13, ?14) ON CONFLICT(url) DO UPDATE SET title = excluded.title, description = excluded.description, image = excluded.image, site_name = excluded.site_name, icon = excluded.icon, player_url = excluded.player_url, player_width = excluded.player_width, player_height = excluded.player_height, player_allow = excluded.player_allow, final_url = excluded.final_url, sensitive = excluded.sensitive, medias_json = excluded.medias_json, expires_at = excluded.expires_at";

/// The summary of a page that has not expired.
pub const GET_CACHED_SUMMARY: &'static str = "SELECT title, description, image, site_name, icon, player_url, player_width, player_height, player_allow, final_url, sensitive, medias_json FROM ogp_cache WHERE url = ?1 AND expires_at > ?2";

/// The summaries that have not expired.
pub const LOAD_SUMMARY_CACHE: &'static str = "SELECT url, title, description, image, site_name, icon, player_url, player_width, player_height, player_allow, final_url, sensitive, medias_json FROM ogp_cache WHERE expires_at > ?1 LIMIT ?2";

/// Deletes the summaries that have expired.
pub const CLEANUP_EXPIRED_OGP: &'static str = "DELETE FROM ogp_cache WHERE expires_at <= ?1";

/// The statement that stores the summary of a page, to expire at `expires_at`.
pub open spec fn summary_statement(url: Seq<char>, row: SummaryRow, expires_at: int) -> StatementV {
    StatementV {
        sql: CACHE_SUMMARY@,
        params: seq![SqlValueV::Text(url)] + summary_row(row) + seq![SqlValueV::Int(expires_at)],
    }
}

/// The statement that asks for the summary of a page that has not expired at
/// `now`.
pub open spec fn cached_summary_query(url: Seq<char>, now: int) -> StatementV {
    StatementV {
        sql: GET_CACHED_SUMMARY@,
        params: seq![SqlValueV::Text(url), SqlValueV::Int(now)],
    }
}

/// The statement that stores a note in the cache.
pub open spec fn cache_statement(
    note: NormalizedNote,
    note_json: Seq<char>,
    timeline_type: Seq<char>,
    now: int,
) -> StatementV {
    StatementV {
        sql: CACHE_NOTE@,
        params: seq![
            SqlValueV::Text(note.id@),
            SqlValueV::Text(note.account_id@),
            SqlValueV::Text(note.server_host@),
            SqlValueV::Text(note.created_at@),
            text_or_null(text::opt_text(note.text)),
            SqlValueV::Text(note_json),
            SqlValueV::Int(now),
            SqlValueV::Text(timeline_type),
        ],
    }
}

/// The statements of the database and the reading of its rows. To ask the
/// database itself is the business of the program.
#[derive(Debug)]
pub struct Database;

impl Database {

    /// All accounts, oldest first.
    pub fn load_accounts() -> (r: Statement)
        ensures
            r@ == (StatementV { sql: LOAD_ACCOUNTS@, params: Seq::empty() }),
    {
        let s = Statement::new(LOAD_ACCOUNTS);
        s
    }

    /// Stores an account.
    pub fn upsert_account(account: &Account) -> (r: Statement)
        ensures
            r@ == (StatementV { sql: UPSERT_ACCOUNT@, params: account_row(*account) }),
    {
        let mut s = Statement::new(UPSERT_ACCOUNT);
        s.bind_text(account.id.as_str());
        s.bind_text(account.host.as_str());
        s.bind_text(account.token.as_str());
        s.bind_text(account.user_id.as_str());
        s.bind_text(account.username.as_str());
        s.bind_opt_text(&account.display_name);
        s.bind_opt_text(&account.avatar_url);
        s.bind_text(account.software.as_str());
        proof {
            assert(s@.params =~= account_row(*account));
        }
        s
    }

    /// The account with an id.
    pub fn get_account(id: &str) -> (r: Statement)
        ensures
            r@ == (StatementV { sql: GET_ACCOUNT@, params: seq![SqlValueV::Text(id@)] }),
    {
        let mut s = Statement::new(GET_ACCOUNT);
        s.bind_text(id);
        proof {
            assert(s@.params =~= seq![SqlValueV::Text(id@)]);
        }
        s
    }

    /// An account on a server.
    pub fn get_account_by_host(host: &str) -> (r: Statement)
        ensures
            r@ == (StatementV { sql: GET_ACCOUNT_BY_HOST@, params: seq![SqlValueV::Text(host@)] }),
    {
        let mut s = Statement::new(GET_ACCOUNT_BY_HOST);
        s.bind_text(host);
        proof {
            assert(s@.params =~= seq![SqlValueV::Text(host@)]);
        }
        s
    }

    /// The account of a user on a server.
    pub fn get_account_by_host_user(host: &str, user_id: &str) -> (r: Statement)
        ensures
            r@ == (StatementV { sql: GET_ACCOUNT_BY_HOST_USER@, params: seq![SqlValueV::Text(host@), SqlValueV::Text(user_id@)] }),
    {
        let mut s = Statement::new(GET_ACCOUNT_BY_HOST_USER);
        s.bind_text(host);
        s.bind_text(user_id);
        proof {
            assert(s@.params =~= seq![SqlValueV::Text(host@), SqlValueV::Text(user_id@)]);
        }
        s
    }

    /// Empties the token of an account, once it is kept elsewhere.
    pub fn clear_token(id: &str) -> (r: Statement)
        ensures
            r@ == (StatementV { sql: CLEAR_TOKEN@, params: seq![SqlValueV::Text(id@)] }),
    {
        let mut s = Statement::new(CLEAR_TOKEN);
        s.bind_text(id);
        proof {
            assert(s@.params =~= seq![SqlValueV::Text(id@)]);
        }
        s
    }

    /// Deletes an account.
    pub fn delete_account(id: &str) -> (r: Statement)
        ensures
            r@ == (StatementV { sql: DELETE_ACCOUNT@, params: seq![SqlValueV::Text(id@)] }),
    {
        let mut s = Statement::new(DELETE_ACCOUNT);
        s.bind_text(id);
        proof {
            assert(s@.params =~= seq![SqlValueV::Text(id@)]);
        }
        s
    }

    /// All servers.
    pub fn load_servers() -> (r: Statement)
        ensures
            r@ == (StatementV { sql: LOAD_SERVERS@, params: Seq::empty() }),
    {
        let s = Statement::new(LOAD_SERVERS);
        s
    }

    /// A server.
    pub fn get_server(host: &str) -> (r: Statement)
        ensures
            r@ == (StatementV { sql: GET_SERVER@, params: seq![SqlValueV::Text(host@)] }),
    {
        let mut s = Statement::new(GET_SERVER);
        s.bind_text(host);
        proof {
            assert(s@.params =~= seq![SqlValueV::Text(host@)]);
        }
        s
    }

    /// Stores a server.
    pub fn upsert_server(server: &StoredServer) -> (r: Statement)
        ensures
            r@ == (StatementV { sql: UPSERT_SERVER@, params: server_row(*server) }),
    {
        let mut s = Statement::new(UPSERT_SERVER);
        s.bind_text(server.host.as_str());
        s.bind_text(server.software.as_str());
        s.bind_text(server.version.as_str());
        s.bind_text(server.features_json.as_str());
        s.bind_int(server.updated_at);
        proof {
            assert(s@.params =~= server_row(*server));
        }
        s
    }

    /// Stores a note in the cache. `note_json` is its JSON form, `now` the time.
    pub fn cache_note(note: &NormalizedNote, note_json: &str, timeline_type: &str, now: i64) -> (r:
        Statement)
        ensures
            r@ == cache_statement(*note, note_json@, timeline_type@, now as int),
    {
        let mut s = Statement::new(CACHE_NOTE);
        s.bind_text(note.id.as_str());
        s.bind_text(note.account_id.as_str());
        s.bind_text(note.server_host.as_str());
        s.bind_text(note.created_at.as_str());
        s.bind_opt_text(&note.text);
        s.bind_text(note_json);
        s.bind_int(now);
        s.bind_text(timeline_type);
        proof {
            assert(s@.params =~= cache_statement(
                *note,
                note_json@,
                timeline_type@,
                now as int,
            ).params);
        }
        s
    }

    /// Stores notes in the cache, to be run as one transaction. `note_jsons` are
    /// their JSON forms, `now` is the time.
    pub fn cache_notes(
        notes: &Vec<NormalizedNote>,
        note_jsons: &Vec<String>,
        timeline_type: &str,
        now: i64,
    ) -> (r: Vec<Statement>)
        requires
            note_jsons@.len() == notes@.len(),
        ensures
            r@.len() == notes@.len(),
            forall|i: int|
                0 <= i < notes@.len() ==> (#[trigger] r@[i])@ == cache_statement(
                    notes@[i],
                    note_jsons@[i]@,
                    timeline_type@,
                    now as int,
                ),
    {
        let mut out: Vec<Statement> = Vec::new();
        let mut i: usize = 0;
        while i < notes.len()
            invariant
                0 <= i <= notes@.len(),
                note_jsons@.len() == notes@.len(),
                out@.len() == i,
                forall|k: int|
                    0 <= k < i ==> (#[trigger] out@[k])@ == cache_statement(
                        notes@[k],
                        note_jsons@[k]@,
                        timeline_type@,
                        now as int,
                    ),
            decreases notes@.len() - i,
        {
            out.push(Self::cache_note(&notes[i], note_jsons[i].as_str(), timeline_type, now));
            i += 1;
        }
        out
    }

    /// A search of the cached notes of an account, newest first.
    pub fn search_cached_notes(account_id: &str, query: &str, limit: i64) -> (r: Statement)
        ensures
            r@ == newest_search(account_id@, query@, limit as int),
    {
        Self::search_cached_notes_advanced(account_id, query, limit, None, None, false)
    }

    /// A search of the cached notes of an account between two dates. A query of
    /// three characters or more goes to the full text index, a shorter one is
    /// looked for in the text, an empty one matches every note.
    pub fn search_cached_notes_advanced(
        account_id: &str,
        query: &str,
        limit: i64,
        since_date: Option<&str>,
        until_date: Option<&str>,
        ascending: bool,
    ) -> (r: Statement)
        ensures
            r@ == search_statement(
                account_id@,
                query@,
                limit as int,
                text::opt_str(since_date),
                text::opt_str(until_date),
                ascending,
            ),
    {
        let chars = text::chars_of(query);
        let mut st = Narrowing { conditions: Vec::new(), params: Vec::new() };
        proof {
            assert(text::texts(st.conditions@) =~= Seq::empty());
            assert(values_view(st.params@) =~= Seq::empty());
        }
        st.narrow("nc.account_id = ?", "", Some(account_id));
        if chars.len() >= 3 {
            let mut phrase = String::new();
            phrase.push('"');
            phrase.append(text::replace_char(query, '"', "\"\"").as_str());
            phrase.push('"');
            proof {
                reveal_strlit("\"\"");
                assert("\"\""@ =~= seq!['"', '"']);
                assert(phrase@ =~= fts_phrase(query@));
            }
            st.narrow(
                "nc.rowid IN (SELECT rowid FROM notes_fts WHERE notes_fts MATCH ?",
                ")",
                Some(phrase.as_str()),
            );
        } else if chars.len() > 0 {
            let mut pattern = String::new();
            pattern.push('%');
            pattern.append(query);
            pattern.push('%');
            proof {
                assert(pattern@ =~= like_pattern(query@));
            }
            st.narrow("nc.text LIKE ?", "", Some(pattern.as_str()));
        }
        st.narrow("nc.created_at >= ?", "", since_date);
        st.narrow("nc.created_at <= ?", "", until_date);
        let mut sql = "SELECT nc.note_json FROM notes_cache nc WHERE ".to_owned();
        sql.append(text::join(&st.conditions, " AND ").as_str());
        sql.append(" ORDER BY nc.created_at ");
        if ascending {
            sql.append("ASC");
        } else {
            sql.append("DESC");
        }
        sql.append(" LIMIT ?");
        let place = st.params.len() + 1;
        sql.append(text::decimal_of(place as i64).as_str());
        let mut s = Statement { sql, params: st.params };
        s.bind_int(limit);
        s
    }

    /// The newest cached notes of a timeline.
    pub fn get_cached_timeline(account_id: &str, timeline_type: &str, limit: i64) -> (r: Statement)
        ensures
            r@ == timeline_query(account_id@, timeline_type@, limit as int),
    {
        let mut s = Statement::new(CACHED_TIMELINE);
        s.bind_text(account_id);
        s.bind_text(timeline_type);
        s.bind_int(limit);
        proof {
            assert(s@.params =~= seq![SqlValueV::Text(account_id@), SqlValueV::Text(timeline_type@), SqlValueV::Int(limit as int)]);
        }
        s
    }

    /// The newest cached notes of a timeline that were created at `before` or earlier.
    pub fn get_cached_timeline_before(account_id: &str, timeline_type: &str, before: &str, limit: i64) -> (r: Statement)
        ensures
            r@ == timeline_page_query(account_id@, timeline_type@, before@, limit as int),
    {
        let mut s = Statement::new(CACHED_TIMELINE_BEFORE);
        s.bind_text(account_id);
        s.bind_text(timeline_type);
        s.bind_text(before);
        s.bind_int(limit);
        proof {
            assert(s@.params =~= seq![SqlValueV::Text(account_id@), SqlValueV::Text(timeline_type@), SqlValueV::Text(before@), SqlValueV::Int(limit as int)]);
        }
        s
    }

    /// Deletes a note from the cache.
    pub fn delete_cached_note(note_id: &str) -> (r: Statement)
        ensures
            r@ == (StatementV { sql: DELETE_CACHED_NOTE@, params: seq![SqlValueV::Text(note_id@)] }),
    {
        let mut s = Statement::new(DELETE_CACHED_NOTE);
        s.bind_text(note_id);
        proof {
            assert(s@.params =~= seq![SqlValueV::Text(note_id@)]);
        }
        s
    }

    /// The oldest and the newest date in the cache of a timeline.
    pub fn get_cache_date_range(account_id: &str, timeline_type: &str) -> (r: Statement)
        ensures
            r@ == (StatementV { sql: CACHE_DATE_RANGE@, params: seq![SqlValueV::Text(account_id@), SqlValueV::Text(timeline_type@)] }),
    {
        let mut s = Statement::new(CACHE_DATE_RANGE);
        s.bind_text(account_id);
        s.bind_text(timeline_type);
        proof {
            assert(s@.params =~= seq![SqlValueV::Text(account_id@), SqlValueV::Text(timeline_type@)]);
        }
        s
    }

    /// Stores the summary of a page; it expires `ttl_secs` seconds after `now`.
    pub fn cache_summary(url: &str, row: &SummaryRow, ttl_secs: i64, now: i64) -> (r: Statement)
        requires
            i64::MIN <= now + ttl_secs <= i64::MAX,
        ensures
            r@ == summary_statement(url@, *row, now + ttl_secs),
    {
        let mut s = Statement::new(CACHE_SUMMARY);
        s.bind_text(url);
        s.bind_opt_text(&row.title);
        s.bind_opt_text(&row.description);
        s.bind_opt_text(&row.thumbnail);
        s.bind_opt_text(&row.sitename);
        s.bind_opt_text(&row.icon);
        s.bind_opt_text(&row.player_url);
        s.bind_opt_u32(row.player_width);
        s.bind_opt_u32(row.player_height);
        s.bind_opt_text(&row.player_allow);
        s.bind_opt_text(&row.final_url);
        let sensitive: i64 = if row.sensitive {
            1
        } else {
            0
        };
        s.bind_int(sensitive);
        s.bind_opt_text(&row.medias_json);
        s.bind_int(now + ttl_secs);
        proof {
            assert(s@.params =~= seq![SqlValueV::Text(url@)] + summary_row(*row) + seq![
                SqlValueV::Int(now + ttl_secs),
            ]);
        }
        s
    }

    /// The summary of a page, if it has not expired at `now`.
    pub fn get_cached_summary(url: &str, now: i64) -> (r: Statement)
        ensures
            r@ == cached_summary_query(url@, now as int),
    {
        let mut s = Statement::new(GET_CACHED_SUMMARY);
        s.bind_text(url);
        s.bind_int(now);
        proof {
            assert(s@.params =~= seq![SqlValueV::Text(url@), SqlValueV::Int(now as int)]);
        }
        s
    }

    /// At most `limit` summaries that have not expired at `now`.
    pub fn load_summary_cache(limit: usize, now: i64) -> (r: Statement)
        ensures
            r@ == (StatementV {
                sql: LOAD_SUMMARY_CACHE@,
                params: seq![SqlValueV::Int(now as int), SqlValueV::Int((limit as i64) as int)],
            }),
    {
        let mut s = Statement::new(LOAD_SUMMARY_CACHE);
        s.bind_int(now);
        s.bind_int(
            #[verifier::truncate]
            (limit as i64),
        );
        proof {
            assert(s@.params =~= seq![
                SqlValueV::Int(now as int),
                SqlValueV::Int((limit as i64) as int),
            ]);
        }
        s
    }

    /// Deletes the summaries that have expired at `now`.
    pub fn cleanup_expired_ogp(now: i64) -> (r: Statement)
        ensures
            r@ == (StatementV { sql: CLEANUP_EXPIRED_OGP@, params: seq![SqlValueV::Int(now as int)] }),
    {
        let mut s = Statement::new(CLEANUP_EXPIRED_OGP);
        s.bind_int(now);
        proof {
            assert(s@.params =~= seq![SqlValueV::Int(now as int)]);
        }
        s
    }

    /// What brings the full text index up to date, given what
    /// [`FTS_NEEDS_REBUILD`] was answered.
    pub fn rebuild_fts_if_needed(needs_rebuild: bool) -> (r: Option<Statement>)
        ensures
            match r {
                Some(s) => needs_rebuild && s@ == (StatementV {
                    sql: FTS_REBUILD@,
                    params: Seq::empty(),
                }),
                None => !needs_rebuild,
            },
    {
        if needs_rebuild {
            Some(Statement::new(FTS_REBUILD))
        } else {
            None
        }
    }

    /// The number of cached notes and the size of the database in bytes.
    pub fn cache_stats(count: i64, page_count: i64, page_size: i64) -> (r: (i64, i64))
        requires
            i64::MIN <= page_count * page_size <= i64::MAX,
        ensures
            r.0 == count,
            r.1 == page_count * page_size,
    {
        (count, page_count * page_size)
    }

    /// Reads an account.
    pub fn row_to_account(row: &Vec<SqlValue>) -> (r: Result<Account, ColumnError>)
        ensures
            account_read(values_view(row@), r),
    {
        let id = match text_at(row, 0) {
            Ok(v) => v,
            Err(e) => {
                return Err(e);
            },
        };
        let host = match text_at(row, 1) {
            Ok(v) => v,
            Err(e) => {
                return Err(e);
            },
        };
        let token = match text_at(row, 2) {
            Ok(v) => v,
            Err(e) => {
                return Err(e);
            },
        };
        let user_id = match text_at(row, 3) {
            Ok(v) => v,
            Err(e) => {
                return Err(e);
            },
        };
        let username = match text_at(row, 4) {
            Ok(v) => v,
            Err(e) => {
                return Err(e);
            },
        };
        let display_name = match opt_text_at(row, 5) {
            Ok(v) => v,
            Err(e) => {
                return Err(e);
            },
        };
        let avatar_url = match opt_text_at(row, 6) {
            Ok(v) => v,
            Err(e) => {
                return Err(e);
            },
        };
        let software = match text_at(row, 7) {
            Ok(v) => v,
            Err(e) => {
                return Err(e);
            },
        };
        let account = Account {
            id,
            host,
            token,
            user_id,
            username,
            display_name,
            avatar_url,
            software,
        };
        proof {
            assert(account_row(account) =~= values_view(row@).take(8));
        }
        Ok(account)
    }

    /// Reads a server.
    pub fn row_to_server(row: &Vec<SqlValue>) -> (r: Result<StoredServer, ColumnError>)
        ensures
            server_read(values_view(row@), r),
    {
        let host = match text_at(row, 0) {
            Ok(v) => v,
            Err(e) => {
                return Err(e);
            },
        };
        let software = match text_at(row, 1) {
            Ok(v) => v,
            Err(e) => {
                return Err(e);
            },
        };
        let version = match text_at(row, 2) {
            Ok(v) => v,
            Err(e) => {
                return Err(e);
            },
        };
        let features_json = match text_at(row, 3) {
            Ok(v) => v,
            Err(e) => {
                return Err(e);
            },
        };
        let updated_at: i64 = match int_at(row, 4) {
            Ok(v) => v,
            Err(e) => {
                return Err(e);
            },
        };
        let server = StoredServer { host, software, version, features_json, updated_at };
        proof {
            assert(server_row(server) =~= values_view(row@).take(5));
        }
        Ok(server)
    }

    /// Reads a summary from a row that holds nothing else.
    pub fn row_to_summary(url: &str, row: &Vec<SqlValue>) -> (r: Result<SummaryRow, ColumnError>)
        ensures
            summary_read(url@, values_view(row@), 0, r),
    {
        Self::row_to_summary_offset(url, row, 0)
    }

    /// Reads a summary from the columns of a row that start at `off`.
    pub fn row_to_summary_offset(url: &str, row: &Vec<SqlValue>, off: usize) -> (r: Result<
        SummaryRow,
        ColumnError,
    >)
        requires
            off + 11 <= usize::MAX,
        ensures
            summary_read(url@, values_view(row@), off as int, r),
    {
        let ghost part = columns_from(values_view(row@), off as int);
        let sensitive_i: i32 = match i32_from(row, off, 10) {
            Ok(v) => v,
            Err(e) => {
                return Err(e);
            },
        };
        let title = match opt_text_from(row, off, 0) {
            Ok(v) => v,
            Err(e) => {
                return Err(e);
            },
        };
        let description = match opt_text_from(row, off, 1) {
            Ok(v) => v,
            Err(e) => {
                return Err(e);
            },
        };
        let thumbnail = match opt_text_from(row, off, 2) {
            Ok(v) => v,
            Err(e) => {
                return Err(e);
            },
        };
        let sitename = match opt_text_from(row, off, 3) {
            Ok(v) => v,
            Err(e) => {
                return Err(e);
            },
        };
        let icon = match opt_text_from(row, off, 4) {
            Ok(v) => v,
            Err(e) => {
                return Err(e);
            },
        };
        let player_url = match opt_text_from(row, off, 5) {
            Ok(v) => v,
            Err(e) => {
                return Err(e);
            },
        };
        let player_width = match opt_u32_from(row, off, 6) {
            Ok(v) => v,
            Err(e) => {
                return Err(e);
            },
        };
        let player_height = match opt_u32_from(row, off, 7) {
            Ok(v) => v,
            Err(e) => {
                return Err(e);
            },
        };
        let player_allow = match opt_text_from(row, off, 8) {
            Ok(v) => v,
            Err(e) => {
                return Err(e);
            },
        };
        let final_url = match opt_text_from(row, off, 9) {
            Ok(v) => v,
            Err(e) => {
                return Err(e);
            },
        };
        let medias_json = match opt_text_from(row, off, 11) {
            Ok(v) => v,
            Err(e) => {
                return Err(e);
            },
        };
        let summary = SummaryRow {
            url: url.to_owned(),
            title,
            description,
            thumbnail,
            sitename,
            icon,
            player_url,
            player_width,
            player_height,
            player_allow,
            final_url,
            sensitive: sensitive_i != 0,
            medias_json,
        };
        proof {
            assert(summary_row(summary).update(10, part[10]) =~= part.take(12));
        }
        Ok(summary)
    }

    /// Reads all accounts.
    pub fn accounts_from(rows: &Vec<Vec<SqlValue>>) -> (r: Result<Vec<Account>, ColumnError>)
        ensures
            all_read(
                rows_view(rows@),
                account_reader(),
                r,
            ),
    {
        let mut out: Vec<Account> = Vec::new();
        let mut i: usize = 0;
        while i < rows.len()
            invariant
                0 <= i <= rows@.len(),
                out@.len() == i,
                forall|k: int|
                    0 <= k < i ==> account_read(#[trigger] rows_view(rows@)[k], Ok(out@[k])),
            decreases rows@.len() - i,
        {
            proof {
                assert(rows_view(rows@)[i as int] == values_view(rows@[i as int]@));
            }
            match Self::row_to_account(&rows[i]) {
                Ok(a) => {
                    out.push(a);
                },
                Err(e) => {
                    proof {
                        let read = account_reader();
                        let all = rows_view(rows@);
                        assert(read(all[i as int], Err(e)));
                        assert forall|k: int| 0 <= k < i implies readable(
                            #[trigger] all[k],
                            read,
                        ) by {
                            assert(read(all[k], Ok(out@[k])));
                        }
                    }
                    return Err(e);
                },
            }
            i += 1;
        }
        Ok(out)
    }

    /// Reads the first account, where there is one.
    pub fn first_account(rows: &Vec<Vec<SqlValue>>) -> (r: Result<Option<Account>, ColumnError>)
        ensures
            first_read(
                rows_view(rows@),
                account_reader(),
                r,
            ),
    {
        if rows.len() == 0 {
            return Ok(None);
        }
        proof {
            assert(rows_view(rows@)[0] == values_view(rows@[0]@));
        }
        match Self::row_to_account(&rows[0]) {
            Ok(a) => Ok(Some(a)),
            Err(e) => Err(e),
        }
    }

    /// Reads all servers.
    pub fn servers_from(rows: &Vec<Vec<SqlValue>>) -> (r: Result<Vec<StoredServer>, ColumnError>)
        ensures
            all_read(
                rows_view(rows@),
                server_reader(),
                r,
            ),
    {
        let mut out: Vec<StoredServer> = Vec::new();
        let mut i: usize = 0;
        while i < rows.len()
            invariant
                0 <= i <= rows@.len(),
                out@.len() == i,
                forall|k: int|
                    0 <= k < i ==> server_read(#[trigger] rows_view(rows@)[k], Ok(out@[k])),
            decreases rows@.len() - i,
        {
            proof {
                assert(rows_view(rows@)[i as int] == values_view(rows@[i as int]@));
            }
            match Self::row_to_server(&rows[i]) {
                Ok(s) => {
                    out.push(s);
                },
                Err(e) => {
                    proof {
                        let read = server_reader();
                        let all = rows_view(rows@);
                        assert(read(all[i as int], Err(e)));
                        assert forall|k: int| 0 <= k < i implies readable(
                            #[trigger] all[k],
                            read,
                        ) by {
                            assert(read(all[k], Ok(out@[k])));
                        }
                    }
                    return Err(e);
                },
            }
            i += 1;
        }
        Ok(out)
    }

    /// Reads the first server, where there is one.
    pub fn first_server(rows: &Vec<Vec<SqlValue>>) -> (r: Result<Option<StoredServer>, ColumnError>)
        ensures
            first_read(
                rows_view(rows@),
                server_reader(),
                r,
            ),
    {
        if rows.len() == 0 {
            return Ok(None);
        }
        proof {
            assert(rows_view(rows@)[0] == values_view(rows@[0]@));
        }
        match Self::row_to_server(&rows[0]) {
            Ok(s) => Ok(Some(s)),
            Err(e) => Err(e),
        }
    }

    /// Reads the first summary, where there is one.
    pub fn first_summary(url: &str, rows: &Vec<Vec<SqlValue>>) -> (r: Result<
        Option<SummaryRow>,
        ColumnError,
    >)
        ensures
            first_read(
                rows_view(rows@),
                |row: Seq<SqlValueV>, x: Result<SummaryRow, ColumnError>|
                    summary_read(url@, row, 0, x),
                r,
            ),
    {
        if rows.len() == 0 {
            return Ok(None);
        }
        proof {
            assert(rows_view(rows@)[0] == values_view(rows@[0]@));
        }
        match Self::row_to_summary(url, &rows[0]) {
            Ok(s) => Ok(Some(s)),
            Err(e) => Err(e),
        }
    }

    fn row_to_full_summary(row: &Vec<SqlValue>) -> (r: Result<SummaryRow, ColumnError>)
        ensures
            full_summary_read(values_view(row@), r),
    {
        match text_at(row, 0) {
            Ok(url) => Self::row_to_summary_offset(url.as_str(), row, 1),
            Err(e) => Err(e),
        }
    }

    /// Reads all summaries, each from a row that starts with its address.
    pub fn summaries_from(rows: &Vec<Vec<SqlValue>>) -> (r: Result<Vec<SummaryRow>, ColumnError>)
        ensures
            all_read(
                rows_view(rows@),
                full_summary_reader(),
                r,
            ),
    {
        let mut out: Vec<SummaryRow> = Vec::new();
        let mut i: usize = 0;
        while i < rows.len()
            invariant
                0 <= i <= rows@.len(),
                out@.len() == i,
                forall|k: int|
                    0 <= k < i ==> full_summary_read(#[trigger] rows_view(rows@)[k], Ok(out@[k])),
            decreases rows@.len() - i,
        {
            proof {
                assert(rows_view(rows@)[i as int] == values_view(rows@[i as int]@));
            }
            match Self::row_to_full_summary(&rows[i]) {
                Ok(s) => {
                    out.push(s);
                },
                Err(e) => {
                    proof {
                        let read = full_summary_reader();
                        let all = rows_view(rows@);
                        assert(read(all[i as int], Err(e)));
                        assert forall|k: int| 0 <= k < i implies readable(
                            #[trigger] all[k],
                            read,
                        ) by {
                            assert(read(all[k], Ok(out@[k])));
                        }
                    }
                    return Err(e);
                },
            }
            i += 1;
        }
        Ok(out)
    }

    /// The texts in the first column, where a row without one is an error.
    pub fn note_texts(rows: &Vec<Vec<SqlValue>>) -> (r: Result<Vec<String>, ColumnError>)
        ensures
            match r {
                Ok(v) => {
                    &&& v@.len() == rows@.len()
                    &&& forall|i: int|
                        0 <= i < rows@.len() ==> first_text(#[trigger] rows_view(rows@)[i]) == Some(
                            v@[i]@,
                        )
                },
                Err(e) => e.column == 0 && exists|i: int|
                    0 <= i < rows@.len() && first_text(#[trigger] rows_view(rows@)[i]) is None,
            },
    {
        let mut out: Vec<String> = Vec::new();
        let mut i: usize = 0;
        while i < rows.len()
            invariant
                0 <= i <= rows@.len(),
                out@.len() == i,
                forall|k: int|
                    0 <= k < i ==> first_text(#[trigger] rows_view(rows@)[k]) == Some(out@[k]@),
            decreases rows@.len() - i,
        {
            match text_at(&rows[i], 0) {
                Ok(s) => {
                    out.push(s);
                },
                Err(e) => {
                    proof {
                        assert(first_text(rows_view(rows@)[i as int]) is None);
                    }
                    return Err(e);
                },
            }
            i += 1;
        }
        Ok(out)
    }

    /// The texts in the first column, where a row without one is passed over.
    pub fn found_texts(rows: &Vec<Vec<SqlValue>>) -> (r: Vec<String>)
        ensures
            text::texts(r@) == texts_among(rows_view(rows@)),
    {
        let mut out: Vec<String> = Vec::new();
        let ghost all = rows_view(rows@);
        proof {
            assert(text::texts(out@) =~= texts_among(all.take(0)));
        }
        let mut i: usize = 0;
        while i < rows.len()
            invariant
                0 <= i <= rows@.len(),
                all == rows_view(rows@),
                text::texts(out@) == texts_among(all.take(i as int)),
            decreases rows@.len() - i,
        {
            let ghost before = out@;
            proof {
                assert(all.take(i + 1).drop_last() =~= all.take(i as int));
                assert(all.take(i + 1).last() == values_view(rows@[i as int]@));
            }
            match text_at(&rows[i], 0) {
                Ok(s) => {
                    out.push(s);
                    proof {
                        assert(text::texts(out@) =~= text::texts(before).push(s@));
                    }
                },
                Err(_) => {},
            }
            i += 1;
        }
        proof {
            assert(all.take(i as int) =~= all);
        }
        out
    }

    /// Reads the oldest and the newest date: `None` unless there are both.
    pub fn date_range_from(row: &Vec<SqlValue>) -> (r: Result<Option<(String, String)>, ColumnError>)
        ensures
            date_range_read(values_view(row@), r),
    {
        let oldest = match opt_text_at(row, 0) {
            Ok(v) => v,
            Err(e) => {
                return Err(e);
            },
        };
        let newest = match opt_text_at(row, 1) {
            Ok(v) => v,
            Err(e) => {
                return Err(e);
            },
        };
        match (oldest, newest) {
            (Some(a), Some(b)) => Ok(Some((a, b))),
            _ => Ok(None),
        }
    }
}

/// What is read of a row that holds the oldest and the newest date.
pub open spec fn date_range_read(
    row: Seq<SqlValueV>,
    r: Result<Option<(String, String)>, ColumnError>,
) -> bool {
    match r {
        Ok(Some(p)) => row.len() >= 2 && row[0] == SqlValueV::Text(p.0@) && row[1]
            == SqlValueV::Text(p.1@),
        Ok(None) => column_ok(row, 0, ColumnKind::OptText) && column_ok(row, 1, ColumnKind::OptText)
            && (row[0] is Null || row[1] is Null),
        Err(e) => first_misfit(row, seq![ColumnKind::OptText, ColumnKind::OptText], e.column as int),
    }
}

/// What is read of a row that holds the address of a page and then its summary.
pub open spec fn full_summary_read(
    row: Seq<SqlValueV>,
    r: Result<SummaryRow, ColumnError>,
) -> bool {
    if column_ok(row, 0, ColumnKind::Text) {
        summary_read(row[0]->Text_0, row, 1, r)
    } else {
        r == Err::<SummaryRow, ColumnError>(ColumnError { column: 0 })
    }
}

/// The text in the first column of a row.
pub open spec fn first_text(row: Seq<SqlValueV>) -> Option<Seq<char>> {
    if column_ok(row, 0, ColumnKind::Text) {
        Some(row[0]->Text_0)
    } else {
        None
    }
}

/// The texts in the first columns of some rows, of those that have one.
pub open spec fn texts_among(rows: Seq<Seq<SqlValueV>>) -> Seq<Seq<char>>
    decreases rows.len(),
{
    if rows.len() == 0 {
        Seq::empty()
    } else {
        let rest = texts_among(rows.drop_last());
        match first_text(rows.last()) {
            Some(s) => rest.push(s),
            None => rest,
        }
    }
}

/// Reading gives back what was written: of a row that stores an account, that
/// account is read.
pub proof fn law_account_reads_back(a: Account, r: Result<Account, ColumnError>)
    requires
        account_read(account_row(a), r),
    ensures
        r matches Ok(b) && b.id@ == a.id@ && b.host@ == a.host@ && b.token@ == a.token@ && b.user_id@
            == a.user_id@ && b.username@ == a.username@ && text::opt_text(b.display_name)
            == text::opt_text(a.display_name) && text::opt_text(b.avatar_url) == text::opt_text(
            a.avatar_url,
        ) && b.software@ == a.software@,
{
    let row = account_row(a);
    assert(row.take(8) =~= row);
    match r {
        Ok(b) => {
            let back = account_row(b);
            assert(back =~= row);
            assert(back[0] == row[0] && back[1] == row[1] && back[2] == row[2] && back[3] == row[3]);
            assert(back[4] == row[4] && back[5] == row[5] && back[6] == row[6] && back[7] == row[7]);
        },
        Err(e) => {
            let k = e.column as int;
            assert(account_columns().len() == 8);
            assert(column_ok(row, k, account_columns()[k]));
        },
    }
}

/// Reading gives back what was written: of a row that stores a server, that
/// server is read.
pub proof fn law_server_reads_back(s: StoredServer, r: Result<StoredServer, ColumnError>)
    requires
        server_read(server_row(s), r),
    ensures
        r matches Ok(b) && b.host@ == s.host@ && b.software@ == s.software@ && b.version@ == s.version@
            && b.features_json@ == s.features_json@ && b.updated_at == s.updated_at,
{
    let row = server_row(s);
    assert(row.take(5) =~= row);
    match r {
        Ok(b) => {
            let back = server_row(b);
            assert(back =~= row);
            assert(back[0] == row[0] && back[1] == row[1] && back[2] == row[2] && back[3] == row[3]
                && back[4] == row[4]);
        },
        Err(e) => {
            let k = e.column as int;
            assert(server_columns().len() == 5);
            assert(column_ok(row, k, server_columns()[k]));
        },
    }
}

/// Reading gives back what was written: of a row that stores a summary, that
/// summary is read.
pub proof fn law_summary_reads_back(
    url: Seq<char>,
    s: SummaryRow,
    r: Result<SummaryRow, ColumnError>,
)
    requires
        summary_read(url, summary_row(s), 0, r),
    ensures
        r matches Ok(b) && b.url@ == url && summary_row(b) == summary_row(s) && b.sensitive
            == s.sensitive,
{
    let row = summary_row(s);
    assert(row.skip(0) =~= row);
    assert(row.take(12) =~= row);
    match r {
        Ok(b) => {
            assert(summary_row(b).update(10, row[10]) =~= row);
            assert forall|i: int| 0 <= i < 12 implies summary_row(b)[i] == row[i] by {
                if i != 10 {
                    assert(summary_row(b).update(10, row[10])[i] == summary_row(b)[i]);
                }
            }
            assert(summary_row(b) =~= row);
        },
        Err(e) => {
            let k = e.column as int;
            assert(summary_columns().len() == 12);
            assert(column_ok(row, k, summary_columns()[k]));
        },
    }
}

/// Whether a row that `written` stores is one that `asked` wants, by the condition
/// `url = ?1 AND expires_at > ?2` of [`GET_CACHED_SUMMARY`]: the first column is the
/// address, the last one the time at which the row expires.
pub open spec fn wants_summary(asked: StatementV, written: StatementV) -> bool {
    &&& asked.params[0] == written.params[0]
    &&& match (written.params.last(), asked.params[1]) {
        (SqlValueV::Int(expires_at), SqlValueV::Int(now)) => expires_at > now,
        _ => false,
    }
}

/// A summary that was cached at `then` for `ttl_secs` seconds is found for its
/// address at `now` if and only if it has not expired by `now`, and it is read
/// as it was written, under the address that was asked for.
pub proof fn law_summary_is_found_until_it_expires(
    url: Seq<char>,
    s: SummaryRow,
    ttl_secs: int,
    then: int,
    now: int,
    other: Seq<char>,
    r: Result<SummaryRow, ColumnError>,
)
    requires
        summary_read(url, summary_row(s), 0, r),
    ensures
        ({
            let written = summary_statement(url, s, then + ttl_secs);
            &&& wants_summary(cached_summary_query(url, now), written) <==> then + ttl_secs > now
            &&& other != url ==> !wants_summary(cached_summary_query(other, now), written)
            &&& written.params.subrange(1, 13) == summary_row(s)
        }),
        r matches Ok(b) && b.url@ == url && summary_row(b) == summary_row(s) && b.sensitive
            == s.sensitive,
{
    law_summary_reads_back(url, s, r);
    let written = summary_statement(url, s, then + ttl_secs);
    assert(written.params[0] == SqlValueV::Text(url));
    assert(written.params.last() == SqlValueV::Int(then + ttl_secs));
    assert(written.params.subrange(1, 13) =~= summary_row(s));
}

/// Whether the conditions and their parameters are numbered alike: the `i`-th
/// condition speaks of the `i`-th parameter.
pub open spec fn numbered(st: (Seq<Seq<char>>, Seq<SqlValueV>)) -> bool {
    &&& st.0.len() == st.1.len()
    &&& forall|i: int|
        0 <= i < st.0.len() ==> text::has_substring(
            #[trigger] st.0[i],
            seq!['?'] + text::decimal(i + 1),
        )
}

proof fn lemma_narrowed_numbered(
    st: (Seq<Seq<char>>, Seq<SqlValueV>),
    before: Seq<char>,
    after: Seq<char>,
    value: Option<Seq<char>>,
)
    requires
        numbered(st),
        before.len() > 0,
        before.last() == '?',
    ensures
        numbered(narrowed(st, before, after, value)),
{
    match value {
        Some(v) => {
            let n = st.1.len() as int + 1;
            let now = narrowed(st, before, after, value);
            let last = before + text::decimal(n) + after;
            let place = seq!['?'] + text::decimal(n);
            assert(last.subrange(before.len() - 1, before.len() - 1 + place.len()) =~= place);
            assert(text::occurs_at(last, place, before.len() - 1));
            assert forall|i: int| 0 <= i < now.0.len() implies text::has_substring(
                #[trigger] now.0[i],
                seq!['?'] + text::decimal(i + 1),
            ) by {
                if i < st.0.len() {
                    assert(now.0[i] == st.0[i]);
                }
            }
        },
        None => {},
    }
}

/// A search has a parameter for each condition, numbered like it, and one more
/// for the number of notes; none is missing and none is left over.
pub proof fn law_search_parameters_are_numbered(
    account_id: Seq<char>,
    query: Seq<char>,
    limit: int,
    since_date: Option<Seq<char>>,
    until_date: Option<Seq<char>>,
    ascending: bool,
)
    ensures
        numbered(search_conditions(account_id, query, since_date, until_date)),
        search_statement(account_id, query, limit, since_date, until_date, ascending).params.len()
            == search_conditions(account_id, query, since_date, until_date).0.len() + 1,
{
    reveal_strlit("nc.account_id = ?");
    reveal_strlit("nc.rowid IN (SELECT rowid FROM notes_fts WHERE notes_fts MATCH ?");
    reveal_strlit("nc.text LIKE ?");
    reveal_strlit("nc.created_at >= ?");
    reveal_strlit("nc.created_at <= ?");
    let none = (Seq::<Seq<char>>::empty(), Seq::<SqlValueV>::empty());
    lemma_narrowed_numbered(none, "nc.account_id = ?"@, ""@, Some(account_id));
    let a = narrowed(none, "nc.account_id = ?"@, ""@, Some(account_id));
    let m = "nc.rowid IN (SELECT rowid FROM notes_fts WHERE notes_fts MATCH ?"@;
    lemma_narrowed_numbered(a, m, ")"@, fts_value(query));
    let b = narrowed(a, m, ")"@, fts_value(query));
    lemma_narrowed_numbered(b, "nc.text LIKE ?"@, ""@, like_value(query));
    let c = narrowed(b, "nc.text LIKE ?"@, ""@, like_value(query));
    lemma_narrowed_numbered(c, "nc.created_at >= ?"@, ""@, since_date);
    let d = narrowed(c, "nc.created_at >= ?"@, ""@, since_date);
    lemma_narrowed_numbered(d, "nc.created_at <= ?"@, ""@, until_date);
}

/// What is searched for does not reach the text of the statement: two searches
/// of one shape differ in their parameters alone.
pub proof fn law_search_text_is_only_a_parameter(
    account_a: Seq<char>,
    account_b: Seq<char>,
    query_a: Seq<char>,
    query_b: Seq<char>,
    limit_a: int,
    limit_b: int,
    since_a: Option<Seq<char>>,
    since_b: Option<Seq<char>>,
    until_a: Option<Seq<char>>,
    until_b: Option<Seq<char>>,
    ascending: bool,
)
    requires
        (query_a.len() >= 3) == (query_b.len() >= 3),
        (query_a.len() == 0) == (query_b.len() == 0),
        (since_a is Some) == (since_b is Some),
        (until_a is Some) == (until_b is Some),
    ensures
        search_statement(account_a, query_a, limit_a, since_a, until_a, ascending).sql
            == search_statement(account_b, query_b, limit_b, since_b, until_b, ascending).sql,
{
    assert(search_conditions(account_a, query_a, since_a, until_a).0 =~= search_conditions(
        account_b,
        query_b,
        since_b,
        until_b,
    ).0);
}

/// Which conditions a search has. It always asks for the account. A query of
/// three characters or more is looked up in the index, a shorter one in the text,
/// and an empty one not at all. A date from which and a date up to which notes
/// are wanted are conditions of their own, each exactly where it is given and
/// whatever else is. Each condition names its own parameter.
pub proof fn law_search_has_the_conditions_asked_for(
    account_id: Seq<char>,
    query: Seq<char>,
    since_date: Option<Seq<char>>,
    until_date: Option<Seq<char>>,
)
    ensures
        ({
            let (conditions, values) = search_conditions(account_id, query, since_date, until_date);
            let queries: int = if query.len() > 0 {
                1
            } else {
                0
            };
            let sinces: int = if since_date is Some {
                1
            } else {
                0
            };
            let untils: int = if until_date is Some {
                1
            } else {
                0
            };
            let since = 1 + queries;
            let until = 1 + queries + sinces;
            &&& conditions.len() == 1 + queries + sinces + untils
            &&& values.len() == conditions.len()
            &&& conditions[0] == "nc.account_id = ?"@ + text::decimal(1) && values[0]
                == SqlValueV::Text(account_id)
            &&& query.len() >= 3 ==> conditions[1] == "nc.rowid IN (SELECT rowid FROM notes_fts WHERE notes_fts MATCH ?"@
                + text::decimal(2) + ")"@ && values[1] == SqlValueV::Text(fts_phrase(query))
            &&& 0 < query.len() < 3 ==> conditions[1] == "nc.text LIKE ?"@ + text::decimal(2)
                && values[1] == SqlValueV::Text(seq!['%'] + query + seq!['%'])
            &&& since_date matches Some(d) ==> conditions[since] == "nc.created_at >= ?"@
                + text::decimal(since + 1) && values[since] == SqlValueV::Text(d)
            &&& until_date matches Some(d) ==> conditions[until] == "nc.created_at <= ?"@
                + text::decimal(until + 1) && values[until] == SqlValueV::Text(d)
        }),
{
    reveal_strlit("");
    assert("nc.account_id = ?"@ + text::decimal(1) + ""@ =~= "nc.account_id = ?"@ + text::decimal(1));
    assert("nc.text LIKE ?"@ + text::decimal(2) + ""@ =~= "nc.text LIKE ?"@ + text::decimal(2));
    assert forall|n: int| "nc.created_at >= ?"@ + #[trigger] text::decimal(n) + ""@
        == "nc.created_at >= ?"@ + text::decimal(n) by {
        assert("nc.created_at >= ?"@ + text::decimal(n) + ""@ =~= "nc.created_at >= ?"@
            + text::decimal(n));
    }
    assert forall|n: int| "nc.created_at <= ?"@ + #[trigger] text::decimal(n) + ""@
        == "nc.created_at <= ?"@ + text::decimal(n) by {
        assert("nc.created_at <= ?"@ + text::decimal(n) + ""@ =~= "nc.created_at <= ?"@
            + text::decimal(n));
    }
}

/// A cached note, as far as the conditions on account and date go.
pub struct CachedNoteV {
    pub account_id: Seq<char>,
    pub created_at: Seq<char>,
}

/// Whether the `k`-th condition of a search lets a note through, as far as it
/// speaks of the account or of the date. Texts are compared character by
/// character.
pub open spec fn lets_through(st: (Seq<Seq<char>>, Seq<SqlValueV>), k: int, note: CachedNoteV) -> bool {
    let place = text::decimal(k + 1);
    &&& st.0[k] == "nc.account_id = ?"@ + place ==> st.1[k] == SqlValueV::Text(note.account_id)
    &&& st.0[k] == "nc.created_at >= ?"@ + place ==> (st.1[k] matches SqlValueV::Text(d)
        && !text::before(note.created_at, d))
    &&& st.0[k] == "nc.created_at <= ?"@ + place ==> (st.1[k] matches SqlValueV::Text(d)
        && !text::before(d, note.created_at))
}

/// A note is let through by the conditions on account and date if and only if it
/// is of the account, was created at the first date or later where there is one,
/// and at the last date or earlier where there is one.
pub proof fn law_search_keeps_to_account_and_dates(
    account_id: Seq<char>,
    query: Seq<char>,
    since_date: Option<Seq<char>>,
    until_date: Option<Seq<char>>,
    note: CachedNoteV,
)
    ensures
        ({
            let st = search_conditions(account_id, query, since_date, until_date);
            (forall|k: int| 0 <= k < st.0.len() ==> #[trigger] lets_through(st, k, note)) <==> {
                &&& note.account_id == account_id
                &&& since_date matches Some(d) ==> !text::before(note.created_at, d)
                &&& until_date matches Some(d) ==> !text::before(d, note.created_at)
            }
        }),
{
    law_search_has_the_conditions_asked_for(account_id, query, since_date, until_date);
    reveal_strlit("nc.account_id = ?");
    reveal_strlit("nc.rowid IN (SELECT rowid FROM notes_fts WHERE notes_fts MATCH ?");
    reveal_strlit("nc.text LIKE ?");
    reveal_strlit("nc.created_at >= ?");
    reveal_strlit("nc.created_at <= ?");
    let st = search_conditions(account_id, query, since_date, until_date);
    assert forall|k: int| 0 <= k < st.0.len() implies #[trigger] st.0[k].len() > 14 by {
    }
    assert forall|n: int| ("nc.account_id = ?"@ + #[trigger] text::decimal(n))[3] == 'a' && (
    "nc.created_at >= ?"@ + text::decimal(n))[3] == 'c' && ("nc.created_at <= ?"@ + text::decimal(
        n,
    ))[3] == 'c' && ("nc.created_at >= ?"@ + text::decimal(n))[14] == '>' && (
    "nc.created_at <= ?"@ + text::decimal(n))[14] == '<' && ("nc.text LIKE ?"@ + text::decimal(
        n,
    ))[3] == 't' && ("nc.rowid IN (SELECT rowid FROM notes_fts WHERE notes_fts MATCH ?"@
        + text::decimal(n) + ")"@)[3] == 'r' by {
    }
    let goal = note.account_id == account_id && (since_date matches Some(d) ==> !text::before(
        note.created_at,
        d,
    )) && (until_date matches Some(d) ==> !text::before(d, note.created_at));
    if forall|k: int| 0 <= k < st.0.len() ==> #[trigger] lets_through(st, k, note) {
        assert(lets_through(st, 0, note));
        let queries: int = if query.len() > 0 {
            1
        } else {
            0
        };
        let sinces: int = if since_date is Some {
            1
        } else {
            0
        };
        if since_date is Some {
            assert(lets_through(st, 1 + queries, note));
        }
        if until_date is Some {
            assert(lets_through(st, 1 + queries + sinces, note));
        }
        assert(goal);
    }
}

/// How a search is written: the conditions, all of which have to hold, then the
/// order by date that was asked for, and at most as many notes as the last
/// parameter says.
pub proof fn law_search_is_ordered_and_limited(
    account_id: Seq<char>,
    query: Seq<char>,
    limit: int,
    since_date: Option<Seq<char>>,
    until_date: Option<Seq<char>>,
    ascending: bool,
    k: int,
)
    ensures
        ({
            let st = search_conditions(account_id, query, since_date, until_date);
            let s = search_statement(account_id, query, limit, since_date, until_date, ascending);
            let end = if ascending {
                " ORDER BY nc.created_at ASC LIMIT ?"@
            } else {
                " ORDER BY nc.created_at DESC LIMIT ?"@
            };
            &&& "SELECT nc.note_json FROM notes_cache nc WHERE "@.is_prefix_of(s.sql)
            &&& (end + text::decimal(s.params.len() as int)).is_suffix_of(s.sql)
            &&& s.sql == "SELECT nc.note_json FROM notes_cache nc WHERE "@ + text::joined(
                st.0,
                " AND "@,
            ) + end + text::decimal(s.params.len() as int)
            &&& 0 <= k < st.0.len() ==> text::has_substring(
                text::joined(st.0, " AND "@),
                st.0[k],
            )
            &&& s.params.drop_last() == st.1
            &&& s.params.last() == SqlValueV::Int(limit)
        }),
        newest_search(account_id, query, limit) == search_statement(
            account_id,
            query,
            limit,
            None,
            None,
            false,
        ),
{
    let st = search_conditions(account_id, query, since_date, until_date);
    let s = search_statement(account_id, query, limit, since_date, until_date, ascending);
    let end = if ascending {
        " ORDER BY nc.created_at ASC LIMIT ?"@
    } else {
        " ORDER BY nc.created_at DESC LIMIT ?"@
    };
    reveal_strlit(" ORDER BY nc.created_at ASC LIMIT ?");
    reveal_strlit(" ORDER BY nc.created_at DESC LIMIT ?");
    reveal_strlit(" ORDER BY nc.created_at ");
    reveal_strlit("ASC");
    reveal_strlit("DESC");
    reveal_strlit(" LIMIT ?");
    assert(" ORDER BY nc.created_at "@ + "ASC"@ + " LIMIT ?"@ =~= " ORDER BY nc.created_at ASC LIMIT ?"@);
    assert(" ORDER BY nc.created_at "@ + "DESC"@ + " LIMIT ?"@
        =~= " ORDER BY nc.created_at DESC LIMIT ?"@);
    let head = "SELECT nc.note_json FROM notes_cache nc WHERE "@;
    let tail = end + text::decimal(s.params.len() as int);
    assert(s.sql =~= head + text::joined(st.0, " AND "@) + end + text::decimal(
        s.params.len() as int,
    ));
    assert(s.sql.take(head.len() as int) =~= head);
    assert(s.sql.skip(s.sql.len() - tail.len()) =~= tail);
    assert(s.params.drop_last() =~= st.1);
    text::law_joined_holds_its_parts(st.0, " AND "@, Seq::empty(), k);
}

/// A query is looked up as one phrase: between quotation marks, with each
/// quotation mark of its own written twice and everything else as it is.
pub proof fn law_phrase_is_quoted(query: Seq<char>, more: Seq<char>)
    ensures
        !query.contains('"') ==> fts_phrase(query) == seq!['"'] + query + seq!['"'],
        fts_phrase(query + seq!['"'] + more) == fts_phrase(query).drop_last() + seq!['"', '"']
            + fts_phrase(more).drop_first(),
{
    let by = seq!['"', '"'];
    text::law_replaced_character_by_character(query, seq!['"'], '"', by);
    text::law_replaced_character_by_character(query + seq!['"'], more, '"', by);
    assert(fts_phrase(query + seq!['"'] + more) =~= fts_phrase(query).drop_last() + by + fts_phrase(
        more,
    ).drop_first());
}

/// The statements about accounts and single notes read or change the row that
/// their parameter names, and no other.
pub proof fn law_account_statements_name_their_row()
    ensures
        LOAD_ACCOUNTS@ == "SELECT id, host, token, user_id, username, display_name, avatar_url, software FROM accounts"@ + " ORDER BY rowid"@,
        GET_ACCOUNT@ == "SELECT id, host, token, user_id, username, display_name, avatar_url, software FROM accounts"@ + " WHERE id = ?1"@,
        GET_ACCOUNT_BY_HOST@ == "SELECT id, host, token, user_id, username, display_name, avatar_url, software FROM accounts"@ + " WHERE host = ?1 LIMIT 1"@,
        GET_ACCOUNT_BY_HOST_USER@ == "SELECT id, host, token, user_id, username, display_name, avatar_url, software FROM accounts"@ + " WHERE host = ?1 AND user_id = ?2"@,
        DELETE_ACCOUNT@ == "DELETE FROM accounts"@ + " WHERE id = ?1"@,
        CLEAR_TOKEN@ == "UPDATE accounts SET token = ''"@ + " WHERE id = ?1"@,
        DELETE_CACHED_NOTE@ == "DELETE FROM notes_cache"@ + " WHERE note_id = ?1"@,
{
    reveal_strlit("SELECT id, host, token, user_id, username, display_name, avatar_url, software FROM accounts ORDER BY rowid");
    reveal_strlit("SELECT id, host, token, user_id, username, display_name, avatar_url, software FROM accounts WHERE id = ?1");
    reveal_strlit("SELECT id, host, token, user_id, username, display_name, avatar_url, software FROM accounts WHERE host = ?1 LIMIT 1");
    reveal_strlit("SELECT id, host, token, user_id, username, display_name, avatar_url, software FROM accounts WHERE host = ?1 AND user_id = ?2");
    reveal_strlit("DELETE FROM accounts WHERE id = ?1");
    reveal_strlit("UPDATE accounts SET token = '' WHERE id = ?1");
    reveal_strlit("DELETE FROM notes_cache WHERE note_id = ?1");
    reveal_strlit("SELECT id, host, token, user_id, username, display_name, avatar_url, software FROM accounts");
    reveal_strlit(" ORDER BY rowid");
    reveal_strlit(" WHERE id = ?1");
    reveal_strlit(" WHERE host = ?1 LIMIT 1");
    reveal_strlit(" WHERE host = ?1 AND user_id = ?2");
    reveal_strlit("DELETE FROM accounts");
    reveal_strlit("UPDATE accounts SET token = ''");
    reveal_strlit("DELETE FROM notes_cache");
    reveal_strlit(" WHERE note_id = ?1");
    assert(LOAD_ACCOUNTS@ =~= "SELECT id, host, token, user_id, username, display_name, avatar_url, software FROM accounts"@ + " ORDER BY rowid"@);
    assert(GET_ACCOUNT@ =~= "SELECT id, host, token, user_id, username, display_name, avatar_url, software FROM accounts"@ + " WHERE id = ?1"@);
    assert(GET_ACCOUNT_BY_HOST@ =~= "SELECT id, host, token, user_id, username, display_name, avatar_url, software FROM accounts"@ + " WHERE host = ?1 LIMIT 1"@);
    assert(GET_ACCOUNT_BY_HOST_USER@ =~= "SELECT id, host, token, user_id, username, display_name, avatar_url, software FROM accounts"@ + " WHERE host = ?1 AND user_id = ?2"@);
    assert(DELETE_ACCOUNT@ =~= "DELETE FROM accounts"@ + " WHERE id = ?1"@);
    assert(CLEAR_TOKEN@ =~= "UPDATE accounts SET token = ''"@ + " WHERE id = ?1"@);
    assert(DELETE_CACHED_NOTE@ =~= "DELETE FROM notes_cache"@ + " WHERE note_id = ?1"@);
}

/// The cached notes of a timeline come newest first, and a page of them is the
/// same with one more condition: that they were created at the given date or
/// earlier. Each parameter stands where the condition on it does.
pub proof fn law_timeline_pages_go_back_in_time(
    account_id: Seq<char>,
    timeline_type: Seq<char>,
    before: Seq<char>,
    limit: int,
)
    ensures
        CACHED_TIMELINE@ == "SELECT note_json FROM notes_cache WHERE account_id = ?1 AND timeline_type = ?2"@ + " ORDER BY created_at DESC LIMIT ?"@ + "3"@,
        CACHED_TIMELINE_BEFORE@ == "SELECT note_json FROM notes_cache WHERE account_id = ?1 AND timeline_type = ?2"@ + " AND created_at <= ?3"@ + " ORDER BY created_at DESC LIMIT ?"@ + "4"@,
        CACHE_DATE_RANGE@ == "SELECT MIN(created_at), MAX(created_at) FROM notes_cache WHERE "@ + "account_id = ?1 AND timeline_type = ?2"@,
        ({
            let newest = timeline_query(account_id, timeline_type, limit);
            let page = timeline_page_query(account_id, timeline_type, before, limit);
            &&& newest.sql == CACHED_TIMELINE@
            &&& page.sql == CACHED_TIMELINE_BEFORE@
            &&& newest.params.len() == 3
            &&& page.params.len() == 4
            &&& newest.params[0] == SqlValueV::Text(account_id) && page.params[0]
                == SqlValueV::Text(account_id)
            &&& newest.params[1] == SqlValueV::Text(timeline_type) && page.params[1]
                == SqlValueV::Text(timeline_type)
            &&& page.params[2] == SqlValueV::Text(before)
            &&& newest.params[2] == SqlValueV::Int(limit) && page.params[3] == SqlValueV::Int(limit)
        }),
{
    reveal_strlit("SELECT note_json FROM notes_cache WHERE account_id = ?1 AND timeline_type = ?2 ORDER BY created_at DESC LIMIT ?3");
    reveal_strlit("SELECT note_json FROM notes_cache WHERE account_id = ?1 AND timeline_type = ?2 AND created_at <= ?3 ORDER BY created_at DESC LIMIT ?4");
    reveal_strlit("SELECT MIN(created_at), MAX(created_at) FROM notes_cache WHERE account_id = ?1 AND timeline_type = ?2");
    reveal_strlit("SELECT note_json FROM notes_cache WHERE account_id = ?1 AND timeline_type = ?2");
    reveal_strlit(" ORDER BY created_at DESC LIMIT ?");
    reveal_strlit("3");
    reveal_strlit(" AND created_at <= ?3");
    reveal_strlit("4");
    reveal_strlit("SELECT MIN(created_at), MAX(created_at) FROM notes_cache WHERE ");
    reveal_strlit("account_id = ?1 AND timeline_type = ?2");
    assert(CACHED_TIMELINE@ =~= "SELECT note_json FROM notes_cache WHERE account_id = ?1 AND timeline_type = ?2"@ + " ORDER BY created_at DESC LIMIT ?"@ + "3"@);
    assert(CACHED_TIMELINE_BEFORE@ =~= "SELECT note_json FROM notes_cache WHERE account_id = ?1 AND timeline_type = ?2"@ + " AND created_at <= ?3"@ + " ORDER BY created_at DESC LIMIT ?"@ + "4"@);
    assert(CACHE_DATE_RANGE@ =~= "SELECT MIN(created_at), MAX(created_at) FROM notes_cache WHERE "@ + "account_id = ?1 AND timeline_type = ?2"@);
}

/// What has expired is exactly what is not read any more: summaries are read
/// where they expire later than the given time, and cleaned up otherwise.
pub proof fn law_expired_summaries_are_not_read()
    ensures
        GET_CACHED_SUMMARY@ == "SELECT "@ + "title, description, image, site_name, icon, player_url, player_width, player_height, player_allow, final_url, sensitive, medias_json FROM ogp_cache WHERE "@ + "url = ?1 AND "@ + "expires_at > ?2"@,
        LOAD_SUMMARY_CACHE@ == "SELECT url, "@ + "title, description, image, site_name, icon, player_url, player_width, player_height, player_allow, final_url, sensitive, medias_json FROM ogp_cache WHERE "@ + "expires_at > ?1"@ + " LIMIT ?2"@,
        CLEANUP_EXPIRED_OGP@ == "DELETE FROM ogp_cache WHERE "@ + "expires_at <= ?1"@,
{
    reveal_strlit("SELECT title, description, image, site_name, icon, player_url, player_width, player_height, player_allow, final_url, sensitive, medias_json FROM ogp_cache WHERE url = ?1 AND expires_at > ?2");
    reveal_strlit("SELECT url, title, description, image, site_name, icon, player_url, player_width, player_height, player_allow, final_url, sensitive, medias_json FROM ogp_cache WHERE expires_at > ?1 LIMIT ?2");
    reveal_strlit("DELETE FROM ogp_cache WHERE expires_at <= ?1");
    reveal_strlit("SELECT ");
    reveal_strlit("title, description, image, site_name, icon, player_url, player_width, player_height, player_allow, final_url, sensitive, medias_json FROM ogp_cache WHERE ");
    reveal_strlit("url = ?1 AND ");
    reveal_strlit("expires_at > ?2");
    reveal_strlit("SELECT url, ");
    reveal_strlit("expires_at > ?1");
    reveal_strlit(" LIMIT ?2");
    reveal_strlit("DELETE FROM ogp_cache WHERE ");
    reveal_strlit("expires_at <= ?1");
    assert(GET_CACHED_SUMMARY@ =~= "SELECT "@ + "title, description, image, site_name, icon, player_url, player_width, player_height, player_allow, final_url, sensitive, medias_json FROM ogp_cache WHERE "@ + "url = ?1 AND "@ + "expires_at > ?2"@);
    assert(LOAD_SUMMARY_CACHE@ =~= "SELECT url, "@ + "title, description, image, site_name, icon, player_url, player_width, player_height, player_allow, final_url, sensitive, medias_json FROM ogp_cache WHERE "@ + "expires_at > ?1"@ + " LIMIT ?2"@);
    assert(CLEANUP_EXPIRED_OGP@ =~= "DELETE FROM ogp_cache WHERE "@ + "expires_at <= ?1"@);
}

/// Which column holds what, in the order in which the statements name the
/// columns: of an account, of a server, of a cached note and of a summary.
pub proof fn law_columns_hold_what_they_are_named_for(
    a: Account,
    s: StoredServer,
    note: NormalizedNote,
    note_json: Seq<char>,
    timeline_type: Seq<char>,
    now: int,
    url: Seq<char>,
    row: SummaryRow,
    expires_at: int,
)
    ensures
        ({
            let c = account_row(a);
            &&& c.len() == 8
            &&& c[0] == SqlValueV::Text(a.id@) && c[1] == SqlValueV::Text(a.host@)
            &&& c[2] == SqlValueV::Text(a.token@) && c[3] == SqlValueV::Text(a.user_id@)
            &&& c[4] == SqlValueV::Text(a.username@) && c[7] == SqlValueV::Text(a.software@)
            &&& c[5] == match a.display_name {
                Some(t) => SqlValueV::Text(t@),
                None => SqlValueV::Null,
            }
            &&& c[6] == match a.avatar_url {
                Some(t) => SqlValueV::Text(t@),
                None => SqlValueV::Null,
            }
        }),
        ({
            let c = server_row(s);
            &&& c.len() == 5
            &&& c[0] == SqlValueV::Text(s.host@) && c[1] == SqlValueV::Text(s.software@)
            &&& c[2] == SqlValueV::Text(s.version@) && c[3] == SqlValueV::Text(s.features_json@)
            &&& c[4] == SqlValueV::Int(s.updated_at as int)
        }),
        ({
            let c = cache_statement(note, note_json, timeline_type, now).params;
            &&& cache_statement(note, note_json, timeline_type, now).sql == CACHE_NOTE@
            &&& c.len() == 8
            &&& c[0] == SqlValueV::Text(note.id@) && c[1] == SqlValueV::Text(note.account_id@)
            &&& c[2] == SqlValueV::Text(note.server_host@) && c[3] == SqlValueV::Text(
                note.created_at@,
            )
            &&& c[4] == match note.text {
                Some(t) => SqlValueV::Text(t@),
                None => SqlValueV::Null,
            }
            &&& c[5] == SqlValueV::Text(note_json) && c[6] == SqlValueV::Int(now)
            &&& c[7] == SqlValueV::Text(timeline_type)
        }),
        ({
            let c = summary_statement(url, row, expires_at).params;
            &&& summary_statement(url, row, expires_at).sql == CACHE_SUMMARY@
            &&& c.len() == 14
            &&& c[0] == SqlValueV::Text(url) && c[13] == SqlValueV::Int(expires_at)
            &&& c[1] == text_or_null(text::opt_text(row.title))
            &&& c[2] == text_or_null(text::opt_text(row.description))
            &&& c[3] == text_or_null(text::opt_text(row.thumbnail))
            &&& c[4] == text_or_null(text::opt_text(row.sitename))
            &&& c[5] == text_or_null(text::opt_text(row.icon))
            &&& c[6] == text_or_null(text::opt_text(row.player_url))
            &&& c[7] == u32_or_null(row.player_width) && c[8] == u32_or_null(row.player_height)
            &&& c[9] == text_or_null(text::opt_text(row.player_allow))
            &&& c[10] == text_or_null(text::opt_text(row.final_url))
            &&& c[11] == SqlValueV::Int(
                if row.sensitive {
                    1
                } else {
                    0
                },
            )
            &&& c[12] == text_or_null(text::opt_text(row.medias_json))
        }),
{
}

/// Every cached text that is found is handed on, in the order in which it was
/// found; only rows without one are passed over.
pub proof fn law_found_texts_are_complete(
    rows: Seq<Seq<SqlValueV>>,
    row: Seq<SqlValueV>,
    found: Seq<char>,
)
    ensures
        row.len() > 0 && row[0] == SqlValueV::Text(found) ==> texts_among(rows.push(row))
            == texts_among(rows).push(found),
        row.len() == 0 || !(row[0] is Text) ==> texts_among(rows.push(row)) == texts_among(rows),
        texts_among(Seq::<Seq<SqlValueV>>::empty()).len() == 0,
{
    assert(rows.push(row).drop_last() =~= rows);
}

/// The dates of the cache are read as they are: the oldest and the newest where
/// there are both, and none where the cache is empty.
pub proof fn law_date_range_reads_back(
    oldest: Seq<char>,
    newest: Seq<char>,
    r: Result<Option<(String, String)>, ColumnError>,
    none: Result<Option<(String, String)>, ColumnError>,
)
    requires
        date_range_read(seq![SqlValueV::Text(oldest), SqlValueV::Text(newest)], r),
        date_range_read(seq![SqlValueV::Null, SqlValueV::Null], none),
    ensures
        r matches Ok(Some(range)) && range.0@ == oldest && range.1@ == newest,
        none matches Ok(None),
{
    let row = seq![SqlValueV::Text(oldest), SqlValueV::Text(newest)];
    let empty = seq![SqlValueV::Null, SqlValueV::Null];
    assert(row[0] is Text && row[1] is Text);
    assert(empty[0] is Null && empty[1] is Null);
}

/// What is stored anew takes the place of what was stored: an account of the
/// same user on the same server keeps its id, a server its name, a cached note of
/// the same account its date and text, and a summary its address. Everything else
/// is replaced.
pub proof fn law_storing_again_replaces()
    ensures
        UPSERT_ACCOUNT@ == "INSERT INTO accounts (id, host, token, user_id, username, display_name, avatar_url, software)"@ + " VALUES (?1, ?2, ?3, ?4, ?5, ?6, ?7, ?8)"@ + " ON CONFLICT(host, user_id)"@ + " DO UPDATE SET token = excluded.token, username = excluded.username, display_name = excluded.display_name, avatar_url = excluded.avatar_url, software = excluded.software"@,
        UPSERT_SERVER@ == "INSERT INTO servers (host, software, version, features_json, updated_at)"@ + " VALUES (?1, ?2, ?3, ?4, ?5)"@ + " ON CONFLICT(host)"@ + " DO UPDATE SET software = excluded.software, version = excluded.version, features_json = excluded.features_json, updated_at = excluded.updated_at"@,
        CACHE_NOTE@ == "INSERT INTO notes_cache (note_id, account_id, server_host, created_at, text, note_json, cached_at, timeline_type)"@ + " VALUES (?1, ?2, ?3, ?4, ?5, ?6, ?7, ?8)"@ + " ON CONFLICT(note_id, account_id)"@ + " DO UPDATE SET note_json = excluded.note_json, cached_at = excluded.cached_at, timeline_type = excluded.timeline_type"@,
        CACHE_SUMMARY@ == "INSERT INTO ogp_cache (url, title, description, image, site_name, icon, player_url, player_width, player_height, player_allow, final_url, sensitive, medias_json, expires_at)"@ + " VALUES (?1, ?2, ?3, ?4, ?5, ?6, ?7, ?8, ?9, ?10, ?11, ?12, ?13, ?14)"@ + " ON CONFLICT(url)"@ + " DO UPDATE SET title = excluded.title, description = excluded.description, image = excluded.image, site_name = excluded.site_name, icon = excluded.icon, player_url = excluded.player_url, player_width = excluded.player_width, player_height = excluded.player_height, player_allow = excluded.player_allow, final_url = excluded.final_url, sensitive = excluded.sensitive, medias_json = excluded.medias_json, expires_at = excluded.expires_at"@,
{
    reveal_strlit("INSERT INTO accounts (id, host, token, user_id, username, display_name, avatar_url, software) VALUES (?1, ?2, ?3, ?4, ?5, ?6, ?7, ?8) ON CONFLICT(host, user_id) DO UPDATE SET token = excluded.token, username = excluded.username, display_name = excluded.display_name, avatar_url = excluded.avatar_url, software = excluded.software");
    reveal_strlit("INSERT INTO servers (host, software, version, features_json, updated_at) VALUES (?1, ?2, ?3, ?4, ?5) ON CONFLICT(host) DO UPDATE SET software = excluded.software, version = excluded.version, features_json = excluded.features_json, updated_at = excluded.updated_at");
    reveal_strlit("INSERT INTO notes_cache (note_id, account_id, server_host, created_at, text, note_json, cached_at, timeline_type) VALUES (?1, ?2, ?3, ?4, ?5, ?6, ?7, ?8) ON CONFLICT(note_id, account_id) DO UPDATE SET note_json = excluded.note_json, cached_at = excluded.cached_at, timeline_type = excluded.timeline_type");
    reveal_strlit("INSERT INTO ogp_cache (url, title, description, image, site_name, icon, player_url, player_width, player_height, player_allow, final_url, sensitive, medias_json, expires_at) VALUES (?1, ?2, ?3, ?4, ?5, ?6, ?7, ?8, ?9, ?10, ?11, ?12, ?13, ?14) ON CONFLICT(url) DO UPDATE SET title = excluded.title, description = excluded.description, image = excluded.image, site_name = excluded.site_name, icon = excluded.icon, player_url = excluded.player_url, player_width = excluded.player_width, player_height = excluded.player_height, player_allow = excluded.player_allow, final_url = excluded.final_url, sensitive = excluded.sensitive, medias_json = excluded.medias_json, expires_at = excluded.expires_at");
    reveal_strlit("INSERT INTO accounts (id, host, token, user_id, username, display_name, avatar_url, software)");
    reveal_strlit(" VALUES (?1, ?2, ?3, ?4, ?5, ?6, ?7, ?8)");
    reveal_strlit(" ON CONFLICT(host, user_id)");
    reveal_strlit(" DO UPDATE SET token = excluded.token, username = excluded.username, display_name = excluded.display_name, avatar_url = excluded.avatar_url, software = excluded.software");
    reveal_strlit("INSERT INTO servers (host, software, version, features_json, updated_at)");
    reveal_strlit(" VALUES (?1, ?2, ?3, ?4, ?5)");
    reveal_strlit(" ON CONFLICT(host)");
    reveal_strlit(" DO UPDATE SET software = excluded.software, version = excluded.version, features_json = excluded.features_json, updated_at = excluded.updated_at");
    reveal_strlit("INSERT INTO notes_cache (note_id, account_id, server_host, created_at, text, note_json, cached_at, timeline_type)");
    reveal_strlit(" ON CONFLICT(note_id, account_id)");
    reveal_strlit(" DO UPDATE SET note_json = excluded.note_json, cached_at = excluded.cached_at, timeline_type = excluded.timeline_type");
    reveal_strlit("INSERT INTO ogp_cache (url, title, description, image, site_name, icon, player_url, player_width, player_height, player_allow, final_url, sensitive, medias_json, expires_at)");
    reveal_strlit(" VALUES (?1, ?2, ?3, ?4, ?5, ?6, ?7, ?8, ?9, ?10, ?11, ?12, ?13, ?14)");
    reveal_strlit(" ON CONFLICT(url)");
    reveal_strlit(" DO UPDATE SET title = excluded.title, description = excluded.description, image = excluded.image, site_name = excluded.site_name, icon = excluded.icon, player_url = excluded.player_url, player_width = excluded.player_width, player_height = excluded.player_height, player_allow = excluded.player_allow, final_url = excluded.final_url, sensitive = excluded.sensitive, medias_json = excluded.medias_json, expires_at = excluded.expires_at");
    assert(UPSERT_ACCOUNT@ =~= "INSERT INTO accounts (id, host, token, user_id, username, display_name, avatar_url, software)"@ + " VALUES (?1, ?2, ?3, ?4, ?5, ?6, ?7, ?8)"@ + " ON CONFLICT(host, user_id)"@ + " DO UPDATE SET token = excluded.token, username = excluded.username, display_name = excluded.display_name, avatar_url = excluded.avatar_url, software = excluded.software"@);
    assert(UPSERT_SERVER@ =~= "INSERT INTO servers (host, software, version, features_json, updated_at)"@ + " VALUES (?1, ?2, ?3, ?4, ?5)"@ + " ON CONFLICT(host)"@ + " DO UPDATE SET software = excluded.software, version = excluded.version, features_json = excluded.features_json, updated_at = excluded.updated_at"@);
    assert(CACHE_NOTE@ =~= "INSERT INTO notes_cache (note_id, account_id, server_host, created_at, text, note_json, cached_at, timeline_type)"@ + " VALUES (?1, ?2, ?3, ?4, ?5, ?6, ?7, ?8)"@ + " ON CONFLICT(note_id, account_id)"@ + " DO UPDATE SET note_json = excluded.note_json, cached_at = excluded.cached_at, timeline_type = excluded.timeline_type"@);
    assert(CACHE_SUMMARY@ =~= "INSERT INTO ogp_cache (url, title, description, image, site_name, icon, player_url, player_width, player_height, player_allow, final_url, sensitive, medias_json, expires_at)"@ + " VALUES (?1, ?2, ?3, ?4, ?5, ?6, ?7, ?8, ?9, ?10, ?11, ?12, ?13, ?14)"@ + " ON CONFLICT(url)"@ + " DO UPDATE SET title = excluded.title, description = excluded.description, image = excluded.image, site_name = excluded.site_name, icon = excluded.icon, player_url = excluded.player_url, player_width = excluded.player_width, player_height = excluded.player_height, player_allow = excluded.player_allow, final_url = excluded.final_url, sensitive = excluded.sensitive, medias_json = excluded.medias_json, expires_at = excluded.expires_at"@);
}

/// What a column has to hold to be read, by what is expected of it: text, text or nothing, a
/// number, and a number of the size that is wanted, or nothing.
pub proof fn law_columns_are_checked(s: Seq<char>, n: int)
    ensures
        fits(SqlValueV::Text(s), ColumnKind::Text) && fits(SqlValueV::Text(s), ColumnKind::OptText),
        fits(SqlValueV::Null, ColumnKind::OptText) && !fits(SqlValueV::Null, ColumnKind::Text),
        !fits(SqlValueV::Int(n), ColumnKind::Text) && !fits(SqlValueV::Int(n), ColumnKind::OptText),
        fits(SqlValueV::Int(n), ColumnKind::Int) && !fits(SqlValueV::Null, ColumnKind::Int),
        fits(SqlValueV::Int(n), ColumnKind::Int32) <==> -2147483648 <= n <= 2147483647,
        fits(SqlValueV::Int(n), ColumnKind::OptUInt32) <==> 0 <= n <= 4294967295,
        fits(SqlValueV::Null, ColumnKind::OptUInt32) && !fits(SqlValueV::Null, ColumnKind::Int32),
        !fits(SqlValueV::Text(s), ColumnKind::Int) && !fits(SqlValueV::Text(s), ColumnKind::Int32)
            && !fits(SqlValueV::Text(s), ColumnKind::OptUInt32),
{
}

/// Of a list of rows each is read, in order, or the first that cannot be read is told; of the
/// first row alone that row is.
pub proof fn law_rows_are_read_in_order(
    rows: Seq<Seq<SqlValueV>>,
    all: Result<Vec<Account>, ColumnError>,
    first: Result<Option<Account>, ColumnError>,
    i: int,
)
    requires
        all_read(rows, account_reader(), all),
        first_read(rows, account_reader(), first),
    ensures
        all matches Ok(v) ==> v@.len() == rows.len() && (0 <= i < rows.len() ==> account_read(
            rows[i],
            Ok(v@[i]),
        )),
        all is Err ==> rows.len() > 0,
        first matches Ok(None) ==> rows.len() == 0,
        first matches Ok(Some(a)) ==> rows.len() > 0 && account_read(rows[0], Ok(a)),
        rows.len() == 0 ==> (first matches Ok(None)),
{
    if let Ok(v) = all {
        if 0 <= i < rows.len() {
            let read = account_reader();
            assert(read(rows[i], Ok(v@[i])));
        }
    }
}

/// A row that holds the address of a page and then its summary reads back as that summary of
/// that page; where no address is in front, the first column is told.
pub proof fn law_summary_reads_back_with_its_address(
    url: Seq<char>,
    s: SummaryRow,
    r: Result<SummaryRow, ColumnError>,
    odd: SqlValueV,
    rest: Seq<SqlValueV>,
    refused: Result<SummaryRow, ColumnError>,
)
    requires
        full_summary_read(seq![SqlValueV::Text(url)] + summary_row(s), r),
        !(odd is Text),
        full_summary_read(seq![odd] + rest, refused),
    ensures
        r matches Ok(b) && b.url@ == url && summary_row(b) == summary_row(s) && b.sensitive
            == s.sensitive,
        refused matches Err(e) && e.column == 0,
{
    let row = seq![SqlValueV::Text(url)] + summary_row(s);
    assert(row.skip(1) =~= summary_row(s));
    assert(summary_row(s).take(12) =~= summary_row(s));
    assert((seq![odd] + rest)[0] == odd);
    match r {
        Ok(b) => {
            assert forall|i: int| 0 <= i < 12 implies summary_row(b)[i] == summary_row(s)[i] by {
                if i != 10 {
                    assert(summary_row(b).update(10, summary_row(s)[10])[i] == summary_row(b)[i]);
                }
            }
            assert(summary_row(b) =~= summary_row(s));
        },
        Err(e) => {
            let k = e.column - 1;
            assert(summary_columns().len() == 12);
            assert(column_ok(summary_row(s), k, summary_columns()[k]));
        },
    }
}

/// The column that is told of a row that is no account is one that an account has, it does not
/// hold text, and those before it hold no number.
pub proof fn law_first_column_that_does_not_fit_is_told(
    row: Seq<SqlValueV>,
    e: ColumnError,
    j: int,
)
    requires
        account_read(row, Err(e)),
    ensures
        e.column < 8,
        e.column < row.len() ==> !(row[e.column as int] is Text),
        0 <= j < e.column ==> j < row.len() && !(row[j] is Int),
{
    assert(account_columns().len() == 8);
    if 0 <= j < e.column {
        assert(column_ok(row, j, account_columns()[j]));
    }
}

} // verus!
