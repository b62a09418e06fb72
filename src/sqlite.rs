//! The calls into `rusqlite` that the store and the schema manager make, each
//! with what is assumed of it.
//!
//! A database is modelled by the rows of its `sites` table, as a map from url
//! to title and text (`stored_sites`); by the rows of its `schema_version`
//! table, most recently applied first (`schema_rows`, `None` where the table is missing); and,
//! while a transaction is open, by what those two were when it began
//! (`begun_with`), with whether one is open (`in_transaction`). Whether a
//! saved page matches a full-text query, and the snippet shown for it, depend
//! on the query and the page's title and text alone (`fts_matches`,
//! `fts_snippet`).
use vstd::prelude::*;

verus! {

#[verifier::external_type_specification]
#[verifier::external_body]
pub struct ExConnection(rusqlite::Connection);

#[verifier::external_type_specification]
#[verifier::external_body]
pub struct ExSqliteError(rusqlite::Error);

/// The statement that saves a page, replacing what was saved under its url.
pub const UPSERT_SITE: &'static str = "INSERT INTO sites (url, title, inner_text) VALUES (?1, ?2, ?3) ON CONFLICT (url) DO UPDATE SET title = excluded.title, inner_text = excluded.inner_text, updated_at = CURRENT_TIMESTAMP";

/// The statement that forgets a page.
pub const REMOVE_SITE: &'static str = "DELETE FROM sites WHERE url = ?1";

/// The statement that finds pages: url, title and snippet of each match, best
/// match first, a page of them at a given offset.
pub const SEARCH_SITES: &'static str = "SELECT s.url, s.title, snippet(sites_fts, 2, '<b>', '</b>', '...', 40) FROM sites_fts JOIN sites s ON sites_fts.rowid = s.id WHERE sites_fts MATCH ?1 ORDER BY rank LIMIT ?2 OFFSET ?3";

/// Begins a transaction.
pub const BEGIN: &'static str = "BEGIN";

/// Makes the changes of the open transaction permanent.
pub const COMMIT: &'static str = "COMMIT";

/// Undoes the changes of the open transaction.
pub const ROLLBACK: &'static str = "ROLLBACK";

/// The tables of a new database: the version record, the saved pages, their
/// full-text index over title and text, and the triggers that keep the index
/// in step with the pages.
pub const CREATE_SCHEMA: &'static str = "
CREATE TABLE schema_version (
    id INTEGER PRIMARY KEY AUTOINCREMENT,
    major INTEGER NOT NULL,
    minor INTEGER NOT NULL,
    patch INTEGER NOT NULL,
    applied_at TIMESTAMP NOT NULL DEFAULT CURRENT_TIMESTAMP
);
CREATE TABLE sites (
    id INTEGER PRIMARY KEY AUTOINCREMENT,
    url TEXT NOT NULL UNIQUE,
    title TEXT NOT NULL,
    inner_text TEXT NOT NULL,
    created_at TIMESTAMP NOT NULL DEFAULT CURRENT_TIMESTAMP,
    updated_at TIMESTAMP NOT NULL DEFAULT CURRENT_TIMESTAMP
);
CREATE VIRTUAL TABLE sites_fts USING fts5(
    url UNINDEXED,
    title,
    inner_text,
    content = 'sites',
    content_rowid = 'id'
);
CREATE TRIGGER sites_after_insert AFTER INSERT ON sites BEGIN
    INSERT INTO sites_fts (rowid, url, title, inner_text)
    VALUES (new.id, new.url, new.title, new.inner_text);
END;
CREATE TRIGGER sites_after_delete AFTER DELETE ON sites BEGIN
    INSERT INTO sites_fts (sites_fts, rowid, url, title, inner_text)
    VALUES ('delete', old.id, old.url, old.title, old.inner_text);
END;
CREATE TRIGGER sites_after_update AFTER UPDATE ON sites BEGIN
    INSERT INTO sites_fts (sites_fts, rowid, url, title, inner_text)
    VALUES ('delete', old.id, old.url, old.title, old.inner_text);
    INSERT INTO sites_fts (rowid, url, title, inner_text)
    VALUES (new.id, new.url, new.title, new.inner_text);
END;
";

/// Whether the version table exists.
pub const VERSION_TABLE_EXISTS: &'static str = "SELECT EXISTS (SELECT 1 FROM sqlite_master WHERE type = 'table' AND name = 'schema_version')";

/// Whether the version table has a row.
pub const VERSION_ROW_EXISTS: &'static str = "SELECT EXISTS (SELECT 1 FROM schema_version)";

/// The most recently applied version: the row with the latest time of
/// application, the last recorded among rows applied at the same time.
pub const LATEST_VERSION: &'static str = "SELECT major, minor, patch FROM schema_version ORDER BY applied_at DESC, id DESC LIMIT 1";

/// Records a version as applied now, or at the latest time already recorded
/// where the clock shows an earlier one, so that it is the most recent row.
pub const INSERT_VERSION: &'static str = "INSERT INTO schema_version (major, minor, patch, applied_at) VALUES (?1, ?2, ?3, MAX(CURRENT_TIMESTAMP, COALESCE((SELECT MAX(applied_at) FROM schema_version), CURRENT_TIMESTAMP)))";

/// The saved pages of a database: url to title and text. A database without
/// the `sites` table has none.
pub uninterp spec fn stored_sites(c: rusqlite::Connection) -> Map<Seq<char>, (Seq<char>, Seq<char>)>;

/// The rows of the `schema_version` table, most recent first: by time of
/// application, latest first, and by id, highest first, among rows applied at
/// the same time; `None` where the table does not exist.
pub uninterp spec fn schema_rows(c: rusqlite::Connection) -> Option<Seq<(i64, i64, i64)>>;

/// The saved pages and the version rows as they were when the open
/// transaction began.
pub uninterp spec fn begun_with(c: rusqlite::Connection) -> (
    Map<Seq<char>, (Seq<char>, Seq<char>)>,
    Option<Seq<(i64, i64, i64)>>,
);

/// Whether a transaction is open on the connection.
pub uninterp spec fn in_transaction(c: rusqlite::Connection) -> bool;

/// Whether the database records the schema version 0.1.0 as its most recently applied, and so
/// has the tables that `CREATE_SCHEMA` makes.
pub open spec fn at_current_schema(c: rusqlite::Connection) -> bool {
    &&& schema_rows(c) is Some
    &&& schema_rows(c)->0.len() > 0
    &&& schema_rows(c)->0[0] == (0i64, 1i64, 0i64)
}

/// Whether the full-text query `q` matches a page with `title` and `text`
/// (the indexed columns; the tokenizer is the default one).
pub uninterp spec fn fts_matches(q: Seq<char>, title: Seq<char>, text: Seq<char>) -> bool;

/// The snippet that the search shows for a page with text `text` that the
/// full-text query `q` matches: a window of its text around the matches,
/// matched terms between `<b>` and `</b>`, and `...` where text is left out.
pub uninterp spec fn fts_snippet(q: Seq<char>, text: Seq<char>) -> Seq<char>;

/// The urls of the pages in `sites` that the full-text query `q` matches.
pub open spec fn matching_urls(sites: Map<Seq<char>, (Seq<char>, Seq<char>)>, q: Seq<char>) -> Set<Seq<char>> {
    sites.dom().filter(|u: Seq<char>| fts_matches(q, sites[u].0, sites[u].1))
}

/// How many saved pages the full-text query `q` matches: the rows that
/// `SEARCH_SITES` yields with no limit or offset.
pub open spec fn match_count(c: rusqlite::Connection, q: Seq<char>) -> nat {
    matching_urls(stored_sites(c), q).len()
}

/// Relies on `rusqlite::Connection::open_in_memory`: a new, empty database
/// that lives in memory, with no tables.
#[verifier::external_body]
pub(crate) fn open_in_memory() -> (r: Result<rusqlite::Connection, rusqlite::Error>)
    ensures
        r matches Ok(c) ==> stored_sites(c).dom() == Set::<Seq<char>>::empty(),
        r matches Ok(c) ==> schema_rows(c) is None,
        r matches Ok(c) ==> !in_transaction(c),
{
    rusqlite::Connection::open_in_memory()
}

/// Relies on `rusqlite::Connection::open`: the database in the file at
/// `path`, created where there is none. A new connection has no transaction open.
#[verifier::external_body]
pub(crate) fn open_file(path: &str) -> (r: Result<rusqlite::Connection, rusqlite::Error>)
    ensures
        r matches Ok(c) ==> !in_transaction(c),
{
    rusqlite::Connection::open(path)
}

/// Relies on `rusqlite::Connection::execute`: runs one statement with `args`
/// bound to its parameters in order. With the tables that `CREATE_SCHEMA`
/// makes (`at_current_schema`), `UPSERT_SITE` saves a page under its url, replacing what was there,
/// and `REMOVE_SITE` forgets a url; neither touches the version rows. Outside
/// a transaction neither opens one, and a statement that fails is undone by
/// SQLite (inside one, some failures undo the whole transaction).
#[verifier::external_body]
pub(crate) fn execute(c: &mut rusqlite::Connection, sql: &str, args: &[&str]) -> (r: Result<
    usize,
    rusqlite::Error,
>)
    requires
        sql@ == UPSERT_SITE@ || sql@ == REMOVE_SITE@,
    ensures
        r is Ok && sql@ == UPSERT_SITE@ && args@.len() == 3 && at_current_schema(*old(c)) ==> stored_sites(*final(c))
            == stored_sites(*old(c)).insert(args@[0]@, (args@[1]@, args@[2]@)),
        r is Ok && sql@ == REMOVE_SITE@ && args@.len() == 1 && at_current_schema(*old(c)) ==> stored_sites(*final(c))
            == stored_sites(*old(c)).remove(args@[0]@),
        r is Err && (sql@ == UPSERT_SITE@ || sql@ == REMOVE_SITE@) && !in_transaction(*old(c))
            ==> stored_sites(*final(c)) == stored_sites(*old(c)),
        (r is Ok || !in_transaction(*old(c))) && (sql@ == UPSERT_SITE@ || sql@ == REMOVE_SITE@) ==> schema_rows(
            *final(c),
        ) == schema_rows(*old(c)),
        (sql@ == UPSERT_SITE@ || sql@ == REMOVE_SITE@) && !in_transaction(*old(c)) ==> !in_transaction(
            *final(c),
        ),
{
    c.execute(sql, rusqlite::params_from_iter(args.iter()))
}

/// Relies on `rusqlite::Connection::prepare` and `rusqlite::Statement::query_map`:
/// the rows of `SEARCH_SITES` for the query `q`, at most `limit` of them after
/// skipping `offset`, each a url and title of a saved page that `q` matches
/// (with the tables that `CREATE_SCHEMA` makes)
/// and its snippet, which `SEARCH_SITES` takes from the text column. The join on the pages' unique ids yields each page at most
/// once.
#[verifier::external_body]
pub(crate) fn query_sites(
    c: &rusqlite::Connection,
    sql: &str,
    q: &str,
    limit: i64,
    offset: i64,
) -> (r: Result<Vec<(String, String, String)>, rusqlite::Error>)
    requires
        sql@ == SEARCH_SITES@,
    ensures
        r matches Ok(rows) ==> (limit >= 0 && offset >= 0 && at_current_schema(*c) ==> {
            &&& stored_sites(*c).dom().finite()
            &&& rows@.len() == if match_count(*c, q@) <= offset {
                0
            } else if match_count(*c, q@) - offset <= limit {
                match_count(*c, q@) - offset
            } else {
                limit as int
            }
            &&& forall|i: int|
                0 <= i < rows@.len() ==> {
                    &&& stored_sites(*c).contains_key(#[trigger] rows@[i].0@)
                    &&& fts_matches(q@, stored_sites(*c)[rows@[i].0@].0, stored_sites(*c)[rows@[i].0@].1)
                    &&& stored_sites(*c)[rows@[i].0@].0 == rows@[i].1@
                    &&& fts_snippet(q@, stored_sites(*c)[rows@[i].0@].1) == rows@[i].2@
                }
            &&& forall|i: int, j: int|
                0 <= i < j < rows@.len() ==> (#[trigger] rows@[i]).0@ != (#[trigger] rows@[j]).0@
        }),
{
    let mut statement = c.prepare(sql)?;
    let rows = statement.query_map((q, limit, offset), |row| Ok((row.get(0)?, row.get(1)?, row.get(2)?)))?;
    rows.collect()
}

/// Relies on `rusqlite::Connection::query_row`: the first column of the first
/// row of `sql`, read as a boolean. `VERSION_TABLE_EXISTS` tells whether the
/// version table exists; `VERSION_ROW_EXISTS` fails without the table and
/// otherwise tells whether it has a row.
#[verifier::external_body]
pub(crate) fn query_flag(c: &rusqlite::Connection, sql: &str) -> (r: Result<bool, rusqlite::Error>)
    requires
        sql@ == VERSION_TABLE_EXISTS@ || sql@ == VERSION_ROW_EXISTS@,
    ensures
        r matches Ok(b) ==> (sql@ == VERSION_TABLE_EXISTS@ ==> b == schema_rows(*c) is Some),
        r matches Ok(b) ==> (sql@ == VERSION_ROW_EXISTS@ ==> schema_rows(*c) is Some && b == (
        schema_rows(*c)->0.len() > 0)),
{
    c.query_row(sql, [], |row| row.get(0))
}

/// Relies on `rusqlite::Statement::query` and `rusqlite::Rows::next`: the
/// first three columns of the first row of `sql`, if it has a row. For
/// `LATEST_VERSION`, which fails without the table, that is the most recent
/// version row.
#[verifier::external_body]
pub(crate) fn query_first_triple(c: &rusqlite::Connection, sql: &str) -> (r: Result<
    Option<(i64, i64, i64)>,
    rusqlite::Error,
>)
    requires
        sql@ == LATEST_VERSION@,
    ensures
        r matches Ok(o) ==> (sql@ == LATEST_VERSION@ ==> schema_rows(*c) is Some && o == (if schema_rows(
            *c,
        )->0.len() > 0 {
            Some(schema_rows(*c)->0[0])
        } else {
            None
        })),
{
    let mut statement = c.prepare(sql)?;
    let mut rows = statement.query([])?;
    match rows.next()? {
        Some(row) => Ok(Some((row.get(0)?, row.get(1)?, row.get(2)?))),
        None => Ok(None),
    }
}

/// Relies on `rusqlite::Connection::execute_batch`: runs the statements of
/// `sql` one after another. `BEGIN` opens a transaction from the present
/// state; `COMMIT` keeps what was done and closes it; `ROLLBACK` returns to
/// the state the transaction began from and closes it. A `BEGIN` that fails
/// (as it does inside a transaction) changes nothing. `CREATE_SCHEMA`
/// succeeds only where none of its tables exists, and leaves an empty version
/// table and no saved page.
#[verifier::external_body]
pub(crate) fn execute_batch(c: &mut rusqlite::Connection, sql: &str) -> (r: Result<(), rusqlite::Error>)
    requires
        sql@ == BEGIN@ || sql@ == COMMIT@ || sql@ == ROLLBACK@ || sql@ == CREATE_SCHEMA@,
    ensures
        r is Ok && sql@ == BEGIN@ ==> {
            &&& !in_transaction(*old(c))
            &&& begun_with(*final(c)) == (stored_sites(*old(c)), schema_rows(*old(c)))
            &&& stored_sites(*final(c)) == stored_sites(*old(c))
            &&& schema_rows(*final(c)) == schema_rows(*old(c))
            &&& in_transaction(*final(c))
        },
        r is Err && sql@ == BEGIN@ ==> {
            &&& stored_sites(*final(c)) == stored_sites(*old(c))
            &&& schema_rows(*final(c)) == schema_rows(*old(c))
            &&& in_transaction(*final(c)) == in_transaction(*old(c))
        },
        r is Ok && sql@ == COMMIT@ ==> {
            &&& stored_sites(*final(c)) == stored_sites(*old(c))
            &&& schema_rows(*final(c)) == schema_rows(*old(c))
            &&& !in_transaction(*final(c))
        },
        r is Ok && sql@ == ROLLBACK@ ==> {
            &&& stored_sites(*final(c)) == begun_with(*old(c)).0
            &&& schema_rows(*final(c)) == begun_with(*old(c)).1
            &&& !in_transaction(*final(c))
        },
        r is Ok && sql@ == CREATE_SCHEMA@ ==> {
            &&& schema_rows(*old(c)) is None
            &&& schema_rows(*final(c)) is Some && schema_rows(*final(c))->0.len() == 0
            &&& stored_sites(*old(c)).dom() == Set::<Seq<char>>::empty()
            &&& stored_sites(*final(c)) == stored_sites(*old(c))
            &&& in_transaction(*final(c)) == in_transaction(*old(c))
        },
        sql@ == COMMIT@ || sql@ == ROLLBACK@ || sql@ == CREATE_SCHEMA@ ==> begun_with(*final(c))
            == begun_with(*old(c)),
{
    c.execute_batch(sql)
}

/// Relies on `rusqlite::Connection::prepare` and `rusqlite::Statement::execute`,
/// with three integers bound to the statement's parameters in order.
/// `INSERT_VERSION` adds a version row, which is then the most recent, and
/// fails without the table.
#[verifier::external_body]
pub(crate) fn execute_triple(c: &mut rusqlite::Connection, sql: &str, args: [i64; 3]) -> (r: Result<
    usize,
    rusqlite::Error,
>)
    requires
        sql@ == INSERT_VERSION@,
    ensures
        r is Ok && sql@ == INSERT_VERSION@ ==> {
            &&& schema_rows(*old(c)) is Some
            &&& schema_rows(*final(c)) == Some(seq![(args[0], args[1], args[2])] + schema_rows(*old(c))->0)
            &&& stored_sites(*final(c)) == stored_sites(*old(c))
            &&& in_transaction(*final(c)) == in_transaction(*old(c))
        },
        sql@ == INSERT_VERSION@ ==> begun_with(*final(c)) == begun_with(*old(c)),
{
    c.prepare(sql)?.execute(args)
}

} // verus!
