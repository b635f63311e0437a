//! The trusted boundary around the embedded SQLite database, reached through
//! rusqlite. The single `persons` table is modelled as a map from id to the
//! sixteen text columns of the row (the fifteen fields in schema order,
//! followed by `created_at`); `db_table` names that contents for a given
//! connection. Every verified statement about the store rests on the
//! contracts in this module and on nothing else.

use vstd::prelude::*;

use crate::record::Draft;
use crate::record::cols_view;

verus! {

#[verifier::external_type_specification]
#[verifier::external_body]
pub struct ExConnection(rusqlite::Connection);

#[verifier::external_type_specification]
#[verifier::external_body]
pub struct ExError(rusqlite::Error);

/// The contents of the `persons` table reachable through a connection: each
/// stored id, mapped to the row's sixteen text columns (the fifteen fields
/// in schema order, then `created_at`). Empty when the table is absent.
pub uninterp spec fn db_table(conn: rusqlite::Connection) -> Map<int, Seq<Seq<char>>>;

/// Relies on rusqlite::Connection::open: opens the database file at `path`,
/// creating the file (but no directory) if it is absent. Nothing is known of
/// the table behind a freshly opened connection.
#[verifier::external_body]
pub(crate) fn open_connection(path: &String) -> (r: Result<rusqlite::Connection, rusqlite::Error>) {
    rusqlite::Connection::open(path.as_str())
}

/// Relies on rusqlite::Connection::execute_batch running a single
/// `CREATE TABLE IF NOT EXISTS persons (...)` statement: creating the schema
/// is idempotent and never adds, removes or alters stored rows, whether or
/// not it succeeds.
#[verifier::external_body]
pub(crate) fn ensure_schema(conn: &mut rusqlite::Connection) -> (r: Result<(), rusqlite::Error>)
    ensures
        db_table(*final(conn)) == db_table(*old(conn)),
{
    conn.execute_batch(
        "CREATE TABLE IF NOT EXISTS persons (id INTEGER PRIMARY KEY AUTOINCREMENT, \
         last_name TEXT NOT NULL, first_name TEXT NOT NULL, middle_name TEXT NOT NULL, \
         sex TEXT NOT NULL, birth_date TEXT NOT NULL, birth_place TEXT NOT NULL, \
         father TEXT NOT NULL, mother TEXT NOT NULL, residence TEXT NOT NULL, \
         occupation TEXT NOT NULL, legitimacy TEXT NOT NULL, midwife TEXT NOT NULL, \
         godparents TEXT NOT NULL, priest TEXT NOT NULL, notes TEXT NOT NULL, \
         created_at TEXT NOT NULL DEFAULT (datetime('now')));",
    )
}

/// Relies on rusqlite::Connection::execute inserting one row into the
/// `persons` table created by `ensure_schema`, and on
/// rusqlite::Connection::last_insert_rowid returning that row's id. SQLite
/// assigns an AUTOINCREMENT id of at least 1, strictly greater than every id
/// the table holds, and fills `created_at` with `datetime('now')`, a
/// non-empty text. A failed insertion stores nothing.
#[verifier::external_body]
pub(crate) fn insert_row(conn: &mut rusqlite::Connection, d: &Draft) -> (r: Result<
    i64,
    rusqlite::Error,
>)
    ensures
        r matches Ok(id) ==> {
            &&& 1 <= id
            &&& forall|k: int| db_table(*old(conn)).contains_key(k) ==> k < id
            &&& exists|ts: Seq<char>|
                #[trigger] ts.len() > 0 && db_table(*final(conn)) == db_table(*old(conn)).insert(
                    id as int,
                    d.cols().push(ts),
                )
        },
        r is Err ==> db_table(*final(conn)) == db_table(*old(conn)),
{
    conn.execute(
        "INSERT INTO persons (last_name, first_name, middle_name, sex, birth_date, birth_place, \
         father, mother, residence, occupation, legitimacy, midwife, godparents, priest, notes) \
         VALUES (?1, ?2, ?3, ?4, ?5, ?6, ?7, ?8, ?9, ?10, ?11, ?12, ?13, ?14, ?15)",
        &[&d.last_name, &d.first_name, &d.middle_name, &d.sex, &d.birth_date, &d.birth_place,
            &d.father, &d.mother, &d.residence, &d.occupation, &d.legitimacy, &d.midwife,
            &d.godparents, &d.priest, &d.notes],
    )?;
    Ok(conn.last_insert_rowid())
}

/// Relies on rusqlite::Connection::prepare, Statement::query_map and
/// Row::get, running `SELECT id, <the sixteen text columns> FROM persons
/// ORDER BY id DESC`: on success the result lists every stored row exactly
/// once, in strictly descending id order (ids are unique, being the primary
/// key), each with its sixteen text columns in schema order.
#[verifier::external_body]
pub(crate) fn select_rows_desc(conn: &rusqlite::Connection) -> (r: Result<
    Vec<(i64, Vec<String>)>,
    rusqlite::Error,
>)
    ensures
        r matches Ok(rows) ==> {
            &&& db_table(*conn).dom().finite()
            &&& rows@.len() == db_table(*conn).dom().len()
            &&& forall|i: int|
                0 <= i < rows@.len() ==> {
                    &&& db_table(*conn).contains_key((#[trigger] rows@[i]).0 as int)
                    &&& cols_view(rows@[i].1) == db_table(*conn)[rows@[i].0 as int]
                    &&& rows@[i].1@.len() == 16
                }
            &&& forall|k: int|
                #[trigger] db_table(*conn).contains_key(k) ==> exists|i: int|
                    0 <= i < rows@.len() && (#[trigger] rows@[i]).0 as int == k
            &&& forall|i: int, j: int|
                0 <= i < j < rows@.len() ==> (#[trigger] rows@[i]).0 > (#[trigger] rows@[j]).0
        },
{
    let mut stmt = conn.prepare(
        "SELECT id, last_name, first_name, middle_name, sex, birth_date, birth_place, father, \
         mother, residence, occupation, legitimacy, midwife, godparents, priest, notes, \
         created_at FROM persons ORDER BY id DESC",
    )?;
    let rows = stmt.query_map((), |row| {
        let id: i64 = row.get(0)?;
        let mut cols: Vec<String> = Vec::new();
        for i in 1..17 {
            cols.push(row.get(i)?);
        }
        Ok((id, cols))
    })?;
    rows.collect()
}

/// Relies on rusqlite::Connection::prepare, Statement::query_map and
/// Row::get, running `SELECT id, <the sixteen text columns> FROM persons
/// WHERE id = ?1`: on success it yields the stored row with that id, with
/// its sixteen text columns in schema order, or nothing when no such row
/// exists.
#[verifier::external_body]
pub(crate) fn select_row_by_id(conn: &rusqlite::Connection, id: i64) -> (r: Result<
    Option<(i64, Vec<String>)>,
    rusqlite::Error,
>)
    ensures
        r matches Ok(Some(row)) ==> {
            &&& db_table(*conn).contains_key(id as int)
            &&& row.0 == id
            &&& cols_view(row.1) == db_table(*conn)[id as int]
            &&& row.1@.len() == 16
        },
        r matches Ok(None) ==> !db_table(*conn).contains_key(id as int),
{
    let mut stmt = conn.prepare(
        "SELECT id, last_name, first_name, middle_name, sex, birth_date, birth_place, father, \
         mother, residence, occupation, legitimacy, midwife, godparents, priest, notes, \
         created_at FROM persons WHERE id = ?1",
    )?;
    let mut rows = stmt.query_map((id,), |row| {
        let id: i64 = row.get(0)?;
        let mut cols: Vec<String> = Vec::new();
        for i in 1..17 {
            cols.push(row.get(i)?);
        }
        Ok((id, cols))
    })?;
    rows.next().transpose()
}

/// Relies on rusqlite::Error's Display implementation for a human-readable
/// description of the failure.
#[verifier::external_body]
pub(crate) fn error_message(e: &rusqlite::Error) -> String {
    format!("{}", e)
}

} // verus!
