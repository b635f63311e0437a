//! The record store. Every operation resolves the database file inside the
//! configured directory, opens its own connection, makes sure the schema
//! exists, runs a single read or write, and releases the connection: no
//! state lives across calls. The contracts speak of the table model named in
//! `crate::db`.

use vstd::prelude::*;
use vstd::string::StringExecFns;

use crate::db;
use crate::error::StoreError;
use crate::record::Draft;
use crate::record::Record;
use crate::record::cols_view;
use crate::record::record_from_row;

verus! {

/// The contents of the `persons` table: each id, mapped to the sixteen text
/// columns of its row.
pub type TableModel = Map<int, Seq<Seq<char>>>;

/// One creation step: the store moved the table from `t0` to `t1` by adding
/// the single row `row` under the fresh id `id`, at least 1 and strictly
/// greater than every id `t0` holds. Nothing else changed.
pub open spec fn table_created(t0: TableModel, t1: TableModel, id: int, row: Seq<Seq<char>>) -> bool {
    &&& 1 <= id
    &&& forall|k: int| t0.contains_key(k) ==> k < id
    &&& t1 == t0.insert(id, row)
}

/// The records `rs` are exactly the rows of the table `t`, in strictly
/// descending id order: the listing is as long as the table, every listed
/// record restates a stored row, every stored row is listed, and ids
/// strictly decrease along the listing.
pub open spec fn table_listed(t: TableModel, rs: Seq<Record>) -> bool {
    &&& t.dom().finite()
    &&& rs.len() == t.dom().len()
    &&& forall|i: int|
        0 <= i < rs.len() ==> {
            &&& t.contains_key((#[trigger] rs[i]).id as int)
            &&& t[rs[i].id as int] == rs[i].row()
        }
    &&& forall|k: int|
        #[trigger] t.contains_key(k) ==> exists|i: int|
            0 <= i < rs.len() && (#[trigger] rs[i]).id as int == k
    &&& forall|i: int, j: int|
        0 <= i < j < rs.len() ==> (#[trigger] rs[i]).id > (#[trigger] rs[j]).id
}

/// The resolved per-installation storage directory, injected by the host
/// application; the store itself never chooses or creates a directory.
pub struct StorageConfig {
    pub dir: String,
}

impl StorageConfig {
    /// The path of the database file: the configured directory, a slash and
    /// the fixed file name.
    pub open spec fn db_path_view(self) -> Seq<char> {
        self.dir@ + "/dzherelo.sqlite3"@
    }
}

/// The record store over one configured storage directory.
pub struct Store {
    pub config: StorageConfig,
}

/// The path of the single database file inside the configured directory.
pub fn db_file_path(config: &StorageConfig) -> (p: String)
    ensures
        p@ == config.db_path_view(),
{
    config.dir.clone().concat("/dzherelo.sqlite3")
}

/// Opens a connection to the configured database file and makes sure the
/// schema exists; the schema step never alters stored rows. A failure to
/// open is a `Connection` error, a failure of the schema step a `Schema`
/// error.
pub fn open_db(config: &StorageConfig) -> (r: Result<rusqlite::Connection, StoreError>)
    ensures
        r matches Err(e) ==> e is Connection || e is Schema,
{
    let path = db_file_path(config);
    let mut conn = match db::open_connection(&path) {
        Ok(c) => c,
        Err(e) => {
            return Err(StoreError::Connection(db::error_message(&e)));
        },
    };
    match db::ensure_schema(&mut conn) {
        Ok(_) => Ok(conn),
        Err(e) => Err(StoreError::Schema(db::error_message(&e))),
    }
}

/// Reads every record reachable through `conn`: on success the result is
/// exactly the stored table, in strictly descending id order. A failure is a
/// `Query` error.
pub fn list_with_conn(conn: &rusqlite::Connection) -> (r: Result<Vec<Record>, StoreError>)
    ensures
        r matches Ok(rs) ==> table_listed(db::db_table(*conn), rs@),
        r matches Err(e) ==> e is Query,
{
    let rows = match db::select_rows_desc(conn) {
        Ok(v) => v,
        Err(e) => {
            return Err(StoreError::Query(db::error_message(&e)));
        },
    };
    let ghost t = db::db_table(*conn);
    let mut out: Vec<Record> = Vec::new();
    let mut i: usize = 0;
    while i < rows.len()
        invariant
            i <= rows@.len(),
            out@.len() == i,
            db::db_table(*conn).dom().finite(),
            rows@.len() == db::db_table(*conn).dom().len(),
            forall|j: int|
                0 <= j < rows@.len() ==> {
                    &&& db::db_table(*conn).contains_key((#[trigger] rows@[j]).0 as int)
                    &&& cols_view(rows@[j].1) == db::db_table(*conn)[rows@[j].0
                        as int]
                    &&& rows@[j].1@.len() == 16
                },
            forall|k: int|
                #[trigger] db::db_table(*conn).contains_key(k) ==> exists|j: int|
                    0 <= j < rows@.len() && (#[trigger] rows@[j]).0 as int == k,
            forall|j1: int, j2: int|
                0 <= j1 < j2 < rows@.len() ==> (#[trigger] rows@[j1]).0 > (#[trigger] rows@[j2]).0,
            forall|j: int|
                0 <= j < i ==> (#[trigger] out@[j]).id == rows@[j].0 && out@[j].row()
                    == cols_view(rows@[j].1),
        decreases rows@.len() - i,
    {
        let id = rows[i].0;
        let cols = rows[i].1.clone();
        proof {
            assert(cols_view(cols) =~= cols_view(rows@[i as int].1));
        }
        let rec = record_from_row(id, cols).unwrap();
        out.push(rec);
        i = i + 1;
    }
    proof {
        assert forall|k: int| t.contains_key(k) implies exists|j: int|
            0 <= j < out@.len() && (#[trigger] out@[j]).id as int == k by {
            let j0 = choose|j0: int| 0 <= j0 < rows@.len() && (#[trigger] rows@[j0]).0 as int == k;
            assert(out@[j0].id as int == k);
        }
        assert(table_listed(t, out@));
    }
    Ok(out)
}

/// Inserts the draft's fields as one new row through `conn` and reads the
/// stored row back. On success the returned record restates the draft's
/// fifteen fields exactly, and carries the fresh id and the non-empty
/// store-assigned timestamp under which the row now stands in the table. A
/// failure is a `Query` error; the table is then unchanged unless the row
/// was already stored and only the read-back failed.
pub fn create_with_conn(conn: &mut rusqlite::Connection, d: &Draft) -> (r: Result<
    Record,
    StoreError,
>)
    ensures
        r matches Ok(rec) ==> {
            &&& table_created(
                db::db_table(*old(conn)),
                db::db_table(*final(conn)),
                rec.id as int,
                rec.row(),
            )
            &&& rec.cols() == d.cols()
            &&& rec.created_at@.len() > 0
        },
        r matches Err(e) ==> e is Query,
        r is Err ==> db::db_table(*final(conn)) == db::db_table(*old(conn)) || exists|
            id: int,
            ts: Seq<char>,
        |
            ts.len() > 0 && #[trigger] table_created(
                db::db_table(*old(conn)),
                db::db_table(*final(conn)),
                id,
                d.cols().push(ts),
            ),
{
    let ghost t0 = db::db_table(*conn);
    let id = match db::insert_row(conn, d) {
        Ok(id) => id,
        Err(e) => {
            return Err(StoreError::Query(db::error_message(&e)));
        },
    };
    let ghost ts = choose|ts: Seq<char>|
        #[trigger] ts.len() > 0 && db::db_table(*conn) == t0.insert(id as int, d.cols().push(ts));
    proof {
        assert(table_created(t0, db::db_table(*conn), id as int, d.cols().push(ts)));
    }
    let row = match db::select_row_by_id(conn, id) {
        Ok(o) => o,
        Err(e) => {
            return Err(StoreError::Query(db::error_message(&e)));
        },
    };
    let (rid, cols) = match row {
        Some(rc) => rc,
        None => {
            proof {
                assert(db::db_table(*conn).contains_key(id as int));
            }
            return Err(StoreError::Query(String::from_str("created row not found on read-back")));
        },
    };
    let rec = record_from_row(rid, cols).unwrap();
    proof {
        assert(rec.row() == d.cols().push(ts));
        assert(rec.cols() =~= d.cols()) by {
            assert forall|j: int| 0 <= j < 15 implies rec.cols()[j] == d.cols()[j] by {
                assert(rec.row()[j] == d.cols().push(ts)[j]);
            }
        }
        assert(rec.created_at@ == rec.row()[15]);
        assert(rec.created_at@ == ts);
    }
    Ok(rec)
}

impl Store {
    /// A store over the given storage directory.
    pub fn new(config: StorageConfig) -> (s: Store)
        ensures
            s.config == config,
    {
        Store { config }
    }

    /// Lists every stored record, most recently created first. On success
    /// the ids strictly decrease along the result; an empty store yields the
    /// empty vector. Each call opens and releases its own connection.
    pub fn list_people(&self) -> (r: Result<Vec<Record>, StoreError>)
        ensures
            r matches Ok(rs) ==> exists|t: TableModel| #[trigger] table_listed(t, rs@),
            r matches Ok(rs) ==> forall|i: int, j: int|
                0 <= i < j < rs@.len() ==> (#[trigger] rs@[i]).id > (#[trigger] rs@[j]).id,
            r matches Err(e) ==> e is Connection || e is Schema || e is Query,
    {
        let conn = match open_db(&self.config) {
            Ok(c) => c,
            Err(e) => {
                return Err(e);
            },
        };
        list_with_conn(&conn)
    }

    /// Creates one record from the draft. On success the returned record,
    /// read back from storage, restates the draft's fifteen fields exactly,
    /// and carries a store-assigned id of at least 1 and a non-empty
    /// store-assigned timestamp. Each call opens and releases its own
    /// connection.
    pub fn create_person(&self, d: &Draft) -> (r: Result<Record, StoreError>)
        ensures
            r matches Ok(rec) ==> {
                &&& rec.cols() == d.cols()
                &&& rec.created_at@.len() > 0
                &&& 1 <= rec.id
            },
            r matches Err(e) ==> e is Connection || e is Schema || e is Query,
    {
        let mut conn = match open_db(&self.config) {
            Ok(c) => c,
            Err(e) => {
                return Err(e);
            },
        };
        create_with_conn(&mut conn, d)
    }
}

} // verus!
