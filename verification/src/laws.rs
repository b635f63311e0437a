//! The store's general laws, proved from the contracts in `crate::store`:
//! what holds of every sequence of creations and of every listing, stated
//! over the table model that those contracts speak of.

use vstd::prelude::*;

use crate::record::Draft;
use crate::record::Record;
use crate::store::TableModel;
use crate::store::table_created;
use crate::store::table_listed;

verus! {

/// Ids are unique and monotone: when one creation moves the table from `t0`
/// to `t1` and a later creation moves it from `t1` to `t2`, the second id is
/// strictly greater than the first — ids strictly increase and never repeat
/// along any sequence of creations.
pub proof fn lemma_create_ids_increase(
    t0: TableModel,
    t1: TableModel,
    t2: TableModel,
    id1: int,
    row1: Seq<Seq<char>>,
    id2: int,
    row2: Seq<Seq<char>>,
)
    requires
        table_created(t0, t1, id1, row1),
        table_created(t1, t2, id2, row2),
    ensures
        id1 < id2,
{
    assert(t1.contains_key(id1));
}

/// Round-trip fidelity: a record just created from a draft heads any
/// subsequent listing of the table, and its fifteen fields restate the
/// draft's fields exactly.
pub proof fn lemma_created_record_listed_first(
    t0: TableModel,
    t1: TableModel,
    d: Draft,
    rec: Record,
    rs: Seq<Record>,
)
    requires
        table_created(t0, t1, rec.id as int, rec.row()),
        rec.cols() == d.cols(),
        table_listed(t1, rs),
    ensures
        rs.len() > 0,
        rs[0].id == rec.id,
        rs[0].cols() == d.cols(),
        rs[0].created_at@ == rec.created_at@,
{
    assert(t1.contains_key(rec.id as int));
    let i = choose|i: int| 0 <= i < rs.len() && (#[trigger] rs[i]).id as int == rec.id as int;
    if rs[0].id != rec.id {
        assert(t1.contains_key(rs[0].id as int));
        assert((rs[0].id as int) < (rec.id as int));
        assert(0 < i);
        assert(rs[0].id > rs[i].id);
        assert(false);
    }
    assert(rs[0].row() == t1[rec.id as int]);
    assert(rs[0].row() == rec.row());
    lemma_row_determines_fields(rs[0], rec);
}

/// After one creation, a listing of the new table is the created record
/// followed by a listing of the old table: the listing grew by exactly one,
/// the new record stands first with the draft's fields, and the older
/// records stand behind it, unchanged and in their old order.
pub proof fn lemma_create_prepends_to_listing(
    t0: TableModel,
    t1: TableModel,
    d: Draft,
    rec: Record,
    rs: Seq<Record>,
)
    requires
        table_created(t0, t1, rec.id as int, rec.row()),
        rec.cols() == d.cols(),
        table_listed(t1, rs),
    ensures
        rs.len() == t0.dom().len() + 1,
        rs[0].id == rec.id,
        rs[0].cols() == d.cols(),
        rs[0].created_at@ == rec.created_at@,
        table_listed(t0, rs.skip(1)),
{
    lemma_created_record_listed_first(t0, t1, d, rec, rs);
    let id = rec.id as int;
    assert(t1.dom() =~= t0.dom().insert(id));
    assert(t0.dom() =~= t1.dom().remove(id));
    vstd::set::axiom_set_remove_finite(t1.dom(), id);
    vstd::set::axiom_set_insert_len(t0.dom(), id);
    let tail = rs.skip(1);
    assert(tail.len() == t0.dom().len());
    assert forall|i: int| 0 <= i < tail.len() implies {
        &&& t0.contains_key((#[trigger] tail[i]).id as int)
        &&& t0[tail[i].id as int] == tail[i].row()
    } by {
        assert(tail[i] == rs[i + 1]);
        assert(t1.contains_key(rs[i + 1].id as int));
        assert(rs[0].id > rs[i + 1].id);
    }
    assert forall|k: int| #[trigger] t0.contains_key(k) implies exists|i: int|
        0 <= i < tail.len() && (#[trigger] tail[i]).id as int == k by {
        assert(t1.contains_key(k));
        let i0 = choose|i0: int| 0 <= i0 < rs.len() && (#[trigger] rs[i0]).id as int == k;
        assert(k < id);
        assert(i0 != 0);
        assert(tail[i0 - 1] == rs[i0]);
        assert(tail[i0 - 1].id as int == k);
    }
    assert forall|i: int, j: int| 0 <= i < j < tail.len() implies (#[trigger] tail[i]).id > (
    #[trigger] tail[j]).id by {
        assert(tail[i] == rs[i + 1]);
        assert(tail[j] == rs[j + 1]);
    }
}

/// Two records with the same stored row have the same fifteen fields and
/// the same timestamp.
pub proof fn lemma_row_determines_fields(a: Record, b: Record)
    requires
        a.row() == b.row(),
    ensures
        a.cols() == b.cols(),
        a.created_at@ == b.created_at@,
{
    assert(a.cols() =~= b.cols()) by {
        assert forall|j: int| 0 <= j < 15 implies a.cols()[j] == b.cols()[j] by {
            assert(a.row()[j] == b.row()[j]);
        }
    }
    assert(a.created_at@ == a.row()[15]);
    assert(b.created_at@ == b.row()[15]);
}

/// Ordering: every listing is strictly descending in id, so no id repeats
/// within it.
pub proof fn lemma_listing_descending(t: TableModel, rs: Seq<Record>)
    requires
        table_listed(t, rs),
    ensures
        forall|i: int, j: int| 0 <= i < j < rs.len() ==> (#[trigger] rs[i]).id > (#[trigger] rs[j]).id,
        forall|i: int, j: int|
            0 <= i < rs.len() && 0 <= j < rs.len() && i != j ==> (#[trigger] rs[i]).id != (
            #[trigger] rs[j]).id,
{
}

/// Empty-store behaviour: a listing of a table without rows is the empty
/// sequence.
pub proof fn lemma_empty_listing(t: TableModel, rs: Seq<Record>)
    requires
        table_listed(t, rs),
        forall|k: int| !(#[trigger] t.contains_key(k)),
    ensures
        rs.len() == 0,
{
    if rs.len() > 0 {
        assert(t.contains_key(rs[0].id as int));
    }
}

/// A creation adds exactly its own row: every row the table held before is
/// still there, unchanged, and only the fresh id is new — creations never
/// alter or remove existing records.
pub proof fn lemma_create_preserves_rows(t0: TableModel, t1: TableModel, id: int, row: Seq<Seq<char>>)
    requires
        table_created(t0, t1, id, row),
    ensures
        forall|k: int| #[trigger] t0.contains_key(k) ==> t1.contains_key(k) && t1[k] == t0[k],
        forall|k: int| #[trigger] t1.contains_key(k) ==> k == id || t0.contains_key(k),
{
}

} // verus!
