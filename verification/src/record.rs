//! The two data shapes of the store: a `Draft` carries the fifteen
//! caller-supplied text fields of a registry entry, and a `Record` is a
//! persisted entry, extending those fields with the store-assigned id and
//! creation timestamp.

use vstd::prelude::*;

verus! {

/// The fifteen caller-supplied text fields of a registry entry, without the
/// store-assigned id and timestamp. Any field may be the empty string; none
/// may be absent.
#[derive(Debug)]
pub struct Draft {
    pub last_name: String,
    pub first_name: String,
    pub middle_name: String,
    pub sex: String,
    pub birth_date: String,
    pub birth_place: String,
    pub father: String,
    pub mother: String,
    pub residence: String,
    pub occupation: String,
    pub legitimacy: String,
    pub midwife: String,
    pub godparents: String,
    pub priest: String,
    pub notes: String,
}

/// One persisted registry entry: the fifteen draft fields together with the
/// unique id and the creation timestamp, both assigned by the store.
#[derive(Debug)]
pub struct Record {
    pub id: i64,
    pub last_name: String,
    pub first_name: String,
    pub middle_name: String,
    pub sex: String,
    pub birth_date: String,
    pub birth_place: String,
    pub father: String,
    pub mother: String,
    pub residence: String,
    pub occupation: String,
    pub legitimacy: String,
    pub midwife: String,
    pub godparents: String,
    pub priest: String,
    pub notes: String,
    pub created_at: String,
}

impl Draft {
    /// The draft's fields as a column sequence, in schema order.
    pub open spec fn cols(self) -> Seq<Seq<char>> {
        seq![
            self.last_name@,
            self.first_name@,
            self.middle_name@,
            self.sex@,
            self.birth_date@,
            self.birth_place@,
            self.father@,
            self.mother@,
            self.residence@,
            self.occupation@,
            self.legitimacy@,
            self.midwife@,
            self.godparents@,
            self.priest@,
            self.notes@,
        ]
    }
}

impl Record {
    /// The record's fifteen text fields as a column sequence, in schema
    /// order, without the id and the timestamp.
    pub open spec fn cols(self) -> Seq<Seq<char>> {
        seq![
            self.last_name@,
            self.first_name@,
            self.middle_name@,
            self.sex@,
            self.birth_date@,
            self.birth_place@,
            self.father@,
            self.mother@,
            self.residence@,
            self.occupation@,
            self.legitimacy@,
            self.midwife@,
            self.godparents@,
            self.priest@,
            self.notes@,
        ]
    }

    /// The record's full stored row: the fifteen fields followed by the
    /// creation timestamp.
    pub open spec fn row(self) -> Seq<Seq<char>> {
        self.cols().push(self.created_at@)
    }
}

/// The character sequences held by a vector of column strings.
pub open spec fn cols_view(v: Vec<String>) -> Seq<Seq<char>> {
    Seq::new(v@.len() as nat, |i: int| v@[i]@)
}

/// Rebuilds a record from a stored row: the id column and the sixteen text
/// columns (fifteen fields plus the timestamp), in schema order. Rows of any
/// other width are rejected.
pub fn record_from_row(id: i64, cols: Vec<String>) -> (r: Option<Record>)
    ensures
        r matches Some(rec) ==> rec.id == id && rec.row() == cols_view(cols),
        r is Some <==> cols@.len() == 16,
{
    if cols.len() != 16 {
        return None;
    }
    let rec = Record {
        id,
        last_name: cols[0].clone(),
        first_name: cols[1].clone(),
        middle_name: cols[2].clone(),
        sex: cols[3].clone(),
        birth_date: cols[4].clone(),
        birth_place: cols[5].clone(),
        father: cols[6].clone(),
        mother: cols[7].clone(),
        residence: cols[8].clone(),
        occupation: cols[9].clone(),
        legitimacy: cols[10].clone(),
        midwife: cols[11].clone(),
        godparents: cols[12].clone(),
        priest: cols[13].clone(),
        notes: cols[14].clone(),
        created_at: cols[15].clone(),
    };
    proof {
        assert(rec.row() =~= cols_view(cols));
    }
    Some(rec)
}

} // verus!
