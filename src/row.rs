//! Rows fetched from the server, decoded field by field on access.
use crate::decode::{decode, decodes, DecodeError, DecodedValue, WireValue};
use crate::errors::{ErrorKind, LibError, GENERIC_CODE};
use vstd::prelude::*;

verus! {

/// The name and declared type of a result column.
#[derive(Debug, Clone)]
pub struct Column {
    pub name: String,
    pub declared_type: String,
}

/// One result row: position `i` of `columns` describes position `i` of `values`.
#[derive(Debug)]
pub struct Row {
    pub columns: Vec<Column>,
    pub values: Vec<WireValue>,
}

/// A field of a row, by position or by name.
#[derive(Debug, Clone)]
pub enum Key {
    Position(usize),
    Name(String),
}

/// What reading a field gives when its value is `w`: the decoded value, or a
/// decoding failure exactly where decoding fails.
pub open spec fn field_outcome(w: WireValue, r: Result<DecodedValue, LibError>) -> bool {
    match r {
        Ok(v) => decodes(w, Ok(v)),
        Err(e) => e.kind == ErrorKind::Decode && exists|d: DecodeError| decodes(w, Err(d)),
    }
}

/// The first position whose column is named `name`, if any.
pub open spec fn first_named(columns: Seq<Column>, name: Seq<char>, i: int) -> bool {
    &&& 0 <= i < columns.len()
    &&& columns[i].name@ == name
    &&& forall|j: int| 0 <= j < i ==> columns[j].name@ != name
}

impl Row {
    /// Every column has its value.
    pub open spec fn wf(&self) -> bool {
        self.columns@.len() == self.values@.len()
    }

    /// Makes a row, provided there is one value for each column.
    pub fn new(columns: Vec<Column>, values: Vec<WireValue>) -> (r: Option<Row>)
        ensures
            r is Some <==> columns@.len() == values@.len(),
            r matches Some(row) ==> row.wf() && row.columns == columns && row.values == values,
    {
        if columns.len() == values.len() {
            Some(Row { columns, values })
        } else {
            None
        }
    }

    /// The column names in the server's order, repeated names included.
    pub fn keys(&self) -> (r: Vec<String>)
        ensures
            r@.len() == self.columns@.len(),
            forall|i: int| 0 <= i < r@.len() ==> (#[trigger] r@[i])@ == self.columns@[i].name@,
    {
        let mut out: Vec<String> = Vec::new();
        let mut i: usize = 0;
        while i < self.columns.len()
            invariant
                i <= self.columns@.len(),
                out@.len() == i,
                forall|j: int| 0 <= j < i ==> (#[trigger] out@[j])@ == self.columns@[j].name@,
            decreases self.columns@.len() - i,
        {
            out.push(self.columns[i].name.clone());
            i = i + 1;
        }
        out
    }

    /// The position of the first column named `name`.
    pub fn position_of(&self, name: &str) -> (r: Option<usize>)
        ensures
            r matches Some(i) ==> first_named(self.columns@, name@, i as int),
            r is None ==> forall|j: int|
                0 <= j < self.columns@.len() ==> (#[trigger] self.columns@[j]).name@ != name@,
    {
        let mut i: usize = 0;
        while i < self.columns.len()
            invariant
                i <= self.columns@.len(),
                forall|j: int| 0 <= j < i ==> (#[trigger] self.columns@[j]).name@ != name@,
            decreases self.columns@.len() - i,
        {
            if crate::wire::same_text(self.columns[i].name.as_str(), name) {
                return Some(i);
            }
            i = i + 1;
        }
        None
    }

    /// Decodes the value at a position.
    fn decode_at(&self, i: usize) -> (r: Result<DecodedValue, LibError>)
        requires
            self.wf(),
            i < self.values@.len(),
        ensures
            field_outcome(self.values@[i as int], r),
    {
        match decode(&self.values[i]) {
            Ok(v) => Ok(v),
            Err(_) => Err(
                LibError {
                    kind: ErrorKind::Decode,
                    code: GENERIC_CODE,
                    server_code: None,
                    constraint: None,
                    detail: None,
                },
            ),
        }
    }

    /// The decoded value of the field at position `i`; `OutOfRange` past the last column.
    pub fn get_by_position(&self, i: usize) -> (r: Result<DecodedValue, LibError>)
        requires
            self.wf(),
        ensures
            i >= self.columns@.len() ==> (r matches Err(e) && e.kind == ErrorKind::OutOfRange),
            i < self.columns@.len() ==> field_outcome(self.values@[i as int], r),
    {
        if i >= self.values.len() {
            return Err(LibError::out_of_range());
        }
        self.decode_at(i)
    }

    /// The decoded value of the first field named `name`; `NotFound` when no column
    /// has that name.
    pub fn get_by_name(&self, name: &str) -> (r: Result<DecodedValue, LibError>)
        requires
            self.wf(),
        ensures
            (forall|j: int| 0 <= j < self.columns@.len() ==> (#[trigger] self.columns@[j]).name@ != name@)
                ==> (r matches Err(e) && e.kind == ErrorKind::NotFound),
            (exists|i: int| 0 <= i < self.columns@.len() && (#[trigger] self.columns@[i]).name@ == name@)
                ==> exists|i: int|
                first_named(self.columns@, name@, i) && field_outcome(
                    #[trigger] self.values@[i],
                    r,
                ),
    {
        match self.position_of(name) {
            Some(i) => self.decode_at(i),
            None => Err(LibError::not_found(name)),
        }
    }

    /// The decoded value of a field, by position or by name.
    pub fn get_item(&self, key: &Key) -> (r: Result<DecodedValue, LibError>)
        requires
            self.wf(),
        ensures
            key matches Key::Position(i) ==> (if i >= self.columns@.len() {
                r matches Err(e) && e.kind == ErrorKind::OutOfRange
            } else {
                field_outcome(self.values@[i as int], r)
            }),
            key matches Key::Name(n) ==> ((forall|j: int|
                0 <= j < self.columns@.len() ==> (#[trigger] self.columns@[j]).name@ != n@) ==> (r matches Err(
                e,
            ) && e.kind == ErrorKind::NotFound)),
            key matches Key::Name(n) ==> ((exists|i: int|
                0 <= i < self.columns@.len() && (#[trigger] self.columns@[i]).name@ == n@) ==> exists|i: int|
                first_named(self.columns@, n@, i) && field_outcome(#[trigger] self.values@[i], r)),
    {
        match key {
            Key::Position(i) => self.get_by_position(*i),
            Key::Name(n) => self.get_by_name(n.as_str()),
        }
    }
}

} // verus!
