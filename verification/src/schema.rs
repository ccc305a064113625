//! Query result schemas: an ordered list of column names and type tags.

use vstd::prelude::*;
use vstd::string::StrSliceExecFns;

use crate::value::DataType;

verus! {

/// Compare two string slices character by character.
pub fn str_eq(a: &str, b: &str) -> (r: bool)
    ensures
        r == (a@ == b@),
{
    let a_len = a.unicode_len();
    let b_len = b.unicode_len();
    if a_len != b_len {
        return false;
    }
    let mut i: usize = 0;
    while i < a_len
        invariant
            i <= a_len,
            a_len == a@.len(),
            b_len == b@.len(),
            a_len == b_len,
            forall|j: int| 0 <= j < i ==> a@[j] == b@[j],
        decreases a_len - i,
    {
        if a.get_char(i) != b.get_char(i) {
            return false;
        }
        i += 1;
    }
    proof {
        assert(a@ =~= b@);
    }
    true
}

/// One column description: the column's name and its type tag.
#[derive(Clone, Debug, PartialEq)]
pub struct ColumnSchema {
    name: String,
    data_type: DataType,
}

impl ColumnSchema {
    /// The column name, as a character sequence.
    pub closed spec fn name_chars(&self) -> Seq<char> {
        self.name@
    }

    /// The column's type tag.
    pub closed spec fn spec_data_type(&self) -> DataType {
        self.data_type
    }

    pub fn new(name: String, data_type: DataType) -> (c: Self)
        ensures
            c.name_chars() == name@,
            c.spec_data_type() == data_type,
    {
        ColumnSchema { name, data_type }
    }

    pub fn name(&self) -> (r: &String)
        ensures
            r@ == self.name_chars(),
    {
        &self.name
    }

    pub fn data_type(&self) -> (r: DataType)
        ensures
            r == self.spec_data_type(),
    {
        self.data_type
    }
}

/// The ordered list of column descriptions of one query response.
#[derive(Clone, Debug, PartialEq)]
pub struct Schema {
    columns: Vec<ColumnSchema>,
}

impl Schema {
    /// The column descriptions, in order.
    pub closed spec fn spec_columns(&self) -> Seq<ColumnSchema> {
        self.columns@
    }

    /// The number of columns.
    pub open spec fn spec_num_columns(&self) -> nat {
        self.spec_columns().len()
    }

    /// The name of the column at position `i`.
    pub open spec fn spec_name_at(&self, i: int) -> Seq<char> {
        self.spec_columns()[i].name_chars()
    }

    /// The type tag of the column at position `i`.
    pub open spec fn spec_type_at(&self, i: int) -> DataType {
        self.spec_columns()[i].spec_data_type()
    }

    pub fn new(columns: Vec<ColumnSchema>) -> (s: Self)
        ensures
            s.spec_columns() == columns@,
    {
        Schema { columns }
    }

    pub fn num_columns(&self) -> (n: usize)
        ensures
            n == self.spec_num_columns(),
    {
        self.columns.len()
    }

    /// The column description at `idx`, or absence when `idx` is out of
    /// range.
    pub fn column_at(&self, idx: usize) -> (r: Option<&ColumnSchema>)
        ensures
            r is Some <==> idx < self.spec_num_columns(),
            r matches Some(c) ==> *c == self.spec_columns()[idx as int],
    {
        if idx < self.columns.len() {
            Some(&self.columns[idx])
        } else {
            None
        }
    }

    /// The position of the first column named `name` (case-sensitive
    /// exact match), or absence when no column has that name.
    pub fn column_index(&self, name: &str) -> (r: Option<usize>)
        ensures
            r matches Some(i) ==> i < self.spec_num_columns() && self.spec_name_at(i as int)
                == name@ && (forall|j: int| 0 <= j < i ==> self.spec_name_at(j) != name@),
            r is None ==> forall|j: int|
                0 <= j < self.spec_num_columns() ==> self.spec_name_at(j) != name@,
    {
        let n = self.columns.len();
        let mut i: usize = 0;
        while i < n
            invariant
                i <= n,
                n == self.spec_num_columns(),
                forall|j: int| 0 <= j < i ==> self.spec_name_at(j) != name@,
            decreases n - i,
        {
            if str_eq(self.columns[i].name().as_str(), name) {
                return Some(i);
            }
            i += 1;
        }
        None
    }
}

} // verus!
