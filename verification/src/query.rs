//! SQL query requests and responses.
//!
//! A response owns its decoded rows once, in a shared, immutable
//! [`RowBuffer`]. Every [`Row`] and [`Column`] view holds a reference to
//! that buffer plus its position, so views are cheap, never copy the
//! buffer, and stay valid for as long as any view keeps the buffer
//! alive. Lookup failures (an index out of range, an unknown column
//! name) are reported as absence, not as errors.

use std::sync::Arc;

use vstd::prelude::*;

use crate::schema::Schema;
use crate::value::DataType;
use crate::value::Value;

verus! {

/// A SQL query request: the tables it touches and the query text.
#[derive(Clone, Debug, PartialEq)]
pub struct SqlQueryRequest {
    tables: Vec<String>,
    sql: String,
}

impl SqlQueryRequest {
    /// The tables the query touches.
    pub closed spec fn spec_tables(&self) -> Seq<String> {
        self.tables@
    }

    /// The query text, as a character sequence.
    pub closed spec fn sql_chars(&self) -> Seq<char> {
        self.sql@
    }

    pub fn new(tables: Vec<String>, sql: String) -> (r: Self)
        ensures
            r.spec_tables() == tables@,
            r.sql_chars() == sql@,
    {
        SqlQueryRequest { tables, sql }
    }

    pub fn tables(&self) -> (r: &Vec<String>)
        ensures
            r@ == self.spec_tables(),
    {
        &self.tables
    }

    pub fn sql(&self) -> (r: &String)
        ensures
            r@ == self.sql_chars(),
    {
        &self.sql
    }
}

/// The shared, immutable storage of one query response: a schema and the
/// decoded rows. It is produced once, when the response is constructed,
/// and afterwards only read through views.
#[derive(Debug)]
pub struct RowBuffer {
    schema: Schema,
    rows: Vec<Vec<Value>>,
}

impl RowBuffer {
    /// The schema describing the columns of every stored row.
    pub closed spec fn spec_schema(&self) -> Schema {
        self.schema
    }

    /// The stored rows, each a list of one datum per column.
    pub closed spec fn spec_rows(&self) -> Seq<Vec<Value>> {
        self.rows@
    }

    /// Every stored row has exactly one datum per schema column.
    pub open spec fn wf(&self) -> bool {
        forall|i: int|
            0 <= i < self.spec_rows().len() ==> (#[trigger] self.spec_rows()[i])@.len()
                == self.spec_schema().spec_num_columns()
    }

    /// The number of stored rows.
    pub open spec fn spec_num_rows(&self) -> nat {
        self.spec_rows().len()
    }

    /// The number of columns, as the schema declares it.
    pub open spec fn spec_num_cols(&self) -> nat {
        self.spec_schema().spec_num_columns()
    }

    /// The datum stored at one (row, column) position.
    pub open spec fn spec_datum(&self, row: int, col: int) -> Value {
        self.spec_rows()[row]@[col]
    }

    /// The schema name of the column at one position.
    pub open spec fn spec_col_name(&self, col: int) -> Seq<char> {
        self.spec_schema().spec_name_at(col)
    }
}

/// The immutable result of a SQL query: a shared row buffer and the
/// count of rows the statement affected.
#[derive(Debug)]
pub struct SqlQueryResponse {
    core: Arc<RowBuffer>,
    affected_rows: u32,
}

impl SqlQueryResponse {
    /// The shared buffer every view of this response reads.
    pub closed spec fn spec_buffer(&self) -> RowBuffer {
        *self.core
    }

    /// The count of rows the statement affected.
    pub closed spec fn spec_affected_rows(&self) -> u32 {
        self.affected_rows
    }

    pub open spec fn wf(&self) -> bool {
        self.spec_buffer().wf()
    }

    /// Bundle a schema, decoded rows and an affected-row count into a
    /// response. Absence is returned when some row does not have exactly
    /// one datum per schema column.
    pub fn new(schema: Schema, rows: Vec<Vec<Value>>, affected_rows: u32) -> (r: Option<Self>)
        ensures
            r is Some <==> (forall|i: int|
                0 <= i < rows@.len() ==> (#[trigger] rows@[i])@.len()
                    == schema.spec_num_columns()),
            r matches Some(resp) ==> resp.wf() && resp.spec_buffer().spec_schema() == schema
                && resp.spec_buffer().spec_rows() == rows@ && resp.spec_affected_rows()
                == affected_rows,
    {
        let ncols = schema.num_columns();
        let n = rows.len();
        let mut i: usize = 0;
        while i < n
            invariant
                i <= n,
                n == rows@.len(),
                ncols == schema.spec_num_columns(),
                forall|j: int| 0 <= j < i ==> (#[trigger] rows@[j])@.len() == ncols,
            decreases n - i,
        {
            if rows[i].len() != ncols {
                return None;
            }
            i += 1;
        }
        Some(SqlQueryResponse { core: Arc::new(RowBuffer { schema, rows }), affected_rows })
    }

    pub fn num_rows(&self) -> (n: usize)
        ensures
            n == self.spec_buffer().spec_num_rows(),
    {
        self.core.rows.len()
    }

    pub fn affected_rows(&self) -> (n: u32)
        ensures
            n == self.spec_affected_rows(),
    {
        self.affected_rows
    }

    /// The schema of this response.
    pub fn schema(&self) -> (r: &Schema)
        ensures
            *r == self.spec_buffer().spec_schema(),
    {
        &self.core.schema
    }

    /// A view of the row at `row_idx`, or absence when the index is out
    /// of range.
    pub fn row_by_idx(&self, row_idx: usize) -> (r: Option<Row>)
        requires
            self.wf(),
        ensures
            r is Some <==> row_idx < self.spec_buffer().spec_num_rows(),
            r matches Some(row) ==> row.wf() && row.spec_buffer() == self.spec_buffer()
                && row.spec_row_idx() == row_idx,
    {
        if row_idx < self.core.rows.len() {
            Some(Row { core: self.core.clone(), row_idx })
        } else {
            None
        }
    }

    /// Law: enumerating this response's rows yields exactly
    /// [`Self::num_rows`] views, in position order. A fresh enumeration
    /// over the same response yields the same sequence again.
    pub fn all_rows(&self) -> (r: Vec<Row>)
        requires
            self.wf(),
        ensures
            r@.len() == self.spec_buffer().spec_num_rows(),
            forall|i: int|
                0 <= i < r@.len() ==> (#[trigger] r@[i]).wf() && r@[i].spec_buffer()
                    == self.spec_buffer() && r@[i].spec_row_idx() == i,
    {
        let mut out: Vec<Row> = Vec::new();
        let mut it = self.iter_rows();
        loop
            invariant
                it.wf(),
                it.spec_buffer() == self.spec_buffer(),
                self.wf(),
                it.spec_next_row_idx() == out@.len(),
                it.spec_next_row_idx() <= self.spec_buffer().spec_num_rows(),
                forall|i: int|
                    0 <= i < out@.len() ==> (#[trigger] out@[i]).wf() && out@[i].spec_buffer()
                        == self.spec_buffer() && out@[i].spec_row_idx() == i,
            decreases self.spec_buffer().spec_num_rows() - it.spec_next_row_idx(),
        {
            match it.next() {
                Some(row) => out.push(row),
                None => {
                    return out;
                },
            }
        }
    }

    /// A fresh, forward-only enumeration of this response's rows,
    /// starting at the first row.
    pub fn iter_rows(&self) -> (it: RowIter)
        requires
            self.wf(),
        ensures
            it.wf(),
            it.spec_buffer() == self.spec_buffer(),
            it.spec_next_row_idx() == 0,
    {
        RowIter { core: self.core.clone(), next_row_idx: 0 }
    }
}

/// A forward-only enumeration of a response's rows, in position order.
#[derive(Debug)]
pub struct RowIter {
    core: Arc<RowBuffer>,
    next_row_idx: usize,
}

impl RowIter {
    /// The shared buffer this enumeration reads.
    pub closed spec fn spec_buffer(&self) -> RowBuffer {
        *self.core
    }

    /// The position the next call of [`Self::next`] yields.
    pub closed spec fn spec_next_row_idx(&self) -> usize {
        self.next_row_idx
    }

    pub open spec fn wf(&self) -> bool {
        self.spec_buffer().wf()
    }

    /// The view of the row at the current position, advancing the
    /// position by one; absence once every row has been yielded.
    pub fn next(&mut self) -> (r: Option<Row>)
        requires
            old(self).wf(),
        ensures
            final(self).wf(),
            final(self).spec_buffer() == old(self).spec_buffer(),
            r is Some <==> old(self).spec_next_row_idx() < old(self).spec_buffer().spec_num_rows(),
            r matches Some(row) ==> row.wf() && row.spec_buffer() == old(self).spec_buffer()
                && row.spec_row_idx() == old(self).spec_next_row_idx() && final(self).spec_next_row_idx() == old(self).spec_next_row_idx() + 1,
            r is None ==> final(self).spec_next_row_idx() == old(self).spec_next_row_idx(),
    {
        if self.next_row_idx < self.core.rows.len() {
            let row_idx = self.next_row_idx;
            self.next_row_idx = row_idx + 1;
            Some(Row { core: self.core.clone(), row_idx })
        } else {
            None
        }
    }
}

/// A read-only view of one row of a query response: a reference to the
/// shared buffer plus the row's position.
#[derive(Debug)]
pub struct Row {
    core: Arc<RowBuffer>,
    row_idx: usize,
}

impl Row {
    /// The shared buffer this view reads.
    pub closed spec fn spec_buffer(&self) -> RowBuffer {
        *self.core
    }

    /// The position of this row in the buffer.
    pub closed spec fn spec_row_idx(&self) -> usize {
        self.row_idx
    }

    pub open spec fn wf(&self) -> bool {
        self.spec_buffer().wf() && self.spec_row_idx() < self.spec_buffer().spec_num_rows()
    }

    /// A view of the first column whose schema name equals `col_name`
    /// exactly (case-sensitive), or absence when no column has that name.
    pub fn column(&self, col_name: &str) -> (r: Option<Column>)
        requires
            self.wf(),
        ensures
            r matches Some(col) ==> col.wf() && col.spec_buffer() == self.spec_buffer()
                && col.spec_row_idx() == self.spec_row_idx() && col.spec_col_idx()
                < self.spec_buffer().spec_num_cols() && self.spec_buffer().spec_col_name(
                col.spec_col_idx() as int,
            ) == col_name@ && (forall|j: int|
                0 <= j < col.spec_col_idx() ==> self.spec_buffer().spec_col_name(j) != col_name@),
            r is None ==> forall|j: int|
                0 <= j < self.spec_buffer().spec_num_cols() ==> self.spec_buffer().spec_col_name(
                    j,
                ) != col_name@,
    {
        match self.core.schema.column_index(col_name) {
            Some(col_idx) => Some(
                Column { core: self.core.clone(), row_idx: self.row_idx, col_idx },
            ),
            None => None,
        }
    }

    /// A view of the column at `col_idx`, or absence when the index is
    /// out of range.
    pub fn column_by_idx(&self, col_idx: usize) -> (r: Option<Column>)
        requires
            self.wf(),
        ensures
            r is Some <==> col_idx < self.spec_buffer().spec_num_cols(),
            r matches Some(col) ==> col.wf() && col.spec_buffer() == self.spec_buffer()
                && col.spec_row_idx() == self.spec_row_idx() && col.spec_col_idx() == col_idx,
    {
        if col_idx < self.core.schema.num_columns() {
            Some(Column { core: self.core.clone(), row_idx: self.row_idx, col_idx })
        } else {
            None
        }
    }

    pub fn num_cols(&self) -> (n: usize)
        requires
            self.wf(),
        ensures
            n == self.spec_buffer().spec_num_cols(),
    {
        self.core.schema.num_columns()
    }

    /// Law: enumerating this row's columns yields exactly
    /// [`Self::num_cols`] views, in position order. A fresh enumeration
    /// over the same row yields the same sequence again.
    pub fn all_columns(&self) -> (r: Vec<Column>)
        requires
            self.wf(),
        ensures
            r@.len() == self.spec_buffer().spec_num_cols(),
            forall|i: int|
                0 <= i < r@.len() ==> (#[trigger] r@[i]).wf() && r@[i].spec_buffer()
                    == self.spec_buffer() && r@[i].spec_row_idx() == self.spec_row_idx()
                    && r@[i].spec_col_idx() == i,
    {
        let mut out: Vec<Column> = Vec::new();
        let mut it = self.iter_columns();
        loop
            invariant
                it.wf(),
                it.spec_buffer() == self.spec_buffer(),
                it.spec_row_idx() == self.spec_row_idx(),
                self.wf(),
                it.spec_next_col_idx() == out@.len(),
                it.spec_next_col_idx() <= self.spec_buffer().spec_num_cols(),
                forall|i: int|
                    0 <= i < out@.len() ==> (#[trigger] out@[i]).wf() && out@[i].spec_buffer()
                        == self.spec_buffer() && out@[i].spec_row_idx() == self.spec_row_idx()
                        && out@[i].spec_col_idx() == i,
            decreases self.spec_buffer().spec_num_cols() - it.spec_next_col_idx(),
        {
            match it.next() {
                Some(col) => out.push(col),
                None => {
                    return out;
                },
            }
        }
    }

    /// A fresh, forward-only enumeration of this row's columns, starting
    /// at the first column.
    pub fn iter_columns(&self) -> (it: ColumnIter)
        requires
            self.wf(),
        ensures
            it.wf(),
            it.spec_buffer() == self.spec_buffer(),
            it.spec_row_idx() == self.spec_row_idx(),
            it.spec_next_col_idx() == 0,
    {
        ColumnIter { core: self.core.clone(), row_idx: self.row_idx, next_col_idx: 0 }
    }
}

/// A forward-only enumeration of one row's columns, in position order.
#[derive(Debug)]
pub struct ColumnIter {
    core: Arc<RowBuffer>,
    row_idx: usize,
    next_col_idx: usize,
}

impl ColumnIter {
    /// The shared buffer this enumeration reads.
    pub closed spec fn spec_buffer(&self) -> RowBuffer {
        *self.core
    }

    /// The position of the row whose columns are enumerated.
    pub closed spec fn spec_row_idx(&self) -> usize {
        self.row_idx
    }

    /// The position the next call of [`Self::next`] yields.
    pub closed spec fn spec_next_col_idx(&self) -> usize {
        self.next_col_idx
    }

    pub open spec fn wf(&self) -> bool {
        self.spec_buffer().wf() && self.spec_row_idx() < self.spec_buffer().spec_num_rows()
    }

    /// The view of the column at the current position, advancing the
    /// position by one; absence once every column has been yielded.
    pub fn next(&mut self) -> (r: Option<Column>)
        requires
            old(self).wf(),
        ensures
            final(self).wf(),
            final(self).spec_buffer() == old(self).spec_buffer(),
            final(self).spec_row_idx() == old(self).spec_row_idx(),
            r is Some <==> old(self).spec_next_col_idx() < old(self).spec_buffer().spec_num_cols(),
            r matches Some(col) ==> col.wf() && col.spec_buffer() == old(self).spec_buffer()
                && col.spec_row_idx() == old(self).spec_row_idx() && col.spec_col_idx() == old(self).spec_next_col_idx() && final(self).spec_next_col_idx() == old(self).spec_next_col_idx() + 1,
            r is None ==> final(self).spec_next_col_idx() == old(self).spec_next_col_idx(),
    {
        if self.next_col_idx < self.core.schema.num_columns() {
            let col_idx = self.next_col_idx;
            self.next_col_idx = col_idx + 1;
            Some(Column { core: self.core.clone(), row_idx: self.row_idx, col_idx })
        } else {
            None
        }
    }
}

/// A read-only view of one datum of a query response: a reference to the
/// shared buffer plus the datum's (row, column) position.
#[derive(Debug)]
pub struct Column {
    core: Arc<RowBuffer>,
    row_idx: usize,
    col_idx: usize,
}

impl Column {
    /// The shared buffer this view reads.
    pub closed spec fn spec_buffer(&self) -> RowBuffer {
        *self.core
    }

    /// The position of the row this view reads.
    pub closed spec fn spec_row_idx(&self) -> usize {
        self.row_idx
    }

    /// The position of the column this view reads.
    pub closed spec fn spec_col_idx(&self) -> usize {
        self.col_idx
    }

    pub open spec fn wf(&self) -> bool {
        self.spec_buffer().wf() && self.spec_row_idx() < self.spec_buffer().spec_num_rows()
            && self.spec_col_idx() < self.spec_buffer().spec_num_cols()
    }

    /// The datum this view points at, exactly as the buffer stores it.
    pub fn value(&self) -> (r: &Value)
        requires
            self.wf(),
        ensures
            *r == self.spec_buffer().spec_datum(
                self.spec_row_idx() as int,
                self.spec_col_idx() as int,
            ),
    {
        &self.core.rows[self.row_idx][self.col_idx]
    }

    /// The type tag of the datum this view points at.
    pub fn data_type(&self) -> (t: DataType)
        requires
            self.wf(),
        ensures
            t == self.spec_buffer().spec_datum(
                self.spec_row_idx() as int,
                self.spec_col_idx() as int,
            ).spec_data_type(),
    {
        self.value().data_type()
    }

    /// The schema name of the column this view points at.
    pub fn name(&self) -> (r: &String)
        requires
            self.wf(),
        ensures
            r@ == self.spec_buffer().spec_col_name(self.spec_col_idx() as int),
    {
        match self.core.schema.column_at(self.col_idx) {
            Some(c) => c.name(),
            None => vstd::pervasive::unreached(),
        }
    }
}

} // verus!
