//! Write records ("points") and their builder.
//!
//! A point is one row destined for a write batch: a table name, a
//! timestamp, and named tag and field values. A [`PointBuilder`]
//! accumulates these without any validation at call time; every rule is
//! checked once, at [`PointBuilder::build`], in a fixed priority order:
//! a reserved tag or field name, then an empty field set, then a missing
//! table name, then a missing timestamp. Building consumes the builder,
//! so a fresh builder is needed for the next record.
//!
//! Tag and field names must not collide with the column names the storage
//! engine treats as implicit; that comparison ignores ASCII case.

use vstd::prelude::*;
use vstd::string::StrSliceExecFns;

use crate::value::Value;

verus! {

/// The ASCII-lowercased code point of a character: letters `A` through
/// `Z` are mapped to their lowercase counterparts, everything else is
/// left as it is.
pub open spec fn lower_code(c: char) -> u32 {
    if 65 <= c as u32 && c as u32 <= 90 {
        (c as u32 + 32) as u32
    } else {
        c as u32
    }
}

/// Character sequences that are equal when ASCII case is ignored.
pub open spec fn eq_ignore_ascii_case(a: Seq<char>, b: Seq<char>) -> bool {
    a.len() == b.len() && (forall|i: int| 0 <= i < a.len() ==> lower_code(a[i]) == lower_code(b[i]))
}

/// Names the storage engine reserves for its implicit columns; they must
/// not be used as tag or field names. The comparison ignores ASCII case.
pub open spec fn is_reserved_col_name(name: Seq<char>) -> bool {
    eq_ignore_ascii_case(name, "tsid"@) || eq_ignore_ascii_case(name, "timestamp"@)
}

fn char_lower_code(c: char) -> (r: u32)
    ensures
        r == lower_code(c),
{
    let x = c as u32;
    if 65 <= x && x <= 90 {
        x + 32
    } else {
        x
    }
}

fn str_eq_ignore_ascii_case(a: &str, b: &str) -> (r: bool)
    ensures
        r == eq_ignore_ascii_case(a@, b@),
{
    let a_len = a.unicode_len();
    let b_len = b.unicode_len();
    if a_len != b_len {
        return false;
    }
    let mut i: usize = 0;
    while i < a_len
        invariant
            i <= a_len,
            a_len == a@.len(),
            b_len == b@.len(),
            a_len == b_len,
            forall|j: int| 0 <= j < i ==> lower_code(a@[j]) == lower_code(b@[j]),
        decreases a_len - i,
    {
        if char_lower_code(a.get_char(i)) != char_lower_code(b.get_char(i)) {
            return false;
        }
        i += 1;
    }
    true
}

/// Whether `name` collides with a column name the storage engine
/// reserves, ignoring ASCII case.
pub fn is_reserved_column_name(name: &str) -> (r: bool)
    ensures
        r == is_reserved_col_name(name@),
{
    str_eq_ignore_ascii_case(name, "tsid") || str_eq_ignore_ascii_case(name, "timestamp")
}

/// Whether some entry of a tag or field list carries a reserved name.
pub open spec fn has_reserved_name(entries: Seq<(String, Value)>) -> bool {
    exists|i: int| 0 <= i < entries.len() && is_reserved_col_name(#[trigger] entries[i].0@)
}

/// Why a [`PointBuilder::build`] call failed, in priority order: a
/// reserved name wins over an empty field set, which wins over a missing
/// table, which wins over a missing timestamp.
#[derive(Clone, Copy, Debug, PartialEq, Eq, Structural)]
pub enum PointError {
    ReservedColumnName,
    EmptyFields,
    MissingTable,
    MissingTimestamp,
}

/// One validated write record: a table name, a timestamp in milliseconds,
/// and the tag and field entries in the order they were added.
#[derive(Clone, Debug, PartialEq)]
pub struct Point {
    table: String,
    timestamp: i64,
    tags: Vec<(String, Value)>,
    fields: Vec<(String, Value)>,
}

impl Point {
    /// The table name, as a character sequence.
    pub closed spec fn table_chars(&self) -> Seq<char> {
        self.table@
    }

    /// The timestamp, in milliseconds since the epoch.
    pub closed spec fn timestamp_ms(&self) -> i64 {
        self.timestamp
    }

    /// The tag entries, in the order they were added.
    pub closed spec fn tag_entries(&self) -> Seq<(String, Value)> {
        self.tags@
    }

    /// The field entries, in the order they were added.
    pub closed spec fn field_entries(&self) -> Seq<(String, Value)> {
        self.fields@
    }

    pub fn table(&self) -> (r: &String)
        ensures
            r@ == self.table_chars(),
    {
        &self.table
    }

    pub fn timestamp(&self) -> (r: i64)
        ensures
            r == self.timestamp_ms(),
    {
        self.timestamp
    }

    pub fn tags(&self) -> (r: &Vec<(String, Value)>)
        ensures
            r@ == self.tag_entries(),
    {
        &self.tags
    }

    pub fn fields(&self) -> (r: &Vec<(String, Value)>)
        ensures
            r@ == self.field_entries(),
    {
        &self.fields
    }
}

/// Accumulates one write record; validation is deferred to [`Self::build`].
#[derive(Debug)]
pub struct PointBuilder {
    table: String,
    timestamp: Option<i64>,
    tags: Vec<(String, Value)>,
    fields: Vec<(String, Value)>,
    contains_reserved: bool,
}

impl PointBuilder {
    /// The internal reserved-name flag is latched exactly when some
    /// accumulated tag or field name is reserved.
    pub closed spec fn wf(&self) -> bool {
        self.contains_reserved == (has_reserved_name(self.tags@) || has_reserved_name(
            self.fields@,
        ))
    }

    /// The table name accumulated so far; empty means unset.
    pub closed spec fn table_chars(&self) -> Seq<char> {
        self.table@
    }

    /// The timestamp accumulated so far, if one was set.
    pub closed spec fn timestamp_ms(&self) -> Option<i64> {
        self.timestamp
    }

    /// The tag entries accumulated so far, in the order they were added.
    pub closed spec fn tag_entries(&self) -> Seq<(String, Value)> {
        self.tags@
    }

    /// The field entries accumulated so far, in the order they were added.
    pub closed spec fn field_entries(&self) -> Seq<(String, Value)> {
        self.fields@
    }

    /// What [`Self::build`] decides for the accumulated state: the first
    /// violated rule in priority order, or success.
    pub open spec fn spec_build_status(&self) -> Result<(), PointError> {
        if has_reserved_name(self.tag_entries()) || has_reserved_name(self.field_entries()) {
            Err(PointError::ReservedColumnName)
        } else if self.field_entries().len() == 0 {
            Err(PointError::EmptyFields)
        } else if self.table_chars().len() == 0 {
            Err(PointError::MissingTable)
        } else if self.timestamp_ms() is None {
            Err(PointError::MissingTimestamp)
        } else {
            Ok(())
        }
    }

    pub fn new(table: String) -> (b: Self)
        ensures
            b.wf(),
            b.table_chars() == table@,
            b.timestamp_ms() is None,
            b.tag_entries() == Seq::<(String, Value)>::empty(),
            b.field_entries() == Seq::<(String, Value)>::empty(),
    {
        PointBuilder {
            table,
            timestamp: None,
            tags: Vec::new(),
            fields: Vec::new(),
            contains_reserved: false,
        }
    }

    /// Overwrite the table name; no validation happens here.
    pub fn set_table(&mut self, table: String)
        requires
            old(self).wf(),
        ensures
            final(self).wf(),
            final(self).table_chars() == table@,
            final(self).timestamp_ms() == old(self).timestamp_ms(),
            final(self).tag_entries() == old(self).tag_entries(),
            final(self).field_entries() == old(self).field_entries(),
    {
        self.table = table;
    }

    /// Overwrite the timestamp, in milliseconds; no validation happens here.
    pub fn set_timestamp(&mut self, timestamp: i64)
        requires
            old(self).wf(),
        ensures
            final(self).wf(),
            final(self).table_chars() == old(self).table_chars(),
            final(self).timestamp_ms() == Some(timestamp),
            final(self).tag_entries() == old(self).tag_entries(),
            final(self).field_entries() == old(self).field_entries(),
    {
        self.timestamp = Some(timestamp);
    }

    /// Append one tag entry. A reserved name is accepted here and only
    /// reported by [`Self::build`].
    pub fn set_tag(&mut self, name: String, val: Value)
        requires
            old(self).wf(),
        ensures
            final(self).wf(),
            final(self).table_chars() == old(self).table_chars(),
            final(self).timestamp_ms() == old(self).timestamp_ms(),
            final(self).tag_entries() == old(self).tag_entries().push((name, val)),
            final(self).field_entries() == old(self).field_entries(),
    {
        if is_reserved_column_name(name.as_str()) {
            self.contains_reserved = true;
        }
        self.tags.push((name, val));
        proof {
            lemma_has_reserved_name_push(old(self).tags@, self.tags@[self.tags@.len() - 1]);
        }
    }

    /// Append one field entry. A reserved name is accepted here and only
    /// reported by [`Self::build`].
    pub fn set_field(&mut self, name: String, val: Value)
        requires
            old(self).wf(),
        ensures
            final(self).wf(),
            final(self).table_chars() == old(self).table_chars(),
            final(self).timestamp_ms() == old(self).timestamp_ms(),
            final(self).tag_entries() == old(self).tag_entries(),
            final(self).field_entries() == old(self).field_entries().push((name, val)),
    {
        if is_reserved_column_name(name.as_str()) {
            self.contains_reserved = true;
        }
        self.fields.push((name, val));
        proof {
            lemma_has_reserved_name_push(old(self).fields@, self.fields@[self.fields@.len() - 1]);
        }
    }

    /// Validate the accumulated record and, on success, return it as an
    /// immutable [`Point`] carrying exactly the accumulated values. The
    /// builder is consumed either way.
    pub fn build(self) -> (r: Result<Point, PointError>)
        requires
            self.wf(),
        ensures
            r is Ok <==> self.spec_build_status() is Ok,
            r matches Err(e) ==> self.spec_build_status() == Err::<(), PointError>(e),
            r matches Ok(p) ==> p.table_chars() == self.table_chars(),
            r matches Ok(p) ==> self.timestamp_ms() == Some(p.timestamp_ms()),
            r matches Ok(p) ==> p.tag_entries() == self.tag_entries(),
            r matches Ok(p) ==> p.field_entries() == self.field_entries(),
    {
        if self.contains_reserved {
            return Err(PointError::ReservedColumnName);
        }
        if self.fields.len() == 0 {
            return Err(PointError::EmptyFields);
        }
        if self.table.as_str().is_empty() {
            return Err(PointError::MissingTable);
        }
        match self.timestamp {
            None => Err(PointError::MissingTimestamp),
            Some(timestamp) => Ok(
                Point { table: self.table, timestamp, tags: self.tags, fields: self.fields },
            ),
        }
    }
}

/// Appending an entry leaves a reserved name in the list exactly when one
/// was already there or the new entry's name is reserved.
proof fn lemma_has_reserved_name_push(entries: Seq<(String, Value)>, entry: (String, Value))
    ensures
        has_reserved_name(entries.push(entry)) == (has_reserved_name(entries)
            || is_reserved_col_name(entry.0@)),
{
    let pushed = entries.push(entry);
    if has_reserved_name(entries) {
        let i = choose|i: int| 0 <= i < entries.len() && is_reserved_col_name(entries[i].0@);
        assert(pushed[i] == entries[i]);
    }
    if is_reserved_col_name(entry.0@) {
        assert(pushed[entries.len() as int] == entry);
    }
    if has_reserved_name(pushed) {
        let i = choose|i: int| 0 <= i < pushed.len() && is_reserved_col_name(pushed[i].0@);
        if i < entries.len() {
            assert(entries[i] == pushed[i]);
        } else {
            assert(pushed[i] == entry);
        }
    }
}

/// Law: a builder whose accumulated state satisfies every rule — no
/// reserved tag or field name, at least one field, a table name and a
/// timestamp — builds successfully.
pub proof fn lemma_valid_state_builds(b: &PointBuilder)
    requires
        !has_reserved_name(b.tag_entries()),
        !has_reserved_name(b.field_entries()),
        b.field_entries().len() > 0,
        b.table_chars().len() > 0,
        b.timestamp_ms() is Some,
    ensures
        b.spec_build_status() is Ok,
{
}

/// Law: a build fails exactly when some rule is violated, and the error
/// reports the first violated rule in priority order — a reserved name,
/// then an empty field set, then a missing table, then a missing
/// timestamp — even when several rules are violated at once.
pub proof fn lemma_build_error_priority(b: &PointBuilder)
    ensures
        b.spec_build_status() is Err <==> (has_reserved_name(b.tag_entries())
            || has_reserved_name(b.field_entries()) || b.field_entries().len() == 0
            || b.table_chars().len() == 0 || b.timestamp_ms() is None),
        (has_reserved_name(b.tag_entries()) || has_reserved_name(b.field_entries()))
            ==> b.spec_build_status() == Err::<(), PointError>(PointError::ReservedColumnName),
        (!has_reserved_name(b.tag_entries()) && !has_reserved_name(b.field_entries())
            && b.field_entries().len() == 0) ==> b.spec_build_status() == Err::<(), PointError>(
            PointError::EmptyFields,
        ),
        (!has_reserved_name(b.tag_entries()) && !has_reserved_name(b.field_entries())
            && b.field_entries().len() > 0 && b.table_chars().len() == 0)
            ==> b.spec_build_status() == Err::<(), PointError>(PointError::MissingTable),
        (!has_reserved_name(b.tag_entries()) && !has_reserved_name(b.field_entries())
            && b.field_entries().len() > 0 && b.table_chars().len() > 0 && b.timestamp_ms()
            is None) ==> b.spec_build_status() == Err::<(), PointError>(
            PointError::MissingTimestamp,
        ),
{
}

} // verus!
