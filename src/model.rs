use vstd::prelude::*;
use crate::error::ApiError;
use crate::ids::{ColumnId, RecordId, RowId, uuid_parse_of};
use crate::value_type::ValueType;

verus! {

/// A UTC instant: whole seconds since the Unix epoch and the nanoseconds
/// past that second (over a billion only within a leap second).
#[derive(Debug, Clone, Copy, PartialEq, Eq, Structural)]
pub struct Timestamp {
    pub secs: i64,
    pub nanos: u32,
}

/// Relies on chrono::Utc::now, with `timestamp` and `timestamp_subsec_nanos`:
/// the current UTC time, whose sub-second part stays under two billion.
#[verifier::external_body]
fn utc_now() -> (r: (i64, u32))
    ensures
        r.1 < 2_000_000_000,
{
    let now = chrono::Utc::now();
    (now.timestamp(), now.timestamp_subsec_nanos())
}

impl Timestamp {
    pub open spec fn wf(&self) -> bool {
        self.nanos < 2_000_000_000
    }

    /// The current UTC time.
    pub fn now() -> (r: Self)
        ensures
            r.wf(),
    {
        let (secs, nanos) = utc_now();
        Timestamp { secs, nanos }
    }
}

/// The root of a tree: a named group of columns.
#[derive(Debug)]
pub struct Record {
    pub name: String,
    pub record_id: RecordId,
    pub created_on: Timestamp,
}

pub struct RecordView {
    pub name: Seq<char>,
    pub record_id: u128,
    pub created_on: Timestamp,
}

impl View for Record {
    type V = RecordView;

    open spec fn view(&self) -> RecordView {
        RecordView { name: self.name@, record_id: self.record_id@, created_on: self.created_on }
    }
}

impl Clone for Record {
    fn clone(&self) -> (r: Self)
        ensures
            r@ == self@,
    {
        Record { name: self.name.clone(), record_id: self.record_id, created_on: self.created_on }
    }
}

impl Record {
    /// A record named `name`, kept verbatim, with the given identifier and
    /// creation time.
    pub fn stamped(name: String, record_id: RecordId, created_on: Timestamp) -> (r: Self)
        ensures
            r.name == name,
            r.record_id == record_id,
            r.created_on == created_on,
    {
        Record { name, record_id, created_on }
    }

    /// A record named `name`, with a fresh identifier, stamped now.
    pub fn new(name: String) -> (r: Self)
        ensures
            r.name == name,
            r.created_on.wf(),
    {
        Record::stamped(name, RecordId::new(), Timestamp::now())
    }
}

/// A named attribute of one record.
#[derive(Debug)]
pub struct Column {
    pub name: String,
    pub id: ColumnId,
    pub for_record: RecordId,
    pub created_on: Timestamp,
}

pub struct ColumnView {
    pub name: Seq<char>,
    pub id: u128,
    pub for_record: u128,
    pub created_on: Timestamp,
}

impl View for Column {
    type V = ColumnView;

    open spec fn view(&self) -> ColumnView {
        ColumnView {
            name: self.name@,
            id: self.id@,
            for_record: self.for_record@,
            created_on: self.created_on,
        }
    }
}

impl Clone for Column {
    fn clone(&self) -> (r: Self)
        ensures
            r@ == self@,
    {
        Column {
            name: self.name.clone(),
            id: self.id,
            for_record: self.for_record,
            created_on: self.created_on,
        }
    }
}

impl Column {
    /// A column named `name` under the record whose identifier is written in
    /// `id`, with a fresh identifier of its own, stamped now.
    pub fn new(name: &str, id: String) -> (r: Result<Self, ApiError>)
        ensures
            r is Ok <==> uuid_parse_of(id@) is Some,
            r is Err ==> r == Err::<Column, ApiError>(ApiError::MalformedIdentifier),
            r is Ok ==> r->Ok_0.name@ == name@
                && Some(r->Ok_0.for_record@) == uuid_parse_of(id@)
                && r->Ok_0.created_on.wf(),
    {
        let parent = RecordId::parse(id.as_str())?;
        Ok(Column::stamped(name, parent, ColumnId::new(), Timestamp::now()))
    }

    /// A column named `name` under record `for_record`, with the given
    /// identifier and creation time.
    pub fn stamped(name: &str, for_record: RecordId, id: ColumnId, created_on: Timestamp) -> (r:
        Self)
        ensures
            r.name@ == name@,
            r.for_record == for_record,
            r.id == id,
            r.created_on == created_on,
    {
        Column { name: name.to_string(), for_record, id, created_on }
    }
}

/// One typed value of a column, as a caller hands it to the store.
#[derive(Debug)]
pub struct Row {
    pub for_column: ColumnId,
    pub row_id: RowId,
    pub value: String,
    pub value_type: ValueType,
}

/// One value as the backing relation holds it: the tag is stored as text.
#[derive(Debug)]
pub struct StoredRow {
    pub row_id: RowId,
    pub for_column: ColumnId,
    pub value: String,
    pub value_type: String,
}

pub struct StoredRowView {
    pub row_id: u128,
    pub for_column: u128,
    pub value: Seq<char>,
    pub value_type: Seq<char>,
}

impl View for StoredRow {
    type V = StoredRowView;

    open spec fn view(&self) -> StoredRowView {
        StoredRowView {
            row_id: self.row_id@,
            for_column: self.for_column@,
            value: self.value@,
            value_type: self.value_type@,
        }
    }
}

/// A value read back from the store, with its tag decoded.
#[derive(Debug)]
pub struct RowOutput {
    pub row_id: RowId,
    pub value: String,
    pub value_type: ValueType,
    pub for_column: ColumnId,
}

pub struct RowOutputView {
    pub row_id: u128,
    pub value: Seq<char>,
    pub value_type: ValueType,
    pub for_column: u128,
}

impl View for RowOutput {
    type V = RowOutputView;

    open spec fn view(&self) -> RowOutputView {
        RowOutputView {
            row_id: self.row_id@,
            value: self.value@,
            value_type: self.value_type,
            for_column: self.for_column@,
        }
    }
}

/// A column read back from the store, with all of its values.
#[derive(Debug)]
pub struct ColumnOutput {
    pub created_on: Timestamp,
    pub name: String,
    pub id: ColumnId,
    pub rows: Vec<RowOutput>,
}

pub struct ColumnOutputView {
    pub created_on: Timestamp,
    pub name: Seq<char>,
    pub id: u128,
    pub rows: Seq<RowOutputView>,
}

impl View for ColumnOutput {
    type V = ColumnOutputView;

    open spec fn view(&self) -> ColumnOutputView {
        ColumnOutputView {
            created_on: self.created_on,
            name: self.name@,
            id: self.id@,
            rows: self.rows@.map_values(|r: RowOutput| r@),
        }
    }
}

/// A record read back from the store, with all of its columns.
#[derive(Debug)]
pub struct RecordOutput {
    pub columns: Vec<ColumnOutput>,
    pub info: Record,
}

pub struct RecordOutputView {
    pub columns: Seq<ColumnOutputView>,
    pub info: RecordView,
}

impl View for RecordOutput {
    type V = RecordOutputView;

    open spec fn view(&self) -> RecordOutputView {
        RecordOutputView {
            columns: self.columns@.map_values(|c: ColumnOutput| c@),
            info: self.info@,
        }
    }
}

} // verus!
