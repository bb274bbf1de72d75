use vstd::prelude::*;
use crate::error::ApiError;
use crate::ids::{ColumnId, RowId, uuid_parse_of};
use crate::model::Row;
use crate::value_type::ValueType;

verus! {

/// The answer to a request that succeeded.
pub struct Status {
    pub status: bool,
}

/// A request that names a new record.
pub struct Name {
    pub name: String,
}

/// A request that names a new column and, as text, its record.
pub struct NameId {
    pub name: String,
    pub id: String,
}

/// A value and, as text, the column it belongs to.
pub struct ValueId {
    pub for_column: String,
    pub value: String,
}

/// A request for one new value of a column.
pub struct RowReq {
    pub value: String,
    pub for_column: String,
}

/// Every requested value names its column by a well-formed identifier.
pub open spec fn requests_parse(reqs: Seq<RowReq>) -> bool {
    forall|i: int| 0 <= i < reqs.len() ==> uuid_parse_of((#[trigger] reqs[i]).for_column@) is Some
}

/// Turns requested values into plain-text values of their columns, in
/// order, each with a freshly drawn identifier. A column identifier that
/// does not parse refuses the whole batch.
pub fn rows_from_requests(reqs: &Vec<RowReq>) -> (r: Result<Vec<Row>, ApiError>)
    ensures
        r is Ok <==> requests_parse(reqs@),
        r is Err ==> r == Err::<Vec<Row>, ApiError>(ApiError::MalformedIdentifier),
        r is Ok ==> r->Ok_0@.len() == reqs@.len() && forall|i: int|
            0 <= i < reqs@.len() ==> Some((#[trigger] r->Ok_0@[i]).for_column@) == uuid_parse_of(
                reqs@[i].for_column@,
            ) && r->Ok_0@[i].value@ == reqs@[i].value@ && r->Ok_0@[i].value_type
                == ValueType::String,
{
    let mut out: Vec<Row> = Vec::new();
    let mut i: usize = 0;
    while i < reqs.len()
        invariant
            i <= reqs@.len(),
            out@.len() == i,
            forall|m: int| 0 <= m < i ==> uuid_parse_of((#[trigger] reqs@[m]).for_column@) is Some,
            forall|m: int|
                0 <= m < i ==> Some((#[trigger] out@[m]).for_column@) == uuid_parse_of(
                    reqs@[m].for_column@,
                ) && out@[m].value@ == reqs@[m].value@ && out@[m].value_type == ValueType::String,
        decreases reqs.len() - i,
    {
        let req = &reqs[i];
        let for_column = match ColumnId::parse(req.for_column.as_str()) {
            Err(e) => {
                return Err(e);
            },
            Ok(c) => c,
        };
        out.push(
            Row {
                for_column,
                row_id: RowId::new(),
                value: req.value.clone(),
                value_type: ValueType::String,
            },
        );
        i += 1;
    }
    Ok(out)
}

} // verus!
