use vstd::prelude::*;
use crate::error::ApiError;

verus! {

/// What `uuid::Uuid::parse_str` reads from a text, as a 128-bit value.
pub uninterp spec fn uuid_parse_of(s: Seq<char>) -> Option<u128>;

/// Relies on uuid::Uuid::new_v4 (and `as_u128`): a random version-4
/// identifier. Nothing is promised of the value.
#[verifier::external_body]
fn fresh_uuid() -> (r: u128) {
    uuid::Uuid::new_v4().as_u128()
}

/// Relies on uuid::Uuid::parse_str (and `as_u128`): the result depends on
/// the text alone, and an empty text is refused.
#[verifier::external_body]
fn parse_uuid(s: &str) -> (r: Option<u128>)
    ensures
        r == uuid_parse_of(s@),
        s@.len() == 0 ==> r is None,
{
    uuid::Uuid::parse_str(s).ok().map(|u| u.as_u128())
}

/// Access to the raw value behind an identifier.
pub trait IntoInner {
    type Output;

    spec fn inner_spec(&self) -> Self::Output;

    fn into_inner(&self) -> (r: Self::Output)
        ensures
            r == self.inner_spec(),
    ;
}

/// The identifier of a record.
#[derive(Debug, Clone, Copy, PartialEq, Eq, Structural, Hash)]
pub struct RecordId(pub u128);

/// The identifier of a column.
#[derive(Debug, Clone, Copy, PartialEq, Eq, Structural, Hash)]
pub struct ColumnId(pub u128);

/// The identifier of a stored value.
#[derive(Debug, Clone, Copy, PartialEq, Eq, Structural, Hash)]
pub struct RowId(pub u128);

impl View for RecordId {
    type V = u128;

    open spec fn view(&self) -> u128 {
        self.0
    }
}

impl View for ColumnId {
    type V = u128;

    open spec fn view(&self) -> u128 {
        self.0
    }
}

impl View for RowId {
    type V = u128;

    open spec fn view(&self) -> u128 {
        self.0
    }
}

impl RecordId {
    /// A freshly drawn random identifier.
    pub fn new() -> (r: Self) {
        RecordId(fresh_uuid())
    }

    pub fn from_uuid(a: u128) -> (r: Self)
        ensures
            r@ == a,
    {
        RecordId(a)
    }

    /// Reads an identifier that a client supplied as text.
    pub fn parse(text: &str) -> (r: Result<Self, ApiError>)
        ensures
            r == (match uuid_parse_of(text@) {
                Some(v) => Ok::<RecordId, ApiError>(RecordId(v)),
                None => Err(ApiError::MalformedIdentifier),
            }),
    {
        match parse_uuid(text) {
            Some(v) => Ok(RecordId(v)),
            None => Err(ApiError::MalformedIdentifier),
        }
    }
}

impl ColumnId {
    /// A freshly drawn random identifier.
    pub fn new() -> (r: Self) {
        ColumnId(fresh_uuid())
    }

    pub fn from_uuid(a: u128) -> (r: Self)
        ensures
            r@ == a,
    {
        ColumnId(a)
    }

    /// Reads an identifier that a client supplied as text.
    pub fn parse(text: &str) -> (r: Result<Self, ApiError>)
        ensures
            r == (match uuid_parse_of(text@) {
                Some(v) => Ok::<ColumnId, ApiError>(ColumnId(v)),
                None => Err(ApiError::MalformedIdentifier),
            }),
    {
        match parse_uuid(text) {
            Some(v) => Ok(ColumnId(v)),
            None => Err(ApiError::MalformedIdentifier),
        }
    }
}

impl RowId {
    /// A freshly drawn random identifier.
    pub fn new() -> (r: Self) {
        RowId(fresh_uuid())
    }

    pub fn from_uuid(a: u128) -> (r: Self)
        ensures
            r@ == a,
    {
        RowId(a)
    }
}

impl IntoInner for RecordId {
    type Output = u128;

    open spec fn inner_spec(&self) -> u128 {
        self.0
    }

    fn into_inner(&self) -> (r: u128) {
        self.0
    }
}

impl IntoInner for ColumnId {
    type Output = u128;

    open spec fn inner_spec(&self) -> u128 {
        self.0
    }

    fn into_inner(&self) -> (r: u128) {
        self.0
    }
}

impl IntoInner for RowId {
    type Output = u128;

    open spec fn inner_spec(&self) -> u128 {
        self.0
    }

    fn into_inner(&self) -> (r: u128) {
        self.0
    }
}

} // verus!
