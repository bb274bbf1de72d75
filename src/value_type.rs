use vstd::prelude::*;
use crate::error::ApiError;

verus! {

/// How the text of a stored value is read.
///
/// Booleans are kept as `String` values holding `"true"` or `"false"`;
/// `File` values hold a path, never the file's bytes.
#[derive(Debug, Clone, Copy, PartialEq, Eq, Structural)]
pub enum ValueType {
    String,
    Int,
    File,
}

/// The token under which a tag is stored.
pub open spec fn tag_token(t: ValueType) -> Seq<char> {
    match t {
        ValueType::String => seq!['s', 't', 'r', 'i', 'n', 'g'],
        ValueType::Int => seq!['i', 'n', 't'],
        ValueType::File => seq!['f', 'i', 'l', 'e'],
    }
}

/// The tag that a stored token denotes, if any.
pub open spec fn tag_of(s: Seq<char>) -> Option<ValueType> {
    if s == tag_token(ValueType::String) {
        Some(ValueType::String)
    } else if s == tag_token(ValueType::Int) {
        Some(ValueType::Int)
    } else if s == tag_token(ValueType::File) {
        Some(ValueType::File)
    } else {
        None
    }
}

/// Reading back the token of a tag gives that tag.
pub proof fn lemma_tag_round_trip(t: ValueType)
    ensures
        tag_of(tag_token(t)) == Some(t),
{
    assert(tag_token(ValueType::Int) != tag_token(ValueType::String)) by {
        assert(tag_token(ValueType::Int).len() != tag_token(ValueType::String).len());
    }
    assert(tag_token(ValueType::File) != tag_token(ValueType::String)) by {
        assert(tag_token(ValueType::File).len() != tag_token(ValueType::String).len());
    }
    assert(tag_token(ValueType::File) != tag_token(ValueType::Int)) by {
        assert(tag_token(ValueType::File).len() != tag_token(ValueType::Int).len());
    }
}

impl ValueType {
    /// The canonical lowercase token of this tag.
    pub fn to_text(&self) -> (r: String)
        ensures
            r@ == tag_token(*self),
    {
        let r = match self {
            ValueType::String => "string".to_string(),
            ValueType::Int => "int".to_string(),
            ValueType::File => "file".to_string(),
        };
        proof {
            reveal_strlit("string");
            reveal_strlit("int");
            reveal_strlit("file");
        }
        r
    }

    /// The tag that `token` denotes; any other token is corrupt stored data.
    pub fn from_text(token: &str) -> (r: Result<ValueType, ApiError>)
        ensures
            r == (match tag_of(token@) {
                Some(t) => Ok::<ValueType, ApiError>(t),
                None => Err(ApiError::DataIntegrity),
            }),
    {
        let s = token.to_string();
        let string_token = ValueType::String.to_text();
        let int_token = ValueType::Int.to_text();
        let file_token = ValueType::File.to_text();
        if s == string_token {
            Ok(ValueType::String)
        } else if s == int_token {
            Ok(ValueType::Int)
        } else if s == file_token {
            Ok(ValueType::File)
        } else {
            Err(ApiError::DataIntegrity)
        }
    }
}

} // verus!
