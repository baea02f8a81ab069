//! Errors of attribute parsing.

use vstd::prelude::*;
use vstd::string::*;

verus! {

/// Why a field's attributes were refused. `S` holds the offending text: a
/// `String` in executable code, its characters in specifications.
#[derive(Debug, PartialEq, Eq)]
pub enum MapError<S = String> {
    /// A type name that is no protobuf scalar type.
    InvalidType(S),
    /// The path of an enumeration type that does not parse as a Rust path.
    InvalidPath(S),
    /// A scalar type that cannot key a map.
    InvalidKeyType(S),
    /// A text that is neither a scalar type nor `message`.
    InvalidValueType(S),
    /// A `map = ".."` text without a comma.
    MissingValueType,
    /// A `map = ".."` text with more than two comma-separated parts.
    TooManyTypes(S),
    /// A `map(..)` list of other than two types.
    WrongTypeCount,
    /// A `map(..)` list that is not a comma-separated list of identifiers.
    InvalidTypeList,
    /// A `tag` attribute that does not give a 32-bit number.
    InvalidTag,
    /// A second `tag` attribute.
    DuplicateTag,
    /// A second map type attribute.
    DuplicateMapType,
    /// A second wrapper attribute.
    DuplicateWrapper,
}

impl<S: View> View for MapError<S> {
    type V = MapError<S::V>;

    open spec fn view(&self) -> MapError<S::V> {
        match self {
            MapError::InvalidType(s) => MapError::InvalidType(s@),
            MapError::InvalidPath(s) => MapError::InvalidPath(s@),
            MapError::InvalidKeyType(s) => MapError::InvalidKeyType(s@),
            MapError::InvalidValueType(s) => MapError::InvalidValueType(s@),
            MapError::MissingValueType => MapError::MissingValueType,
            MapError::TooManyTypes(s) => MapError::TooManyTypes(s@),
            MapError::WrongTypeCount => MapError::WrongTypeCount,
            MapError::InvalidTypeList => MapError::InvalidTypeList,
            MapError::InvalidTag => MapError::InvalidTag,
            MapError::DuplicateTag => MapError::DuplicateTag,
            MapError::DuplicateMapType => MapError::DuplicateMapType,
            MapError::DuplicateWrapper => MapError::DuplicateWrapper,
        }
    }
}

/// The view of a result whose error is a `MapError`.
pub open spec fn view_result<T: View>(r: Result<T, MapError>) -> Result<T::V, MapError<Seq<char>>> {
    match r {
        Ok(v) => Ok(v@),
        Err(e) => Err(e@),
    }
}

/// The message that the error `e` is reported with: a fixed text, followed for
/// the errors that name a text by `": "` and that text.
pub open spec fn message_spec(e: MapError<Seq<char>>) -> Seq<char> {
    match e {
        MapError::InvalidType(s) => "invalid type: "@ + s,
        MapError::InvalidPath(s) => "invalid enumeration path: "@ + s,
        MapError::InvalidKeyType(s) => "invalid map key type: "@ + s,
        MapError::InvalidValueType(s) => "invalid map value type: "@ + s,
        MapError::MissingValueType => "invalid map attribute: must have key and value types"@,
        MapError::TooManyTypes(s) => "invalid map attribute: "@ + s,
        MapError::WrongTypeCount => "invalid map attribute: must contain key and value types"@,
        MapError::InvalidTypeList => "invalid map attribute: expected identifiers"@,
        MapError::InvalidTag => "invalid tag attribute"@,
        MapError::DuplicateTag => "duplicate tag attributes"@,
        MapError::DuplicateMapType => "duplicate map type attribute"@,
        MapError::DuplicateWrapper => "duplicate wrapper attribute"@,
    }
}

fn prefixed(prefix: &str, s: &String) -> (r: String)
    ensures
        r@ == prefix@ + s@,
{
    let mut r = String::from_str(prefix);
    r.append(s.as_str());
    r
}

impl MapError {
    /// The message that the error is reported with.
    pub fn message(&self) -> (r: String)
        ensures
            r@ == message_spec(self@),
    {
        match self {
            MapError::InvalidType(s) => prefixed("invalid type: ", s),
            MapError::InvalidPath(s) => prefixed("invalid enumeration path: ", s),
            MapError::InvalidKeyType(s) => prefixed("invalid map key type: ", s),
            MapError::InvalidValueType(s) => prefixed("invalid map value type: ", s),
            MapError::MissingValueType => String::from_str(
                "invalid map attribute: must have key and value types",
            ),
            MapError::TooManyTypes(s) => prefixed("invalid map attribute: ", s),
            MapError::WrongTypeCount => String::from_str(
                "invalid map attribute: must contain key and value types",
            ),
            MapError::InvalidTypeList => String::from_str(
                "invalid map attribute: expected identifiers",
            ),
            MapError::InvalidTag => String::from_str("invalid tag attribute"),
            MapError::DuplicateTag => String::from_str("duplicate tag attributes"),
            MapError::DuplicateMapType => String::from_str("duplicate map type attribute"),
            MapError::DuplicateWrapper => String::from_str("duplicate wrapper attribute"),
        }
    }
}

} // verus!
