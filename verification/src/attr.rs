//! The attributes of a field, as the derive reads them.

use vstd::prelude::*;
use crate::error::{view_result, MapError};
use crate::map::Wrapper;
use crate::text::{parse_u32, parse_u32_spec, same_text};

verus! {

/// The value on the right of `name = ..`.
#[derive(Debug, PartialEq, Eq)]
pub enum MetaValue {
    /// A string literal, by its value.
    Str(String),
    /// An integer literal, by its base-10 digits.
    Int(String),
    /// Any other expression.
    Other,
}

/// One comma-separated part of the tokens in `name(..)`.
#[derive(Debug, PartialEq, Eq)]
pub enum MetaArg {
    /// A single identifier.
    Ident(String),
    /// A single integer literal, by its base-10 digits.
    Int(String),
    /// Anything else, an empty part among them.
    Other,
}

/// One attribute of a field. `ident` is the attribute's name where its path is
/// a single identifier.
#[derive(Debug, PartialEq, Eq)]
pub enum Meta {
    /// `name`
    Path { ident: Option<String> },
    /// `name(args)`; `trailing_comma` tells that a comma ends the last part.
    List { ident: Option<String>, args: Vec<MetaArg>, trailing_comma: bool },
    /// `name = value`
    NameValue { ident: Option<String>, value: MetaValue },
    /// A wrapper attribute, naming the wrapper types of keys and values.
    Wrapper(Wrapper),
}

pub open spec fn view_option<T: View>(o: Option<T>) -> Option<T::V> {
    match o {
        Some(t) => Some(t@),
        None => None,
    }
}

/// The attribute's name where its path is a single identifier.
pub open spec fn meta_ident(m: Meta) -> Option<Seq<char>> {
    match m {
        Meta::Path { ident } => view_option(ident),
        Meta::List { ident, .. } => view_option(ident),
        Meta::NameValue { ident, .. } => view_option(ident),
        Meta::Wrapper(_) => None,
    }
}

/// The tag that a number text gives.
pub open spec fn tag_number(s: Seq<char>) -> Result<Option<u32>, MapError<Seq<char>>> {
    match parse_u32_spec(s) {
        Some(n) => Ok(Some(n)),
        None => Err(MapError::InvalidTag),
    }
}

/// What a `tag` attribute sets: `Ok(None)` for an attribute of another name;
/// the number of `tag(N)`, `tag = N` or `tag = "N"`; an error for any other form
/// or a number that does not fit in 32 bits.
pub open spec fn tag_attr_spec(m: Meta) -> Result<Option<u32>, MapError<Seq<char>>> {
    if meta_ident(m) != Some("tag"@) {
        Ok(None)
    } else {
        match m {
            Meta::List { args, trailing_comma, .. } => if args@.len() == 1 && !trailing_comma {
                match args@[0] {
                    MetaArg::Int(d) => tag_number(d@),
                    _ => Err(MapError::InvalidTag),
                }
            } else {
                Err(MapError::InvalidTag)
            },
            Meta::NameValue { value, .. } => match value {
                MetaValue::Str(s) => tag_number(s@),
                MetaValue::Int(d) => tag_number(d@),
                MetaValue::Other => Err(MapError::InvalidTag),
            },
            _ => Err(MapError::InvalidTag),
        }
    }
}

/// Whether the attribute's name is the identifier `name`.
pub fn is_named(m: &Meta, name: &str) -> (r: bool)
    ensures
        r == (meta_ident(*m) == Some(name@)),
{
    let ident = match m {
        Meta::Path { ident } => ident,
        Meta::List { ident, .. } => ident,
        Meta::NameValue { ident, .. } => ident,
        Meta::Wrapper(_) => {
            return false;
        },
    };
    match ident {
        Some(i) => same_text(i.as_str(), name),
        None => false,
    }
}

fn number_tag(s: &str) -> (r: Result<Option<u32>, MapError>)
    ensures
        view_result(r) == tag_number(s@),
{
    match parse_u32(s) {
        Some(n) => Ok(Some(n)),
        None => Err(MapError::InvalidTag),
    }
}

/// Reads a `tag` attribute.
pub fn tag_attr(m: &Meta) -> (r: Result<Option<u32>, MapError>)
    ensures
        view_result(r) == tag_attr_spec(*m),
{
    if !is_named(m, "tag") {
        return Ok(None);
    }
    match m {
        Meta::List { args, trailing_comma, .. } => {
            if args.len() == 1 && !*trailing_comma {
                match &args[0] {
                    MetaArg::Int(d) => number_tag(d.as_str()),
                    _ => Err(MapError::InvalidTag),
                }
            } else {
                Err(MapError::InvalidTag)
            }
        },
        Meta::NameValue { value, .. } => match value {
            MetaValue::Str(s) => number_tag(s.as_str()),
            MetaValue::Int(d) => number_tag(d.as_str()),
            MetaValue::Other => Err(MapError::InvalidTag),
        },
        _ => Err(MapError::InvalidTag),
    }
}

} // verus!
