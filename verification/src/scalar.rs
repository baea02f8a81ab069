//! Protobuf scalar types as they are named in field attributes.

use vstd::prelude::*;
use vstd::string::*;
use crate::attr::view_option;
use crate::error::{view_result, MapError};
use crate::text::{same_text, trim_text, trimmed};

verus! {

/// A protobuf scalar type. `S` holds the Rust path of an enumeration: a `String`
/// in executable code, its characters in specifications.
#[derive(Debug, PartialEq, Eq)]
pub enum ScalarTy<S = String> {
    Double,
    Float,
    Int32,
    Int64,
    Uint32,
    Uint64,
    Sint32,
    Sint64,
    Fixed32,
    Fixed64,
    Sfixed32,
    Sfixed64,
    Bool,
    String,
    Bytes,
    Enumeration(S),
}

impl<S: View> View for ScalarTy<S> {
    type V = ScalarTy<S::V>;

    open spec fn view(&self) -> ScalarTy<S::V> {
        match self {
            ScalarTy::Double => ScalarTy::Double,
            ScalarTy::Float => ScalarTy::Float,
            ScalarTy::Int32 => ScalarTy::Int32,
            ScalarTy::Int64 => ScalarTy::Int64,
            ScalarTy::Uint32 => ScalarTy::Uint32,
            ScalarTy::Uint64 => ScalarTy::Uint64,
            ScalarTy::Sint32 => ScalarTy::Sint32,
            ScalarTy::Sint64 => ScalarTy::Sint64,
            ScalarTy::Fixed32 => ScalarTy::Fixed32,
            ScalarTy::Fixed64 => ScalarTy::Fixed64,
            ScalarTy::Sfixed32 => ScalarTy::Sfixed32,
            ScalarTy::Sfixed64 => ScalarTy::Sfixed64,
            ScalarTy::Bool => ScalarTy::Bool,
            ScalarTy::String => ScalarTy::String,
            ScalarTy::Bytes => ScalarTy::Bytes,
            ScalarTy::Enumeration(p) => ScalarTy::Enumeration(p@),
        }
    }
}

/// Whether `printed` is a printing of the Rust path written in `text`: the
/// tokens of the `syn::Path` that `text` parses to, as `quote` prints them.
pub uninterp spec fn is_path_printing(text: Seq<char>, printed: Seq<char>) -> bool;

/// Calls `syn::parse_str::<syn::Path>` and prints a parsed path back through
/// `quote::ToTokens::to_token_stream`. The contract claims only that a printed
/// result is a printing of the given text. Which texts parse, and how the
/// printed tokens are spaced, is left unsaid: both depend on the lexer and
/// printer that `proc_macro2` picks for the process (the compiler's inside a
/// procedural macro, its own elsewhere).
#[verifier::external_body]
fn reprint_path(text: &str) -> (r: Option<String>)
    ensures
        r matches Some(o) ==> is_path_printing(text@, o@),
{
    match syn::parse_str::<syn::Path>(text) {
        Ok(path) => Some(quote::ToTokens::to_token_stream(&path).to_string()),
        Err(_) => None,
    }
}

/// The scalar type that a plain type keyword names.
pub open spec fn keyword_ty(t: Seq<char>) -> Option<ScalarTy<Seq<char>>> {
    if t == "float"@ {
        Some(ScalarTy::Float)
    } else if t == "double"@ {
        Some(ScalarTy::Double)
    } else if t == "int32"@ {
        Some(ScalarTy::Int32)
    } else if t == "int64"@ {
        Some(ScalarTy::Int64)
    } else if t == "uint32"@ {
        Some(ScalarTy::Uint32)
    } else if t == "uint64"@ {
        Some(ScalarTy::Uint64)
    } else if t == "sint32"@ {
        Some(ScalarTy::Sint32)
    } else if t == "sint64"@ {
        Some(ScalarTy::Sint64)
    } else if t == "fixed32"@ {
        Some(ScalarTy::Fixed32)
    } else if t == "fixed64"@ {
        Some(ScalarTy::Fixed64)
    } else if t == "sfixed32"@ {
        Some(ScalarTy::Sfixed32)
    } else if t == "sfixed64"@ {
        Some(ScalarTy::Sfixed64)
    } else if t == "bool"@ {
        Some(ScalarTy::Bool)
    } else if t == "string"@ {
        Some(ScalarTy::String)
    } else if t == "bytes"@ {
        Some(ScalarTy::Bytes)
    } else {
        None
    }
}

fn keyword(t: &str) -> (r: Option<ScalarTy>)
    ensures
        match r {
            Some(ty) => keyword_ty(t@) == Some(ty@),
            None => keyword_ty(t@) is None,
        },
{
    if same_text(t, "float") {
        Some(ScalarTy::Float)
    } else if same_text(t, "double") {
        Some(ScalarTy::Double)
    } else if same_text(t, "int32") {
        Some(ScalarTy::Int32)
    } else if same_text(t, "int64") {
        Some(ScalarTy::Int64)
    } else if same_text(t, "uint32") {
        Some(ScalarTy::Uint32)
    } else if same_text(t, "uint64") {
        Some(ScalarTy::Uint64)
    } else if same_text(t, "sint32") {
        Some(ScalarTy::Sint32)
    } else if same_text(t, "sint64") {
        Some(ScalarTy::Sint64)
    } else if same_text(t, "fixed32") {
        Some(ScalarTy::Fixed32)
    } else if same_text(t, "fixed64") {
        Some(ScalarTy::Fixed64)
    } else if same_text(t, "sfixed32") {
        Some(ScalarTy::Sfixed32)
    } else if same_text(t, "sfixed64") {
        Some(ScalarTy::Sfixed64)
    } else if same_text(t, "bool") {
        Some(ScalarTy::Bool)
    } else if same_text(t, "string") {
        Some(ScalarTy::String)
    } else if same_text(t, "bytes") {
        Some(ScalarTy::Bytes)
    } else {
        None
    }
}

/// The bracketed part of `enumeration<..>` or `enumeration(..)`, after the keyword
/// and white space: it opens with `<` or `(` and closes with `>` or `)`.
pub open spec fn enumeration_brackets(t: Seq<char>) -> Seq<char> {
    trimmed(t.skip(11))
}

pub open spec fn is_enumeration_form(t: Seq<char>) -> bool {
    let b = enumeration_brackets(t);
    &&& t.len() > 11
    &&& t.take(11) == "enumeration"@
    &&& b.len() >= 2
    &&& (b[0] == '<' || b[0] == '(')
    &&& (b.last() == '>' || b.last() == ')')
}

/// The path inside the brackets of an enumeration type, without white space.
pub open spec fn enumeration_path(t: Seq<char>) -> Seq<char> {
    let b = enumeration_brackets(t);
    trimmed(b.subrange(1, b.len() - 1))
}

/// The scalar type that a type attribute names, where `path` is the printed
/// path of an enumeration where it parses: a type keyword, or `enumeration`
/// followed by a bracketed Rust path; white space around is ignored.
pub open spec fn scalar_ty_given(s: Seq<char>, path: Option<Seq<char>>) -> Result<
    ScalarTy<Seq<char>>,
    MapError<Seq<char>>,
> {
    let t = trimmed(s);
    match keyword_ty(t) {
        Some(ty) => Ok(ty),
        None => if is_enumeration_form(t) {
            match path {
                Some(p) => Ok(ScalarTy::Enumeration(p)),
                None => Err(MapError::InvalidPath(enumeration_path(t))),
            }
        } else {
            Err(MapError::InvalidType(s))
        },
    }
}

/// Whether `path` may stand as the printed path of the enumeration type that
/// `s` names: it is a printing of the path written in `s`.
pub open spec fn path_allowed(s: Seq<char>, path: Option<Seq<char>>) -> bool {
    path matches Some(q) ==> is_path_printing(enumeration_path(trimmed(s)), q)
}

/// Whether `s`, trimmed, names an enumeration type rather than a keyword.
pub open spec fn is_enumeration_candidate(s: Seq<char>) -> bool {
    keyword_ty(trimmed(s)) is None && is_enumeration_form(trimmed(s))
}

impl ScalarTy {
    /// The path text of an enumeration type name; `None` for a keyword or a
    /// text of another form.
    pub fn enumeration_candidate(s: &str) -> (r: Option<&str>)
        ensures
            match r {
                Some(p) => is_enumeration_candidate(s@) && p@ == enumeration_path(trimmed(s@)),
                None => !is_enumeration_candidate(s@),
            },
    {
        let t = trim_text(s);
        if keyword(t).is_some() {
            return None;
        }
        let n = t.unicode_len();
        if n <= 11 || !same_text(t.substring_char(0, 11), "enumeration") {
            return None;
        }
        let b = trim_text(t.substring_char(11, n));
        assert(b@ == enumeration_brackets(t@));
        let m = b.unicode_len();
        if m < 2 {
            return None;
        }
        let first = b.get_char(0);
        let last = b.get_char(m - 1);
        if !(first == '<' || first == '(') || !(last == '>' || last == ')') {
            return None;
        }
        Some(trim_text(b.substring_char(1, m - 1)))
    }

    /// Parses a scalar type name, given the printed path of an enumeration
    /// type where it parses (`path`).
    pub fn from_path_check(s: &str, path: Option<String>) -> (r: Result<ScalarTy, MapError>)
        ensures
            view_result(r) == scalar_ty_given(s@, view_option(path)),
    {
        if let Some(ty) = keyword(trim_text(s)) {
            return Ok(ty);
        }
        match ScalarTy::enumeration_candidate(s) {
            Some(p) => match path {
                Some(printed) => Ok(ScalarTy::Enumeration(printed)),
                None => Err(MapError::InvalidPath(String::from_str(p))),
            },
            None => Err(MapError::InvalidType(String::from_str(s))),
        }
    }

    /// Parses a scalar type name; `syn` parses and prints the path of an
    /// enumeration. Keywords and malformed names give one result; for an
    /// enumeration the result is `Enumeration` with a printing of the path
    /// written in `s`, or `InvalidPath`, as `syn` decides.
    pub fn from_str(s: &str) -> (r: Result<ScalarTy, MapError>)
        ensures
            exists|p: Option<Seq<char>>|
                path_allowed(s@, p) && #[trigger] scalar_ty_given(s@, p) == view_result(r),
            r matches Ok(ScalarTy::Enumeration(q)) ==> is_path_printing(
                enumeration_path(trimmed(s@)),
                q@,
            ),
    {
        let path = match ScalarTy::enumeration_candidate(s) {
            Some(p) => reprint_path(p),
            None => None,
        };
        let ghost printed = view_option(path);
        let r = ScalarTy::from_path_check(s, path);
        assert(path_allowed(s@, printed));
        assert(scalar_ty_given(s@, printed) == view_result(r));
        r
    }
}

/// The name of the `prost::encoding` module that encodes values of type `ty`:
/// enumerations travel as `int32`.
pub open spec fn module_spec<S>(ty: ScalarTy<S>) -> Seq<char> {
    match ty {
        ScalarTy::Double => "double"@,
        ScalarTy::Float => "float"@,
        ScalarTy::Int32 => "int32"@,
        ScalarTy::Int64 => "int64"@,
        ScalarTy::Uint32 => "uint32"@,
        ScalarTy::Uint64 => "uint64"@,
        ScalarTy::Sint32 => "sint32"@,
        ScalarTy::Sint64 => "sint64"@,
        ScalarTy::Fixed32 => "fixed32"@,
        ScalarTy::Fixed64 => "fixed64"@,
        ScalarTy::Sfixed32 => "sfixed32"@,
        ScalarTy::Sfixed64 => "sfixed64"@,
        ScalarTy::Bool => "bool"@,
        ScalarTy::String => "string"@,
        ScalarTy::Bytes => "bytes"@,
        ScalarTy::Enumeration(_) => "int32"@,
    }
}

/// The Rust type that holds a value of type `ty`.
pub open spec fn rust_type_spec<S>(ty: ScalarTy<S>) -> Seq<char> {
    match ty {
        ScalarTy::Double => "f64"@,
        ScalarTy::Float => "f32"@,
        ScalarTy::Int32 | ScalarTy::Sint32 | ScalarTy::Sfixed32 => "i32"@,
        ScalarTy::Int64 | ScalarTy::Sint64 | ScalarTy::Sfixed64 => "i64"@,
        ScalarTy::Uint32 | ScalarTy::Fixed32 => "u32"@,
        ScalarTy::Uint64 | ScalarTy::Fixed64 => "u64"@,
        ScalarTy::Bool => "bool"@,
        ScalarTy::String => "::prost::alloc::string::String"@,
        ScalarTy::Bytes => "::prost::alloc::vec::Vec<u8>"@,
        ScalarTy::Enumeration(_) => "i32"@,
    }
}

/// The Rust type through which a value of type `ty` is borrowed.
pub open spec fn rust_ref_type_spec<S>(ty: ScalarTy<S>) -> Seq<char> {
    match ty {
        ScalarTy::String => "&str"@,
        ScalarTy::Bytes => "&[u8]"@,
        _ => rust_type_spec(ty),
    }
}

pub open spec fn is_numeric_spec<S>(ty: ScalarTy<S>) -> bool {
    !(ty is String || ty is Bytes)
}

/// The code of a debug wrapper named `name` for values of type `ty`: for an
/// enumeration, a newtype whose `Debug` shows the variant where the number names
/// one; for other types, the identity function.
pub open spec fn scalar_debug_spec(ty: ScalarTy<Seq<char>>, name: Seq<char>) -> Seq<char> {
    match ty {
        ScalarTy::Enumeration(path) => "struct "@ + name + "<'a>(&'a i32); impl<'a> ::core::fmt::Debug for "@
            + name
            + "<'a> { fn fmt(&self, f: &mut ::core::fmt::Formatter) -> ::core::fmt::Result { let res: ::core::result::Result<"@
            + path
            + ", _> = ::core::convert::TryFrom::try_from(*self.0); match res { Err(_) => ::core::fmt::Debug::fmt(&self.0, f), Ok(en) => ::core::fmt::Debug::fmt(&en, f), } } }"@,
        _ => "#[allow(non_snake_case)] fn "@ + name + "<T>(v: T) -> T { v }"@,
    }
}

impl ScalarTy {
    /// The `prost::encoding` module for this type.
    pub fn module(&self) -> (r: &'static str)
        ensures
            r@ == module_spec(*self),
    {
        match self {
            ScalarTy::Double => "double",
            ScalarTy::Float => "float",
            ScalarTy::Int32 => "int32",
            ScalarTy::Int64 => "int64",
            ScalarTy::Uint32 => "uint32",
            ScalarTy::Uint64 => "uint64",
            ScalarTy::Sint32 => "sint32",
            ScalarTy::Sint64 => "sint64",
            ScalarTy::Fixed32 => "fixed32",
            ScalarTy::Fixed64 => "fixed64",
            ScalarTy::Sfixed32 => "sfixed32",
            ScalarTy::Sfixed64 => "sfixed64",
            ScalarTy::Bool => "bool",
            ScalarTy::String => "string",
            ScalarTy::Bytes => "bytes",
            ScalarTy::Enumeration(_) => "int32",
        }
    }

    /// The Rust type of values of this type.
    pub fn rust_type(&self) -> (r: &'static str)
        ensures
            r@ == rust_type_spec(*self),
    {
        match self {
            ScalarTy::Double => "f64",
            ScalarTy::Float => "f32",
            ScalarTy::Int32 | ScalarTy::Sint32 | ScalarTy::Sfixed32 => "i32",
            ScalarTy::Int64 | ScalarTy::Sint64 | ScalarTy::Sfixed64 => "i64",
            ScalarTy::Uint32 | ScalarTy::Fixed32 => "u32",
            ScalarTy::Uint64 | ScalarTy::Fixed64 => "u64",
            ScalarTy::Bool => "bool",
            ScalarTy::String => "::prost::alloc::string::String",
            ScalarTy::Bytes => "::prost::alloc::vec::Vec<u8>",
            ScalarTy::Enumeration(_) => "i32",
        }
    }

    /// The Rust type through which values of this type are borrowed.
    pub fn rust_ref_type(&self) -> (r: &'static str)
        ensures
            r@ == rust_ref_type_spec(*self),
    {
        match self {
            ScalarTy::String => "&str",
            ScalarTy::Bytes => "&[u8]",
            _ => self.rust_type(),
        }
    }

    /// Whether values of this type are numbers (or booleans), passed by value.
    pub fn is_numeric(&self) -> (r: bool)
        ensures
            r == is_numeric_spec(*self),
    {
        match self {
            ScalarTy::String | ScalarTy::Bytes => false,
            _ => true,
        }
    }

    /// The code of a debug wrapper named `name` for values of this type.
    pub fn debug(&self, name: &str) -> (r: String)
        ensures
            r@ == scalar_debug_spec(self@, name@),
    {
        match self {
            ScalarTy::Enumeration(path) => {
                let mut s = String::from_str("struct ");
                s.append(name);
                s.append("<'a>(&'a i32); impl<'a> ::core::fmt::Debug for ");
                s.append(name);
                s.append(
                    "<'a> { fn fmt(&self, f: &mut ::core::fmt::Formatter) -> ::core::fmt::Result { let res: ::core::result::Result<",
                );
                s.append(path.as_str());
                s.append(
                    ", _> = ::core::convert::TryFrom::try_from(*self.0); match res { Err(_) => ::core::fmt::Debug::fmt(&self.0, f), Ok(en) => ::core::fmt::Debug::fmt(&en, f), } } }",
                );
                s
            },
            _ => {
                let mut s = String::from_str("#[allow(non_snake_case)] fn ");
                s.append(name);
                s.append("<T>(v: T) -> T { v }");
                s
            },
        }
    }
}

} // verus!
