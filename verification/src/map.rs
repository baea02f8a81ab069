//! Map fields: their attributes, and the code that encodes, decodes, measures,
//! clears and shows them.

use vstd::prelude::*;
use vstd::string::*;
use crate::error::{view_result, MapError};
use crate::scalar::{path_allowed, scalar_ty_given, ScalarTy};
use crate::text::{find_char, find_char_from, same_text, trim_text, trimmed};
use crate::attr::{meta_ident, tag_attr, tag_attr_spec, view_option, Meta, MetaArg, MetaValue};

verus! {

/// The Rust collection that holds a map field.
#[derive(Clone, Copy, Debug, PartialEq, Eq, Structural)]
pub enum MapTy {
    HashMap,
    BTreeMap,
}

/// The map type that an attribute name selects: `map` and `hash_map` select a
/// `HashMap`, `btree_map` a `BTreeMap`.
pub open spec fn map_ty_spec(s: Seq<char>) -> Option<MapTy> {
    if s == "map"@ || s == "hash_map"@ {
        Some(MapTy::HashMap)
    } else if s == "btree_map"@ {
        Some(MapTy::BTreeMap)
    } else {
        None
    }
}

impl MapTy {
    pub open spec fn module_spec(self) -> Seq<char> {
        match self {
            MapTy::HashMap => "hash_map"@,
            MapTy::BTreeMap => "btree_map"@,
        }
    }

    pub open spec fn lib_spec(self) -> Seq<char> {
        match self {
            MapTy::HashMap => "std"@,
            MapTy::BTreeMap => "prost::alloc"@,
        }
    }

    pub open spec fn collection_spec(self) -> Seq<char> {
        match self {
            MapTy::HashMap => "HashMap"@,
            MapTy::BTreeMap => "BTreeMap"@,
        }
    }

    /// The name of the `prost::wrapper` function that borrows this map with its
    /// keys (`key`), its values (`value`) or both unwrapped, shared or (`is_mut`)
    /// mutably.
    pub open spec fn raw_method_spec(self, key: bool, value: bool, is_mut: bool) -> Seq<char> {
        let kind = match self {
            MapTy::HashMap => "hash_map"@,
            MapTy::BTreeMap => "btree_map"@,
        };
        let which = if key && value {
            ""@
        } else if key {
            "_key"@
        } else {
            "_value"@
        };
        let access = if is_mut {
            "_mut_ref"@
        } else {
            "_ref"@
        };
        "raw_"@ + kind + which + access
    }

    /// Selects a map type by attribute name.
    pub fn from_str(s: &str) -> (r: Option<MapTy>)
        ensures
            r == map_ty_spec(s@),
    {
        if same_text(s, "map") || same_text(s, "hash_map") {
            Some(MapTy::HashMap)
        } else if same_text(s, "btree_map") {
            Some(MapTy::BTreeMap)
        } else {
            None
        }
    }

    /// The `prost::encoding` module for maps of this type.
    pub fn module(&self) -> (r: &'static str)
        ensures
            r@ == self.module_spec(),
    {
        match self {
            MapTy::HashMap => "hash_map",
            MapTy::BTreeMap => "btree_map",
        }
    }

    /// The crate path under which the collection type lives.
    pub fn lib(&self) -> (r: &'static str)
        ensures
            r@ == self.lib_spec(),
    {
        match self {
            MapTy::HashMap => "std",
            MapTy::BTreeMap => "prost::alloc",
        }
    }

    /// The name of the collection type.
    pub fn collection(&self) -> (r: &'static str)
        ensures
            r@ == self.collection_spec(),
    {
        match self {
            MapTy::HashMap => "HashMap",
            MapTy::BTreeMap => "BTreeMap",
        }
    }

    /// The function that borrows the map with unwrapped keys.
    pub fn raw_map_ref_method(&self) -> (r: &'static str)
        ensures
            r@ == self.raw_method_spec(true, false, false),
    {
        proof {
            reveal_strlit("raw_");
            reveal_strlit("hash_map");
            reveal_strlit("btree_map");
            reveal_strlit("_ref");
            reveal_strlit("raw_hash_map_key_ref");
            reveal_strlit("raw_btree_map_key_ref");
            reveal_strlit("_key");
        }
        let r = match self {
            MapTy::HashMap => "raw_hash_map_key_ref",
            MapTy::BTreeMap => "raw_btree_map_key_ref",
        };
        assert(r@ =~= self.raw_method_spec(true, false, false));
        r
    }

    /// The function that borrows the map with unwrapped keys, mutably.
    pub fn raw_map_mut_ref_method(&self) -> (r: &'static str)
        ensures
            r@ == self.raw_method_spec(true, false, true),
    {
        proof {
            reveal_strlit("raw_");
            reveal_strlit("hash_map");
            reveal_strlit("btree_map");
            reveal_strlit("_mut_ref");
            reveal_strlit("raw_hash_map_key_mut_ref");
            reveal_strlit("raw_btree_map_key_mut_ref");
            reveal_strlit("_key");
        }
        let r = match self {
            MapTy::HashMap => "raw_hash_map_key_mut_ref",
            MapTy::BTreeMap => "raw_btree_map_key_mut_ref",
        };
        assert(r@ =~= self.raw_method_spec(true, false, true));
        r
    }

    /// The function that borrows the map with unwrapped values.
    pub fn raw_map_value_ref_method(&self) -> (r: &'static str)
        ensures
            r@ == self.raw_method_spec(false, true, false),
    {
        proof {
            reveal_strlit("raw_");
            reveal_strlit("hash_map");
            reveal_strlit("btree_map");
            reveal_strlit("_ref");
            reveal_strlit("raw_hash_map_value_ref");
            reveal_strlit("raw_btree_map_value_ref");
            reveal_strlit("_value");
        }
        let r = match self {
            MapTy::HashMap => "raw_hash_map_value_ref",
            MapTy::BTreeMap => "raw_btree_map_value_ref",
        };
        assert(r@ =~= self.raw_method_spec(false, true, false));
        r
    }

    /// The function that borrows the map with unwrapped values, mutably.
    pub fn raw_map_value_mut_ref_method(&self) -> (r: &'static str)
        ensures
            r@ == self.raw_method_spec(false, true, true),
    {
        proof {
            reveal_strlit("raw_");
            reveal_strlit("hash_map");
            reveal_strlit("btree_map");
            reveal_strlit("_mut_ref");
            reveal_strlit("raw_hash_map_value_mut_ref");
            reveal_strlit("raw_btree_map_value_mut_ref");
            reveal_strlit("_value");
        }
        let r = match self {
            MapTy::HashMap => "raw_hash_map_value_mut_ref",
            MapTy::BTreeMap => "raw_btree_map_value_mut_ref",
        };
        assert(r@ =~= self.raw_method_spec(false, true, true));
        r
    }

    /// The function that borrows the map with unwrapped keys and values.
    pub fn raw_map_both_ref_method(&self) -> (r: &'static str)
        ensures
            r@ == self.raw_method_spec(true, true, false),
    {
        proof {
            reveal_strlit("raw_");
            reveal_strlit("hash_map");
            reveal_strlit("btree_map");
            reveal_strlit("_ref");
            reveal_strlit("raw_hash_map_ref");
            reveal_strlit("raw_btree_map_ref");
            reveal_strlit("");
        }
        let r = match self {
            MapTy::HashMap => "raw_hash_map_ref",
            MapTy::BTreeMap => "raw_btree_map_ref",
        };
        assert(r@ =~= self.raw_method_spec(true, true, false));
        r
    }

    /// The function that borrows the map with unwrapped keys and values, mutably.
    pub fn raw_map_both_mut_ref_method(&self) -> (r: &'static str)
        ensures
            r@ == self.raw_method_spec(true, true, true),
    {
        proof {
            reveal_strlit("raw_");
            reveal_strlit("hash_map");
            reveal_strlit("btree_map");
            reveal_strlit("_mut_ref");
            reveal_strlit("raw_hash_map_mut_ref");
            reveal_strlit("raw_btree_map_mut_ref");
            reveal_strlit("");
        }
        let r = match self {
            MapTy::HashMap => "raw_hash_map_mut_ref",
            MapTy::BTreeMap => "raw_btree_map_mut_ref",
        };
        assert(r@ =~= self.raw_method_spec(true, true, true));
        r
    }
}


/// The wrapper types of a map's keys and, where given, of its values.
#[derive(Debug, PartialEq, Eq)]
pub struct Wrapper<S = String> {
    pub key_type: S,
    pub value_type_name: Option<S>,
}

impl<S: View> View for Wrapper<S> {
    type V = Wrapper<S::V>;

    open spec fn view(&self) -> Wrapper<S::V> {
        Wrapper { key_type: self.key_type@, value_type_name: view_option(self.value_type_name) }
    }
}


/// The type of a map's values.
#[derive(Debug, PartialEq, Eq)]
pub enum ValueTy<S = String> {
    Scalar(ScalarTy<S>),
    Message,
}

impl<S: View> View for ValueTy<S> {
    type V = ValueTy<S::V>;

    open spec fn view(&self) -> ValueTy<S::V> {
        match self {
            ValueTy::Scalar(t) => ValueTy::Scalar(t@),
            ValueTy::Message => ValueTy::Message,
        }
    }
}

/// Whether `ty` can key a map: the integer types, `bool` and `string`.
pub open spec fn is_key_ty<S>(ty: ScalarTy<S>) -> bool {
    match ty {
        ScalarTy::Int32 | ScalarTy::Int64 | ScalarTy::Uint32 | ScalarTy::Uint64 | ScalarTy::Sint32
        | ScalarTy::Sint64 | ScalarTy::Fixed32 | ScalarTy::Fixed64 | ScalarTy::Sfixed32
        | ScalarTy::Sfixed64 | ScalarTy::Bool | ScalarTy::String => true,
        _ => false,
    }
}

/// The key type that a type name gives, where `path` is the printed path of
/// an enumeration where it parses.
pub open spec fn key_ty_given(s: Seq<char>, path: Option<Seq<char>>) -> Result<
    ScalarTy<Seq<char>>,
    MapError<Seq<char>>,
> {
    match scalar_ty_given(s, path) {
        Ok(ty) => if is_key_ty(ty) {
            Ok(ty)
        } else {
            Err(MapError::InvalidKeyType(s))
        },
        Err(e) => Err(e),
    }
}

/// The value type that a type name gives: a scalar type, or `message`; `path`
/// as for `key_ty_given`.
pub open spec fn value_ty_given(s: Seq<char>, path: Option<Seq<char>>) -> Result<
    ValueTy<Seq<char>>,
    MapError<Seq<char>>,
> {
    match scalar_ty_given(s, path) {
        Ok(ty) => Ok(ValueTy::Scalar(ty)),
        Err(_) => if trimmed(s) == "message"@ {
            Ok(ValueTy::Message)
        } else {
            Err(MapError::InvalidValueType(s))
        },
    }
}

fn is_key_scalar(ty: &ScalarTy) -> (r: bool)
    ensures
        r == is_key_ty(*ty),
{
    match ty {
        ScalarTy::Int32 | ScalarTy::Int64 | ScalarTy::Uint32 | ScalarTy::Uint64 | ScalarTy::Sint32
        | ScalarTy::Sint64 | ScalarTy::Fixed32 | ScalarTy::Fixed64 | ScalarTy::Sfixed32
        | ScalarTy::Sfixed64 | ScalarTy::Bool | ScalarTy::String => true,
        _ => false,
    }
}

/// Parses the key type of a map.
pub fn key_ty_from_str(s: &str) -> (r: Result<ScalarTy, MapError>)
    ensures
        exists|p: Option<Seq<char>>|
            path_allowed(s@, p) && #[trigger] key_ty_given(s@, p) == view_result(r),
{
    let parsed = ScalarTy::from_str(s);
    let ghost p = choose|p: Option<Seq<char>>|
        path_allowed(s@, p) && scalar_ty_given(s@, p) == view_result(parsed);
    let r = match parsed {
        Ok(ty) => if is_key_scalar(&ty) {
            Ok(ty)
        } else {
            Err(MapError::InvalidKeyType(String::from_str(s)))
        },
        Err(e) => Err(e),
    };
    assert(key_ty_given(s@, p) == view_result(r));
    r
}

impl ValueTy {
    /// Parses the value type of a map.
    pub fn from_str(s: &str) -> (r: Result<ValueTy, MapError>)
        ensures
            exists|p: Option<Seq<char>>|
                path_allowed(s@, p) && #[trigger] value_ty_given(s@, p) == view_result(r),
    {
        let parsed = ScalarTy::from_str(s);
        let ghost p = choose|p: Option<Seq<char>>|
            path_allowed(s@, p) && scalar_ty_given(s@, p) == view_result(parsed);
        let r = match parsed {
            Ok(ty) => Ok(ValueTy::Scalar(ty)),
            Err(_) => if same_text(trim_text(s), "message") {
                Ok(ValueTy::Message)
            } else {
                Err(MapError::InvalidValueType(String::from_str(s)))
            },
        };
        assert(value_ty_given(s@, p) == view_result(r));
        r
    }
}


/// The key and value type names of `"key, value"`: the text must hold exactly
/// one comma.
pub open spec fn split_pair_spec(s: Seq<char>) -> Result<(Seq<char>, Seq<char>), MapError<Seq<char>>> {
    let c = find_char(s, ',', 0);
    if c >= s.len() {
        Err(MapError::MissingValueType)
    } else if find_char(s, ',', c + 1) < s.len() {
        Err(MapError::TooManyTypes(s))
    } else {
        Ok((s.take(c), s.skip(c + 1)))
    }
}

pub open spec fn all_idents(args: Seq<MetaArg>) -> bool {
    forall|i: int| 0 <= i < args.len() ==> #[trigger] args[i] is Ident
}

pub open spec fn arg_text(a: MetaArg) -> Seq<char> {
    match a {
        MetaArg::Ident(t) => t@,
        _ => Seq::empty(),
    }
}

/// The key and value type names that a map attribute gives: from
/// `map = "key, value"` or `map(key, value)`. `Ok(None)` for any other form:
/// the field is then no map field.
pub open spec fn map_pair_spec(m: Meta) -> Result<Option<(Seq<char>, Seq<char>)>, MapError<Seq<char>>> {
    match m {
        Meta::NameValue { value: MetaValue::Str(lit), .. } => match split_pair_spec(lit@) {
            Ok(p) => Ok(Some(p)),
            Err(e) => Err(e),
        },
        Meta::List { args, trailing_comma, .. } => if !all_idents(args@) || (args@.len() == 0
            && trailing_comma) {
            Err(MapError::InvalidTypeList)
        } else if args@.len() != 2 {
            Err(MapError::WrongTypeCount)
        } else {
            Ok(Some((arg_text(args@[0]), arg_text(args@[1]))))
        },
        _ => Ok(None),
    }
}

/// Splits `"key, value"`.
fn split_pair(s: &str) -> (r: Result<(&str, &str), MapError>)
    ensures
        match r {
            Ok((k, v)) => split_pair_spec(s@) == Ok::<_, MapError<Seq<char>>>((k@, v@)),
            Err(e) => split_pair_spec(s@) == Err::<(Seq<char>, Seq<char>), _>(e@),
        },
{
    let n = s.unicode_len();
    let c = find_char_from(s, ',', 0);
    if c >= n {
        return Err(MapError::MissingValueType);
    }
    if find_char_from(s, ',', c + 1) < n {
        return Err(MapError::TooManyTypes(String::from_str(s)));
    }
    Ok((s.substring_char(0, c), s.substring_char(c + 1, n)))
}

/// Reads the key and value type names of a map attribute.
fn map_pair(m: &Meta) -> (r: Result<Option<(&str, &str)>, MapError>)
    ensures
        match r {
            Ok(Some((k, v))) => map_pair_spec(*m) == Ok::<_, MapError<Seq<char>>>(Some((k@, v@))),
            Ok(None) => map_pair_spec(*m) == Ok::<Option<(Seq<char>, Seq<char>)>, MapError<Seq<char>>>(None),
            Err(e) => map_pair_spec(*m) == Err::<Option<(Seq<char>, Seq<char>)>, _>(e@),
        },
{
    match m {
        Meta::NameValue { value: MetaValue::Str(lit), .. } => {
            let (k, v) = split_pair(lit.as_str())?;
            Ok(Some((k, v)))
        },
        Meta::List { args, trailing_comma, .. } => {
            let n = args.len();
            let mut i: usize = 0;
            #[verifier::loop_isolation(false)]
            while i < n
                invariant
                    n == args@.len(),
                    i <= n,
                    forall|j: int| 0 <= j < i ==> #[trigger] args@[j] is Ident,
                decreases n - i,
            {
                match &args[i] {
                    MetaArg::Ident(_) => {},
                    _ => {
                        assert(!(args@[i as int] is Ident));
                        assert(!all_idents(args@));
                        return Err(MapError::InvalidTypeList);
                    },
                }
                i = i + 1;
            }
            if n == 0 && *trailing_comma {
                return Err(MapError::InvalidTypeList);
            }
            if n != 2 {
                return Err(MapError::WrongTypeCount);
            }
            match (&args[0], &args[1]) {
                (MetaArg::Ident(k), MetaArg::Ident(v)) => Ok(Some((k.as_str(), v.as_str()))),
                _ => Err(MapError::InvalidTypeList),
            }
        },
        _ => Ok(None),
    }
}


/// What the attributes of a field have set so far.
pub struct FieldAttrs<S = String> {
    pub types: Option<(MapTy, ScalarTy<S>, ValueTy<S>)>,
    pub tag: Option<u32>,
    pub key_wrapper: Option<Wrapper<S>>,
}

impl<S: View> View for FieldAttrs<S> {
    type V = FieldAttrs<S::V>;

    open spec fn view(&self) -> FieldAttrs<S::V> {
        FieldAttrs {
            types: match self.types {
                Some((m, k, v)) => Some((m, k@, v@)),
                None => None,
            },
            tag: self.tag,
            key_wrapper: view_option(self.key_wrapper),
        }
    }
}

/// The outcome of reading one attribute.
pub enum AttrStep {
    /// The attribute belongs to a map field; reading goes on from this state.
    Next(FieldAttrs<Seq<char>>),
    /// The attribute belongs to no map field: the field is no map field.
    Reject,
    /// The attribute is malformed, or repeats one already read.
    Fail(MapError<Seq<char>>),
}

/// The map type that the attribute's name selects.
pub open spec fn meta_map_ty(m: Meta) -> Option<MapTy> {
    match meta_ident(m) {
        Some(i) => map_ty_spec(i),
        None => None,
    }
}

/// Reads one attribute `m` in state `st`. A `tag` attribute sets the tag; an
/// attribute named `map`, `hash_map` or `btree_map` sets the map, key and value
/// types; a wrapper attribute sets the wrappers. Each may be set once.
/// `key_path` and `value_path` are the printed paths of enumeration types
/// where they parse.
pub open spec fn absorb_given(
    st: FieldAttrs<Seq<char>>,
    m: Meta,
    key_path: Option<Seq<char>>,
    value_path: Option<Seq<char>>,
) -> AttrStep {
    match tag_attr_spec(m) {
        Err(e) => AttrStep::Fail(e),
        Ok(Some(t)) => if st.tag is Some {
            AttrStep::Fail(MapError::DuplicateTag)
        } else {
            AttrStep::Next(FieldAttrs { tag: Some(t), ..st })
        },
        Ok(None) => match meta_map_ty(m) {
            Some(mt) => match map_pair_spec(m) {
                Err(e) => AttrStep::Fail(e),
                Ok(None) => AttrStep::Reject,
                Ok(Some((k, v))) => match key_ty_given(k, key_path) {
                    Err(e) => AttrStep::Fail(e),
                    Ok(kt) => match value_ty_given(v, value_path) {
                        Err(e) => AttrStep::Fail(e),
                        Ok(vt) => if st.types is Some {
                            AttrStep::Fail(MapError::DuplicateMapType)
                        } else {
                            AttrStep::Next(FieldAttrs { types: Some((mt, kt, vt)), ..st })
                        },
                    },
                },
            },
            None => match m {
                Meta::Wrapper(w) => if st.key_wrapper is Some {
                    AttrStep::Fail(MapError::DuplicateWrapper)
                } else {
                    AttrStep::Next(FieldAttrs { key_wrapper: Some(w@), ..st })
                },
                _ => AttrStep::Reject,
            },
        },
    }
}

/// Whether `key_path` and `value_path` may stand as the printed paths of the
/// enumeration types that the map attribute `m` names: each is a printing of
/// the path written in its type name.
pub open spec fn paths_allowed(m: Meta, key_path: Option<Seq<char>>, value_path: Option<Seq<char>>) -> bool {
    match map_pair_spec(m) {
        Ok(Some((k, v))) => path_allowed(k, key_path) && path_allowed(v, value_path),
        _ => true,
    }
}

/// Whether reading the attributes `attrs` in order, from state `st`, can end
/// in `out`: each attribute is read with some printings of the paths of its
/// enumeration types, and reading stops at the first attribute that rejects
/// the field or fails.
pub open spec fn absorb_all_allows(st: FieldAttrs<Seq<char>>, attrs: Seq<Meta>, out: AttrStep) -> bool
    decreases attrs.len(),
{
    if attrs.len() == 0 {
        out == AttrStep::Next(st)
    } else {
        exists|kp: Option<Seq<char>>, vp: Option<Seq<char>>|
            paths_allowed(attrs[0], kp, vp) && match #[trigger] absorb_given(st, attrs[0], kp, vp) {
                AttrStep::Next(next) => absorb_all_allows(next, attrs.drop_first(), out),
                other => out == other,
            }
    }
}

pub open spec fn no_attrs() -> FieldAttrs<Seq<char>> {
    FieldAttrs { types: None, tag: None, key_wrapper: None }
}

/// A map field.
#[derive(Debug, PartialEq, Eq)]
pub struct Field<S = String> {
    pub map_ty: MapTy,
    pub key_ty: ScalarTy<S>,
    pub value_ty: ValueTy<S>,
    pub tag: u32,
    pub key_wrapper: Option<Wrapper<S>>,
    pub value_wrapper: Option<S>,
}

impl<S: View> View for Field<S> {
    type V = Field<S::V>;

    open spec fn view(&self) -> Field<S::V> {
        Field {
            map_ty: self.map_ty,
            key_ty: self.key_ty@,
            value_ty: self.value_ty@,
            tag: self.tag,
            key_wrapper: view_option(self.key_wrapper),
            value_wrapper: view_option(self.value_wrapper),
        }
    }
}

/// The map field that reading the attributes ends in: `Ok(None)` where an
/// attribute belongs to no map field, or the map types or the tag are missing;
/// the tag of a `tag` attribute takes precedence over `inferred_tag`. The value
/// wrapper is the one that the key wrapper attribute names.
pub open spec fn finish_spec(out: AttrStep, inferred_tag: Option<u32>) -> Result<
    Option<Field<Seq<char>>>,
    MapError<Seq<char>>,
> {
    match out {
        AttrStep::Fail(e) => Err(e),
        AttrStep::Reject => Ok(None),
        AttrStep::Next(st) => {
            let tag = if st.tag is Some {
                st.tag
            } else {
                inferred_tag
            };
            match (st.types, tag) {
                (Some((mt, kt, vt)), Some(t)) => Ok(
                    Some(
                        Field {
                            map_ty: mt,
                            key_ty: kt,
                            value_ty: vt,
                            tag: t,
                            key_wrapper: st.key_wrapper,
                            value_wrapper: match st.key_wrapper {
                                Some(w) => w.value_type_name,
                                None => None,
                            },
                        },
                    ),
                ),
                _ => Ok(None),
            }
        },
    }
}

pub open spec fn view_field_result(r: Result<Option<Field>, MapError>) -> Result<
    Option<Field<Seq<char>>>,
    MapError<Seq<char>>,
> {
    match r {
        Ok(Some(f)) => Ok(Some(f@)),
        Ok(None) => Ok(None),
        Err(e) => Err(e@),
    }
}

fn copy_text(s: &String) -> (r: String)
    ensures
        r@ == s@,
{
    s.clone()
}

fn copy_option_text(s: &Option<String>) -> (r: Option<String>)
    ensures
        view_option(r) == view_option(*s),
{
    match s {
        Some(t) => Some(copy_text(t)),
        None => None,
    }
}

fn copy_wrapper(w: &Wrapper) -> (r: Wrapper)
    ensures
        r@ == w@,
{
    Wrapper { key_type: copy_text(&w.key_type), value_type_name: copy_option_text(&w.value_type_name) }
}

fn meta_map_type(m: &Meta) -> (r: Option<MapTy>)
    ensures
        r == meta_map_ty(*m),
{
    let ident = match m {
        Meta::Path { ident } => ident,
        Meta::List { ident, .. } => ident,
        Meta::NameValue { ident, .. } => ident,
        Meta::Wrapper(_) => {
            return None;
        },
    };
    match ident {
        Some(i) => MapTy::from_str(i.as_str()),
        None => None,
    }
}

/// Whether a call of `absorb` that returned `r` and left the state `after` took
/// the step `step` from the state `before`.
pub open spec fn step_taken(
    step: AttrStep,
    r: Result<bool, MapError>,
    before: FieldAttrs<Seq<char>>,
    after: FieldAttrs<Seq<char>>,
) -> bool {
    match step {
        AttrStep::Next(st) => r == Ok::<bool, MapError>(true) && after == st,
        AttrStep::Reject => r == Ok::<bool, MapError>(false) && after == before,
        AttrStep::Fail(e) => (r matches Err(x) && x@ == e) && after == before,
    }
}

impl FieldAttrs {
    /// Reads one attribute: `Ok(true)` to go on, `Ok(false)` where the field is
    /// no map field.
    pub fn absorb(&mut self, m: &Meta) -> (r: Result<bool, MapError>)
        ensures
            exists|kp: Option<Seq<char>>, vp: Option<Seq<char>>|
                paths_allowed(*m, kp, vp) && step_taken(
                    #[trigger] absorb_given(old(self)@, *m, kp, vp),
                    r,
                    old(self)@,
                    final(self)@,
                ),
    {
        let ghost st0 = self@;
        let tag = tag_attr(m);
        match tag {
            Err(e) => {
                let r = Err(e);
                assert(step_taken(absorb_given(st0, *m, None, None), r, st0, self@));
                return r;
            },
            Ok(Some(t)) => {
                if self.tag.is_some() {
                    let r = Err(MapError::DuplicateTag);
                    assert(step_taken(absorb_given(st0, *m, None, None), r, st0, self@));
                    return r;
                }
                self.tag = Some(t);
                assert(step_taken(absorb_given(st0, *m, None, None), Ok(true), st0, self@));
                return Ok(true);
            },
            Ok(None) => {},
        }
        match meta_map_type(m) {
            Some(mt) => match map_pair(m) {
                Err(e) => {
                    let r = Err(e);
                    assert(step_taken(absorb_given(st0, *m, None, None), r, st0, self@));
                    r
                },
                Ok(None) => {
                    assert(step_taken(absorb_given(st0, *m, None, None), Ok(false), st0, self@));
                    Ok(false)
                },
                Ok(Some((k, v))) => {
                    let kt_r = key_ty_from_str(k);
                    let ghost kp = choose|p: Option<Seq<char>>|
                        path_allowed(k@, p) && key_ty_given(k@, p) == view_result(kt_r);
                    let kt = match kt_r {
                        Ok(t) => t,
                        Err(e) => {
                            let r = Err(e);
                            assert(step_taken(absorb_given(st0, *m, kp, None), r, st0, self@));
                            return r;
                        },
                    };
                    let vt_r = ValueTy::from_str(v);
                    let ghost vp = choose|p: Option<Seq<char>>|
                        path_allowed(v@, p) && value_ty_given(v@, p) == view_result(vt_r);
                    let vt = match vt_r {
                        Ok(t) => t,
                        Err(e) => {
                            let r = Err(e);
                            assert(step_taken(absorb_given(st0, *m, kp, vp), r, st0, self@));
                            return r;
                        },
                    };
                    if self.types.is_some() {
                        let r = Err(MapError::DuplicateMapType);
                        assert(step_taken(absorb_given(st0, *m, kp, vp), r, st0, self@));
                        return r;
                    }
                    self.types = Some((mt, kt, vt));
                    assert(step_taken(absorb_given(st0, *m, kp, vp), Ok(true), st0, self@));
                    Ok(true)
                },
            },
            None => match m {
                Meta::Wrapper(w) => {
                    if self.key_wrapper.is_some() {
                        let r = Err(MapError::DuplicateWrapper);
                        assert(step_taken(absorb_given(st0, *m, None, None), r, st0, self@));
                        return r;
                    }
                    self.key_wrapper = Some(copy_wrapper(w));
                    assert(step_taken(absorb_given(st0, *m, None, None), Ok(true), st0, self@));
                    Ok(true)
                },
                _ => {
                    assert(step_taken(absorb_given(st0, *m, None, None), Ok(false), st0, self@));
                    Ok(false)
                },
            },
        }
    }
}

/// Reading the first attribute with the printed paths `kp` and `vp`, then the
/// rest, is one way that reading all of them can go.
proof fn lemma_allows_step(
    st: FieldAttrs<Seq<char>>,
    attrs: Seq<Meta>,
    kp: Option<Seq<char>>,
    vp: Option<Seq<char>>,
    out: AttrStep,
)
    requires
        attrs.len() > 0,
        paths_allowed(attrs[0], kp, vp),
        match absorb_given(st, attrs[0], kp, vp) {
            AttrStep::Next(next) => absorb_all_allows(next, attrs.drop_first(), out),
            other => out == other,
        },
    ensures
        absorb_all_allows(st, attrs, out),
{
}

impl Field {
    /// Reads a map field from its attributes; `inferred_tag` is the tag that
    /// the field's position gives, where it has one. Where an attribute names an
    /// enumeration type, its path is the one `syn` prints.
    pub fn new(attrs: &[Meta], inferred_tag: Option<u32>) -> (r: Result<Option<Field>, MapError>)
        ensures
            exists|out: AttrStep|
                #[trigger] absorb_all_allows(no_attrs(), attrs@, out) && view_field_result(r)
                    == finish_spec(out, inferred_tag),
    {
        let mut st = FieldAttrs { types: None, tag: None, key_wrapper: None };
        let n = attrs.len();
        let mut i: usize = 0;
        assert(attrs@.skip(0) =~= attrs@);
        while i < n
            invariant
                n == attrs@.len(),
                i <= n,
                forall|out: AttrStep|
                    #[trigger] absorb_all_allows(st@, attrs@.skip(i as int), out) ==> absorb_all_allows(
                        no_attrs(),
                        attrs@,
                        out,
                    ),
            decreases n - i,
        {
            let ghost before = st@;
            let ghost rest = attrs@.skip(i as int);
            proof {
                assert(rest.drop_first() =~= attrs@.skip(i + 1));
                assert(rest[0] == attrs@[i as int]);
            }
            let r = st.absorb(&attrs[i]);
            let ghost (kp, vp) = choose|kp: Option<Seq<char>>, vp: Option<Seq<char>>|
                paths_allowed(attrs@[i as int], kp, vp) && step_taken(
                    absorb_given(before, attrs@[i as int], kp, vp),
                    r,
                    before,
                    st@,
                );
            match r {
                Err(e) => {
                    proof {
                        let out = absorb_given(before, rest[0], kp, vp);
                        lemma_allows_step(before, rest, kp, vp, out);
                        assert(absorb_all_allows(no_attrs(), attrs@, out));
                        assert(view_field_result(Err(e)) == finish_spec(out, inferred_tag));
                    }
                    return Err(e);
                },
                Ok(false) => {
                    proof {
                        let out = absorb_given(before, rest[0], kp, vp);
                        lemma_allows_step(before, rest, kp, vp, out);
                        assert(absorb_all_allows(no_attrs(), attrs@, out));
                        assert(view_field_result(Ok(None)) == finish_spec(out, inferred_tag));
                    }
                    return Ok(None);
                },
                Ok(true) => {
                    proof {
                        assert forall|out: AttrStep|
                            #[trigger] absorb_all_allows(st@, attrs@.skip(i + 1), out) implies absorb_all_allows(
                                no_attrs(),
                                attrs@,
                                out,
                            ) by {
                            lemma_allows_step(before, rest, kp, vp, out);
                        }
                    }
                },
            }
            i = i + 1;
        }
        assert(attrs@.skip(n as int) =~= Seq::<Meta>::empty());
        assert(absorb_all_allows(st@, attrs@.skip(n as int), AttrStep::Next(st@)));
        let ghost out = AttrStep::Next(st@);
        assert(absorb_all_allows(no_attrs(), attrs@, out));
        let tag = match st.tag {
            Some(t) => Some(t),
            None => inferred_tag,
        };
        match (st.types, tag) {
            (Some((map_ty, key_ty, value_ty)), Some(tag)) => {
                let value_wrapper = match &st.key_wrapper {
                    Some(w) => copy_option_text(&w.value_type_name),
                    None => None,
                };
                Ok(
                    Some(
                        Field {
                            map_ty,
                            key_ty,
                            value_ty,
                            tag,
                            key_wrapper: st.key_wrapper,
                            value_wrapper,
                        },
                    ),
                )
            },
            _ => Ok(None),
        }
    }

    /// Reads a map field that is one case of a `oneof`: such a field has no
    /// inferred tag.
    pub fn new_oneof(attrs: &[Meta]) -> (r: Result<Option<Field>, MapError>)
        ensures
            exists|out: AttrStep|
                #[trigger] absorb_all_allows(no_attrs(), attrs@, out) && view_field_result(r)
                    == finish_spec(out, None),
    {
        Field::new(attrs, None)
    }
}

} // verus!
