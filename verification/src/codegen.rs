//! The code that the derive emits for a map field, as Rust source text.

use vstd::prelude::*;
use vstd::string::*;
use crate::map::{Field, MapTy, ValueTy};
use crate::scalar::{module_spec, rust_ref_type_spec, rust_type_spec, scalar_debug_spec, ScalarTy, is_numeric_spec};
use crate::text::{decimal, decimal_text, ident_tail, is_ascii_ident_text, is_ident_tail};
use crate::attr::view_option;

verus! {

pub open spec fn ref_prefix(is_mut: bool) -> Seq<char> {
    if is_mut {
        "&mut "@
    } else {
        "&"@
    }
}

/// The expression that borrows the map `ident`, shared or (`is_mut`) mutably:
/// where keys or values have wrapper types, through the `prost::wrapper`
/// function that views them as the wrapped types.
pub open spec fn apply_wrappers_spec(f: Field<Seq<char>>, ident: Seq<char>, is_mut: bool) -> Seq<char> {
    match (f.key_wrapper, f.value_wrapper) {
        (None, None) => ref_prefix(is_mut) + ident,
        (Some(kw), Some(vt)) => "::prost::wrapper::"@ + f.map_ty.raw_method_spec(true, true, is_mut)
            + "::<"@ + kw.key_type + ", "@ + vt + ">("@ + ref_prefix(is_mut) + ident + ")"@,
        (Some(kw), None) => "::prost::wrapper::"@ + f.map_ty.raw_method_spec(true, false, is_mut)
            + "::<"@ + kw.key_type + ", _>("@ + ref_prefix(is_mut) + ident + ")"@,
        (None, Some(vt)) => "::prost::wrapper::"@ + f.map_ty.raw_method_spec(false, true, is_mut)
            + "::<_, "@ + vt + ">("@ + ref_prefix(is_mut) + ident + ")"@,
    }
}

/// The `prost::encoding` module of the map's values.
pub open spec fn value_codec(v: ValueTy<Seq<char>>) -> Seq<char> {
    match v {
        ValueTy::Scalar(t) => module_spec(t),
        ValueTy::Message => "message"@,
    }
}

/// The tag as a `u32` literal.
pub open spec fn tag_literal(tag: u32) -> Seq<char> {
    decimal(tag as nat) + "u32"@
}

/// The statement that encodes the map `ident` into `buf`: map entries go under
/// the field's tag, keys through the key type's codec and values through the
/// value type's; enumeration values as `int32`, skipping their default.
pub open spec fn encode_spec(f: Field<Seq<char>>, ident: Seq<char>) -> Seq<char> {
    let key_mod = module_spec(f.key_ty);
    let module = f.map_ty.module_spec();
    let map = apply_wrappers_spec(f, ident, false);
    match f.value_ty {
        ValueTy::Scalar(ScalarTy::Enumeration(ty)) => "::prost::encoding::"@ + module
            + "::encode_with_default(::prost::encoding::"@ + key_mod + "::encode, ::prost::encoding::"@
            + key_mod
            + "::encoded_len, ::prost::encoding::int32::encode, ::prost::encoding::int32::encoded_len, &("@
            + ty + "::default() as i32), "@ + tag_literal(f.tag) + ", "@ + map + ", buf,);"@,
        _ => "::prost::encoding::"@ + module + "::encode(::prost::encoding::"@ + key_mod
            + "::encode, ::prost::encoding::"@ + key_mod + "::encoded_len, ::prost::encoding::"@
            + value_codec(f.value_ty) + "::encode, ::prost::encoding::"@ + value_codec(f.value_ty)
            + "::encoded_len, "@ + tag_literal(f.tag) + ", "@ + map + ", buf,);"@,
    }
}

/// The expression that merges one decoded entry from `buf` into the map `ident`.
pub open spec fn merge_spec(f: Field<Seq<char>>, ident: Seq<char>) -> Seq<char> {
    let key_mod = module_spec(f.key_ty);
    let module = f.map_ty.module_spec();
    let map = apply_wrappers_spec(f, ident, true);
    match f.value_ty {
        ValueTy::Scalar(ScalarTy::Enumeration(ty)) => "::prost::encoding::"@ + module
            + "::merge_with_default(::prost::encoding::"@ + key_mod
            + "::merge, ::prost::encoding::int32::merge, "@ + ty + "::default() as i32, "@ + map
            + ", buf, ctx,)"@,
        ValueTy::Scalar(_) => "::prost::encoding::"@ + module + "::merge(::prost::encoding::"@
            + key_mod + "::merge, ::prost::encoding::"@ + value_codec(f.value_ty) + "::merge, "@
            + map + ", buf, ctx)"@,
        ValueTy::Message => "::prost::encoding::"@ + module + "::merge(::prost::encoding::"@
            + key_mod + "::merge, ::prost::encoding::"@ + value_codec(f.value_ty) + "::merge, "@
            + map + ", buf, ctx,)"@,
    }
}

/// The expression that gives the encoded length of the map `ident`.
pub open spec fn encoded_len_spec(f: Field<Seq<char>>, ident: Seq<char>) -> Seq<char> {
    let key_mod = module_spec(f.key_ty);
    let module = f.map_ty.module_spec();
    let map = apply_wrappers_spec(f, ident, false);
    match f.value_ty {
        ValueTy::Scalar(ScalarTy::Enumeration(ty)) => "::prost::encoding::"@ + module
            + "::encoded_len_with_default(::prost::encoding::"@ + key_mod
            + "::encoded_len, ::prost::encoding::int32::encoded_len, &("@ + ty
            + "::default() as i32), "@ + tag_literal(f.tag) + ", "@ + map + ",)"@,
        ValueTy::Scalar(_) => "::prost::encoding::"@ + module + "::encoded_len(::prost::encoding::"@
            + key_mod + "::encoded_len, ::prost::encoding::"@ + value_codec(f.value_ty)
            + "::encoded_len, "@ + tag_literal(f.tag) + ", "@ + map + ")"@,
        ValueTy::Message => "::prost::encoding::"@ + module + "::encoded_len(::prost::encoding::"@
            + key_mod + "::encoded_len, ::prost::encoding::"@ + value_codec(f.value_ty)
            + "::encoded_len, "@ + tag_literal(f.tag) + ", "@ + map + ",)"@,
    }
}

/// The expression that empties the map `ident`.
pub open spec fn clear_spec(ident: Seq<char>) -> Seq<char> {
    ident + ".clear()"@
}

/// The accessors that the message gets for a map whose values are
/// enumerations: `get_<ident>` gives the enumeration of a key where the stored
/// number names one; `insert_<ident>` stores an enumeration and gives back the one
/// it replaced. Maps of other values get none.
pub open spec fn methods_spec(f: Field<Seq<char>>, ident: Seq<char>) -> Option<Seq<char>> {
    match f.value_ty {
        ValueTy::Scalar(ScalarTy::Enumeration(ty)) => {
            let take_ref = if is_numeric_spec(f.key_ty) {
                "&"@
            } else {
                ""@
            };
            Some(
                "#[doc = \"Returns the enum value for the corresponding key in `"@ + ident
                    + "`, or `None` if the entry does not exist or it is not a valid enum value.\"] pub fn get_"@
                    + ident + "(&self, key: "@ + rust_ref_type_spec(f.key_ty)
                    + ") -> ::core::option::Option<"@ + ty + "> { self."@ + ident + ".get("@
                    + take_ref
                    + "key).cloned().and_then(|x| { let result: ::core::result::Result<"@ + ty
                    + ", _> = ::core::convert::TryFrom::try_from(x); result.ok() }) } #[doc = \"Inserts a key value pair into `"@
                    + ident + "`.\"] pub fn insert_"@ + ident + "(&mut self, key: "@
                    + rust_type_spec(f.key_ty) + ", value: "@ + ty
                    + ") -> ::core::option::Option<"@ + ty + "> { self."@ + ident
                    + ".insert(key, value as i32).and_then(|x| { let result: ::core::result::Result<"@
                    + ty + ", _> = ::core::convert::TryFrom::try_from(x); result.ok() }) }"@,
            )
        },
        _ => None,
    }
}

/// Whether the map's values are enumerations.
pub open spec fn is_enumeration_map(f: Field<Seq<char>>) -> bool {
    f.value_ty matches ValueTy::Scalar(ScalarTy::Enumeration(_))
}

/// The debug wrapper of map values of type `v`, named `ValueWrapper`.
pub open spec fn value_debug_spec(v: ValueTy<Seq<char>>) -> Seq<char> {
    match v {
        ValueTy::Scalar(t) => scalar_debug_spec(t, "ValueWrapper"@),
        ValueTy::Message => "fn ValueWrapper<T>(v: T) -> T { v }"@,
    }
}

/// The `fmt` method of the map's debug wrapper: it shows the map as a map, each
/// key through `KeyWrapper` and each value through `ValueWrapper`.
pub open spec fn debug_fmt_spec(f: Field<Seq<char>>) -> Seq<char> {
    "fn fmt(&self, f: &mut ::core::fmt::Formatter) -> ::core::fmt::Result { "@ + scalar_debug_spec(
        f.key_ty,
        "KeyWrapper"@,
    ) + " "@ + value_debug_spec(f.value_ty)
        + " let mut builder = f.debug_map(); for (k, v) in self.0 { builder.entry(&KeyWrapper(k), &ValueWrapper(v)); } builder.finish() }"@
}

/// The Rust type of the map's keys, as the wrapper names it where there is one.
pub open spec fn debug_key_spec(f: Field<Seq<char>>) -> Seq<char> {
    match f.key_wrapper {
        Some(w) => w.key_type,
        None => rust_type_spec(f.key_ty),
    }
}

/// A newtype named `name` over a borrowed map, whose `Debug` shows enumerations
/// by name. Maps of bytes borrow as any `Debug` value and show as it does.
pub open spec fn debug_spec(f: Field<Seq<char>>, name: Seq<char>) -> Seq<char> {
    let lib = f.map_ty.lib_spec();
    let coll = f.map_ty.collection_spec();
    let key = debug_key_spec(f);
    match f.value_ty {
        ValueTy::Scalar(ScalarTy::Bytes) => "struct "@ + name
            + "<'a>(&'a dyn ::core::fmt::Debug); impl<'a> ::core::fmt::Debug for "@ + name
            + "<'a> { fn fmt(&self, f: &mut ::core::fmt::Formatter) -> ::core::fmt::Result { self.0.fmt(f) } }"@,
        ValueTy::Scalar(ty) => {
            let value = match f.value_wrapper {
                Some(v) => v,
                None => rust_type_spec(ty),
            };
            newtype_debug_spec(f, name, value)
        },
        ValueTy::Message => match f.value_wrapper {
            Some(v) => newtype_debug_spec(f, name, v),
            None => "struct "@ + name + "<'a, V: 'a>(&'a ::"@ + lib + "::collections::"@ + coll + "<"@
                + key + ", V>); impl<'a, V> ::core::fmt::Debug for "@ + name
                + "<'a, V> where V: ::core::fmt::Debug + 'a, { "@ + debug_fmt_spec(f) + " }"@,
        },
    }
}

/// A newtype named `name` over a borrowed map whose values have the Rust type
/// `value`, with its `Debug` impl.
pub open spec fn newtype_debug_spec(f: Field<Seq<char>>, name: Seq<char>, value: Seq<char>) -> Seq<char> {
    "struct "@ + name + "<'a>(&'a ::"@ + f.map_ty.lib_spec() + "::collections::"@
        + f.map_ty.collection_spec() + "<"@ + debug_key_spec(f) + ", "@ + value
        + ">); impl<'a> ::core::fmt::Debug for "@ + name + "<'a> { "@ + debug_fmt_spec(f) + " }"@
}

fn tag_text(tag: u32) -> (r: String)
    ensures
        r@ == tag_literal(tag),
{
    let mut s = decimal_text(tag);
    s.append("u32");
    s
}

impl MapTy {
    /// The wrapper-view function for keys (`key`), values (`value`) or both.
    pub fn raw_method(&self, key: bool, value: bool, is_mut: bool) -> (r: &'static str)
        requires
            key || value,
        ensures
            r@ == self.raw_method_spec(key, value, is_mut),
    {
        if key && value {
            if is_mut {
                self.raw_map_both_mut_ref_method()
            } else {
                self.raw_map_both_ref_method()
            }
        } else if key {
            if is_mut {
                self.raw_map_mut_ref_method()
            } else {
                self.raw_map_ref_method()
            }
        } else {
            if is_mut {
                self.raw_map_value_mut_ref_method()
            } else {
                self.raw_map_value_ref_method()
            }
        }
    }
}

impl Field {
    /// The expression that borrows the map `ident`, through the wrapper view
    /// where keys or values are wrapped.
    pub fn apply_wrappers(&self, ident: &str, is_mut: bool) -> (r: String)
        ensures
            r@ == apply_wrappers_spec(self@, ident@, is_mut),
    {
        let prefix = if is_mut {
            "&mut "
        } else {
            "&"
        };
        match (&self.key_wrapper, &self.value_wrapper) {
            (None, None) => {
                let mut s = String::from_str(prefix);
                s.append(ident);
                s
            },
            (Some(kw), Some(vt)) => {
                let mut s = String::from_str("::prost::wrapper::");
                s.append(self.map_ty.raw_method(true, true, is_mut));
                s.append("::<");
                s.append(kw.key_type.as_str());
                s.append(", ");
                s.append(vt.as_str());
                s.append(">(");
                s.append(prefix);
                s.append(ident);
                s.append(")");
                s
            },
            (Some(kw), None) => {
                let mut s = String::from_str("::prost::wrapper::");
                s.append(self.map_ty.raw_method(true, false, is_mut));
                s.append("::<");
                s.append(kw.key_type.as_str());
                s.append(", _>(");
                s.append(prefix);
                s.append(ident);
                s.append(")");
                s
            },
            (None, Some(vt)) => {
                let mut s = String::from_str("::prost::wrapper::");
                s.append(self.map_ty.raw_method(false, true, is_mut));
                s.append("::<_, ");
                s.append(vt.as_str());
                s.append(">(");
                s.append(prefix);
                s.append(ident);
                s.append(")");
                s
            },
        }
    }
}


impl ValueTy {
    /// The `prost::encoding` module of values of this type.
    pub fn codec(&self) -> (r: &'static str)
        ensures
            r@ == value_codec(self@),
    {
        match self {
            ValueTy::Scalar(t) => t.module(),
            ValueTy::Message => "message",
        }
    }
}

impl Field {
    /// The statement that encodes the map `ident`.
    pub fn encode(&self, ident: &str) -> (r: String)
        ensures
            r@ == encode_spec(self@, ident@),
    {
        let key_mod = self.key_ty.module();
        let module = self.map_ty.module();
        let map = self.apply_wrappers(ident, false);
        let tag = tag_text(self.tag);
        let mut s = String::from_str("::prost::encoding::");
        s.append(module);
        match &self.value_ty {
            ValueTy::Scalar(ScalarTy::Enumeration(ty)) => {
                s.append("::encode_with_default(::prost::encoding::");
                s.append(key_mod);
                s.append("::encode, ::prost::encoding::");
                s.append(key_mod);
                s.append(
                    "::encoded_len, ::prost::encoding::int32::encode, ::prost::encoding::int32::encoded_len, &(",
                );
                s.append(ty.as_str());
                s.append("::default() as i32), ");
            },
            _ => {
                let codec = self.value_ty.codec();
                s.append("::encode(::prost::encoding::");
                s.append(key_mod);
                s.append("::encode, ::prost::encoding::");
                s.append(key_mod);
                s.append("::encoded_len, ::prost::encoding::");
                s.append(codec);
                s.append("::encode, ::prost::encoding::");
                s.append(codec);
                s.append("::encoded_len, ");
            },
        }
        s.append(tag.as_str());
        s.append(", ");
        s.append(map.as_str());
        s.append(", buf,);");
        s
    }

    /// The expression that merges one decoded entry into the map `ident`.
    pub fn merge(&self, ident: &str) -> (r: String)
        ensures
            r@ == merge_spec(self@, ident@),
    {
        let key_mod = self.key_ty.module();
        let module = self.map_ty.module();
        let map = self.apply_wrappers(ident, true);
        let mut s = String::from_str("::prost::encoding::");
        s.append(module);
        match &self.value_ty {
            ValueTy::Scalar(ScalarTy::Enumeration(ty)) => {
                s.append("::merge_with_default(::prost::encoding::");
                s.append(key_mod);
                s.append("::merge, ::prost::encoding::int32::merge, ");
                s.append(ty.as_str());
                s.append("::default() as i32, ");
            },
            _ => {
                s.append("::merge(::prost::encoding::");
                s.append(key_mod);
                s.append("::merge, ::prost::encoding::");
                s.append(self.value_ty.codec());
                s.append("::merge, ");
            },
        }
        s.append(map.as_str());
        match &self.value_ty {
            ValueTy::Scalar(ScalarTy::Enumeration(_)) | ValueTy::Message => s.append(", buf, ctx,)"),
            ValueTy::Scalar(_) => s.append(", buf, ctx)"),
        }
        s
    }

    /// The expression that gives the encoded length of the map `ident`.
    pub fn encoded_len(&self, ident: &str) -> (r: String)
        ensures
            r@ == encoded_len_spec(self@, ident@),
    {
        let key_mod = self.key_ty.module();
        let module = self.map_ty.module();
        let map = self.apply_wrappers(ident, false);
        let tag = tag_text(self.tag);
        let mut s = String::from_str("::prost::encoding::");
        s.append(module);
        match &self.value_ty {
            ValueTy::Scalar(ScalarTy::Enumeration(ty)) => {
                s.append("::encoded_len_with_default(::prost::encoding::");
                s.append(key_mod);
                s.append("::encoded_len, ::prost::encoding::int32::encoded_len, &(");
                s.append(ty.as_str());
                s.append("::default() as i32), ");
            },
            _ => {
                s.append("::encoded_len(::prost::encoding::");
                s.append(key_mod);
                s.append("::encoded_len, ::prost::encoding::");
                s.append(self.value_ty.codec());
                s.append("::encoded_len, ");
            },
        }
        s.append(tag.as_str());
        s.append(", ");
        s.append(map.as_str());
        match &self.value_ty {
            ValueTy::Scalar(ScalarTy::Enumeration(_)) | ValueTy::Message => s.append(",)"),
            ValueTy::Scalar(_) => s.append(")"),
        }
        s
    }

    /// The expression that empties the map `ident`.
    pub fn clear(&self, ident: &str) -> (r: String)
        ensures
            r@ == clear_spec(ident@),
    {
        let mut s = String::from_str(ident);
        s.append(".clear()");
        s
    }
}


impl ValueTy {
    /// The debug wrapper of map values of this type, named `ValueWrapper`.
    pub fn debug(&self) -> (r: String)
        ensures
            r@ == value_debug_spec(self@),
    {
        match self {
            ValueTy::Scalar(t) => t.debug("ValueWrapper"),
            ValueTy::Message => String::from_str("fn ValueWrapper<T>(v: T) -> T { v }"),
        }
    }
}

impl Field {
    /// The accessors for a map of enumerations, named after the field `ident`.
    pub fn methods(&self, ident: &str) -> (r: Option<String>)
        requires
            is_enumeration_map(self@) ==> is_ident_tail(ident@),
        ensures
            view_option(r) == methods_spec(self@, ident@),
    {
        match &self.value_ty {
            ValueTy::Scalar(ScalarTy::Enumeration(ty)) => {
                let ty = ty.as_str();
                let take_ref = if self.key_ty.is_numeric() {
                    "&"
                } else {
                    ""
                };
                let mut s = String::from_str(
                    "#[doc = \"Returns the enum value for the corresponding key in `",
                );
                s.append(ident);
                s.append(
                    "`, or `None` if the entry does not exist or it is not a valid enum value.\"] pub fn get_",
                );
                s.append(ident);
                s.append("(&self, key: ");
                s.append(self.key_ty.rust_ref_type());
                s.append(") -> ::core::option::Option<");
                s.append(ty);
                s.append("> { self.");
                s.append(ident);
                s.append(".get(");
                s.append(take_ref);
                s.append("key).cloned().and_then(|x| { let result: ::core::result::Result<");
                s.append(ty);
                s.append(
                    ", _> = ::core::convert::TryFrom::try_from(x); result.ok() }) } #[doc = \"Inserts a key value pair into `",
                );
                s.append(ident);
                s.append("`.\"] pub fn insert_");
                s.append(ident);
                s.append("(&mut self, key: ");
                s.append(self.key_ty.rust_type());
                s.append(", value: ");
                s.append(ty);
                s.append(") -> ::core::option::Option<");
                s.append(ty);
                s.append("> { self.");
                s.append(ident);
                s.append(
                    ".insert(key, value as i32).and_then(|x| { let result: ::core::result::Result<",
                );
                s.append(ty);
                s.append(
                    ", _> = ::core::convert::TryFrom::try_from(x); result.ok() }) }",
                );
                Some(s)
            },
            _ => None,
        }
    }

    /// The accessors for a map of enumerations where `get_` and `insert_`
    /// followed by `ident` are identifiers; `None` where they are not.
    pub fn try_methods(&self, ident: &str) -> (r: Option<Option<String>>)
        ensures
            match r {
                Some(m) => view_option(m) == methods_spec(self@, ident@),
                None => is_enumeration_map(self@) && !is_ident_tail(ident@),
            },
            is_ascii_ident_text(ident@) ==> r is Some,
    {
        let enumeration = match &self.value_ty {
            ValueTy::Scalar(ScalarTy::Enumeration(_)) => true,
            _ => false,
        };
        if !enumeration || ident_tail(ident) {
            Some(self.methods(ident))
        } else {
            None
        }
    }

    fn debug_fmt(&self) -> (r: String)
        ensures
            r@ == debug_fmt_spec(self@),
    {
        let key_wrapper = self.key_ty.debug("KeyWrapper");
        let value_wrapper = self.value_ty.debug();
        let mut s = String::from_str(
            "fn fmt(&self, f: &mut ::core::fmt::Formatter) -> ::core::fmt::Result { ",
        );
        s.append(key_wrapper.as_str());
        s.append(" ");
        s.append(value_wrapper.as_str());
        s.append(
            " let mut builder = f.debug_map(); for (k, v) in self.0 { builder.entry(&KeyWrapper(k), &ValueWrapper(v)); } builder.finish() }",
        );
        s
    }

    /// The debug wrapper type, named `name`, of the map.
    pub fn debug(&self, name: &str) -> (r: String)
        ensures
            r@ == debug_spec(self@, name@),
    {
        let lib = self.map_ty.lib();
        let coll = self.map_ty.collection();
        let key = match &self.key_wrapper {
            Some(w) => w.key_type.as_str(),
            None => self.key_ty.rust_type(),
        };
        match &self.value_ty {
            ValueTy::Scalar(ScalarTy::Bytes) => {
                let mut s = String::from_str("struct ");
                s.append(name);
                s.append("<'a>(&'a dyn ::core::fmt::Debug); impl<'a> ::core::fmt::Debug for ");
                s.append(name);
                s.append(
                    "<'a> { fn fmt(&self, f: &mut ::core::fmt::Formatter) -> ::core::fmt::Result { self.0.fmt(f) } }",
                );
                s
            },
            ValueTy::Scalar(ty) => {
                let value = match &self.value_wrapper {
                    Some(v) => v.as_str(),
                    None => ty.rust_type(),
                };
                self.newtype_debug(name, value)
            },
            ValueTy::Message => match &self.value_wrapper {
                Some(v) => self.newtype_debug(name, v.as_str()),
                None => {
                    let fmt = self.debug_fmt();
                    let mut s = String::from_str("struct ");
                    s.append(name);
                    s.append("<'a, V: 'a>(&'a ::");
                    s.append(lib);
                    s.append("::collections::");
                    s.append(coll);
                    s.append("<");
                    s.append(key);
                    s.append(", V>); impl<'a, V> ::core::fmt::Debug for ");
                    s.append(name);
                    s.append("<'a, V> where V: ::core::fmt::Debug + 'a, { ");
                    s.append(fmt.as_str());
                    s.append(" }");
                    s
                },
            },
        }
    }

    fn newtype_debug(&self, name: &str, value: &str) -> (r: String)
        ensures
            r@ == newtype_debug_spec(self@, name@, value@),
    {
        let key = match &self.key_wrapper {
            Some(w) => w.key_type.as_str(),
            None => self.key_ty.rust_type(),
        };
        let fmt = self.debug_fmt();
        let mut s = String::from_str("struct ");
        s.append(name);
        s.append("<'a>(&'a ::");
        s.append(self.map_ty.lib());
        s.append("::collections::");
        s.append(self.map_ty.collection());
        s.append("<");
        s.append(key);
        s.append(", ");
        s.append(value);
        s.append(">); impl<'a> ::core::fmt::Debug for ");
        s.append(name);
        s.append("<'a> { ");
        s.append(fmt.as_str());
        s.append(" }");
        s
    }
}

} // verus!
