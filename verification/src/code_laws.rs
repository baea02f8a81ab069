//! What the generated code of a map field says, stated from the field's parts.

use vstd::prelude::*;
use crate::codegen::{
    apply_wrappers_spec, clear_spec, debug_fmt_spec, debug_key_spec, debug_spec, merge_spec,
    methods_spec, tag_literal, value_codec, value_debug_spec,
};
use crate::text::{decimal, lemma_parse_decimal, parse_u32_spec};
use crate::laws::{default_suffix, encoded_len_close};
use crate::map::{Field, MapTy, ValueTy};
use crate::scalar::{
    is_numeric_spec, module_spec, rust_ref_type_spec, rust_type_spec, scalar_debug_spec, ScalarTy,
};

verus! {

/// `&mut ` for a mutable borrow, `&` for a shared one.
pub open spec fn borrow_sign(is_mut: bool) -> Seq<char> {
    if is_mut {
        "&mut "@
    } else {
        "&"@
    }
}

/// The end of a `prost::wrapper` function's name: `_mut_ref` or `_ref`.
pub open spec fn borrow_suffix(is_mut: bool) -> Seq<char> {
    if is_mut {
        "_mut_ref"@
    } else {
        "_ref"@
    }
}

/// The borrow of a map goes through the `prost::wrapper` function of the
/// field's own map type that unwraps what has a wrapper type: both keys and
/// values, only keys, or only values, with the wrapper types as its type
/// arguments; a map without wrappers is borrowed directly.
pub proof fn lemma_borrow_names_the_wrappers(f: Field<Seq<char>>, ident: Seq<char>, is_mut: bool)
    ensures
        (f.key_wrapper, f.value_wrapper) matches (None, None) ==> apply_wrappers_spec(f, ident, is_mut)
            == borrow_sign(is_mut) + ident,
        (f.key_wrapper, f.value_wrapper) matches (Some(kw), Some(vt)) ==> apply_wrappers_spec(
            f,
            ident,
            is_mut,
        ) == "::prost::wrapper::"@ + "raw_"@ + f.map_ty.module_spec() + borrow_suffix(is_mut) + "::<"@
            + kw.key_type + ", "@ + vt + ">("@ + borrow_sign(is_mut) + ident + ")"@,
        (f.key_wrapper, f.value_wrapper) matches (Some(kw), None) ==> apply_wrappers_spec(
            f,
            ident,
            is_mut,
        ) == "::prost::wrapper::"@ + "raw_"@ + f.map_ty.module_spec() + "_key"@ + borrow_suffix(
            is_mut,
        ) + "::<"@ + kw.key_type + ", _>("@ + borrow_sign(is_mut) + ident + ")"@,
        (f.key_wrapper, f.value_wrapper) matches (None, Some(vt)) ==> apply_wrappers_spec(
            f,
            ident,
            is_mut,
        ) == "::prost::wrapper::"@ + "raw_"@ + f.map_ty.module_spec() + "_value"@ + borrow_suffix(
            is_mut,
        ) + "::<_, "@ + vt + ">("@ + borrow_sign(is_mut) + ident + ")"@,
{
    match (f.key_wrapper, f.value_wrapper) {
        (Some(kw), Some(vt)) => lemma_borrow_both(f, ident, is_mut, kw.key_type, vt),
        (Some(kw), None) => lemma_borrow_key(f, ident, is_mut, kw.key_type),
        (None, Some(vt)) => lemma_borrow_value(f, ident, is_mut, vt),
        (None, None) => {},
    }
}

proof fn lemma_borrow_both(f: Field<Seq<char>>, ident: Seq<char>, is_mut: bool, k: Seq<char>, v: Seq<char>)
    requires
        f.key_wrapper matches Some(kw) && kw.key_type == k,
        f.value_wrapper == Some(v),
    ensures
        apply_wrappers_spec(f, ident, is_mut) == "::prost::wrapper::"@ + "raw_"@ + f.map_ty.module_spec()
            + borrow_suffix(is_mut) + "::<"@ + k + ", "@ + v + ">("@ + borrow_sign(is_mut) + ident
            + ")"@,
{
    lemma_raw_names(f.map_ty, is_mut);
    let raw = f.map_ty.raw_method_spec(true, true, is_mut);
    assert(apply_wrappers_spec(f, ident, is_mut) == "::prost::wrapper::"@ + raw + "::<"@ + k + ", "@ + v
        + ">("@ + borrow_sign(is_mut) + ident + ")"@);
    assert(apply_wrappers_spec(f, ident, is_mut) =~= "::prost::wrapper::"@ + "raw_"@
        + f.map_ty.module_spec() + borrow_suffix(is_mut) + "::<"@ + k + ", "@ + v + ">("@ + borrow_sign(
        is_mut,
    ) + ident + ")"@);
}

proof fn lemma_borrow_key(f: Field<Seq<char>>, ident: Seq<char>, is_mut: bool, k: Seq<char>)
    requires
        f.key_wrapper matches Some(kw) && kw.key_type == k,
        f.value_wrapper is None,
    ensures
        apply_wrappers_spec(f, ident, is_mut) == "::prost::wrapper::"@ + "raw_"@ + f.map_ty.module_spec()
            + "_key"@ + borrow_suffix(is_mut) + "::<"@ + k + ", _>("@ + borrow_sign(is_mut) + ident
            + ")"@,
{
    lemma_raw_names(f.map_ty, is_mut);
    let raw = f.map_ty.raw_method_spec(true, false, is_mut);
    assert(apply_wrappers_spec(f, ident, is_mut) == "::prost::wrapper::"@ + raw + "::<"@ + k + ", _>("@
        + borrow_sign(is_mut) + ident + ")"@);
    assert(apply_wrappers_spec(f, ident, is_mut) =~= "::prost::wrapper::"@ + "raw_"@
        + f.map_ty.module_spec() + "_key"@ + borrow_suffix(is_mut) + "::<"@ + k + ", _>("@
        + borrow_sign(is_mut) + ident + ")"@);
}

proof fn lemma_borrow_value(f: Field<Seq<char>>, ident: Seq<char>, is_mut: bool, v: Seq<char>)
    requires
        f.key_wrapper is None,
        f.value_wrapper == Some(v),
    ensures
        apply_wrappers_spec(f, ident, is_mut) == "::prost::wrapper::"@ + "raw_"@ + f.map_ty.module_spec()
            + "_value"@ + borrow_suffix(is_mut) + "::<_, "@ + v + ">("@ + borrow_sign(is_mut) + ident
            + ")"@,
{
    lemma_raw_names(f.map_ty, is_mut);
    let raw = f.map_ty.raw_method_spec(false, true, is_mut);
    assert(apply_wrappers_spec(f, ident, is_mut) == "::prost::wrapper::"@ + raw + "::<_, "@ + v + ">("@
        + borrow_sign(is_mut) + ident + ")"@);
    assert(apply_wrappers_spec(f, ident, is_mut) =~= "::prost::wrapper::"@ + "raw_"@
        + f.map_ty.module_spec() + "_value"@ + borrow_suffix(is_mut) + "::<_, "@ + v + ">("@
        + borrow_sign(is_mut) + ident + ")"@);
}

proof fn lemma_raw_names(mt: MapTy, is_mut: bool)
    ensures
        mt.raw_method_spec(true, true, is_mut) == "raw_"@ + mt.module_spec() + borrow_suffix(is_mut),
        mt.raw_method_spec(true, false, is_mut) == "raw_"@ + mt.module_spec() + "_key"@
            + borrow_suffix(is_mut),
        mt.raw_method_spec(false, true, is_mut) == "raw_"@ + mt.module_spec() + "_value"@
            + borrow_suffix(is_mut),
{
    reveal_strlit("");
    let m = mt.module_spec();
    let s = borrow_suffix(is_mut);
    assert("raw_"@ + m + ""@ + s =~= "raw_"@ + m + s);
}

/// The codec of map values: the scalar type's encoding module (`int32` for
/// enumerations), or `message`.
pub proof fn lemma_value_codec(v: ValueTy<Seq<char>>)
    ensures
        v matches ValueTy::Scalar(t) ==> value_codec(v) == module_spec(t),
        v matches ValueTy::Scalar(ScalarTy::Enumeration(_)) ==> value_codec(v) == "int32"@,
        v is Message ==> value_codec(v) == "message"@,
{
}

/// The default of enumeration values as `merge` passes it, `E::default() as
/// i32`; nothing for other values.
pub open spec fn merge_default_arg(f: Field<Seq<char>>) -> Seq<char> {
    match f.value_ty {
        ValueTy::Scalar(ScalarTy::Enumeration(ty)) => ty + "::default() as i32, "@,
        _ => ""@,
    }
}

/// `merge` decodes through the module of the field's own map type, in the
/// `_with_default` form exactly where the values are enumerations, with the
/// key type's and the value type's `merge`, the mutable borrow of the map, and
/// the trailing comma where `encoded_len` has one.
pub proof fn lemma_merge_form(f: Field<Seq<char>>, ident: Seq<char>)
    ensures
        merge_spec(f, ident) == "::prost::encoding::"@ + f.map_ty.module_spec() + "::merge"@
            + default_suffix(f) + "(::prost::encoding::"@ + module_spec(f.key_ty)
            + "::merge, ::prost::encoding::"@ + value_codec(f.value_ty) + "::merge, "@
            + merge_default_arg(f) + apply_wrappers_spec(f, ident, true) + ", buf, ctx"@
            + encoded_len_close(f),
{
    reveal_strlit("");
    reveal_strlit("int32");
    reveal_strlit("::merge");
    reveal_strlit("_with_default");
    reveal_strlit("(::prost::encoding::");
    reveal_strlit("::merge_with_default(::prost::encoding::");
    reveal_strlit("::merge(::prost::encoding::");
    reveal_strlit("::merge, ::prost::encoding::");
    reveal_strlit("::merge, ::prost::encoding::int32::merge, ");
    reveal_strlit("::merge, ");
    reveal_strlit(", buf, ctx");
    reveal_strlit(", buf, ctx,)");
    reveal_strlit(", buf, ctx)");
    reveal_strlit(",)");
    reveal_strlit(")");
    let module = f.map_ty.module_spec();
    let key_mod = module_spec(f.key_ty);
    let vc = value_codec(f.value_ty);
    let map = apply_wrappers_spec(f, ident, true);
    match f.value_ty {
        ValueTy::Scalar(ScalarTy::Enumeration(ty)) => {
            assert(vc == "int32"@);
            assert("::merge_with_default(::prost::encoding::"@ =~= "::merge"@ + "_with_default"@
                + "(::prost::encoding::"@);
            assert("::merge, ::prost::encoding::int32::merge, "@ =~= "::merge, ::prost::encoding::"@
                + vc + "::merge, "@);
            assert(", buf, ctx,)"@ =~= ", buf, ctx"@ + ",)"@);
        },
        ValueTy::Scalar(_) => {
            assert("::merge(::prost::encoding::"@ =~= "::merge"@ + ""@ + "(::prost::encoding::"@);
            assert(", buf, ctx)"@ =~= ", buf, ctx"@ + ")"@);
        },
        ValueTy::Message => {
            assert("::merge(::prost::encoding::"@ =~= "::merge"@ + ""@ + "(::prost::encoding::"@);
            assert(", buf, ctx,)"@ =~= ", buf, ctx"@ + ",)"@);
        },
    }
    assert(merge_spec(f, ident) =~= "::prost::encoding::"@ + module + "::merge"@ + default_suffix(f)
        + "(::prost::encoding::"@ + key_mod + "::merge, ::prost::encoding::"@ + vc + "::merge, "@
        + merge_default_arg(f) + map + ", buf, ctx"@ + encoded_len_close(f));
}

/// The Rust type of map values as the debug wrapper names it: the value
/// wrapper type where there is one, else the scalar's Rust type, or a type
/// parameter `V` for messages.
pub open spec fn debug_value_type(f: Field<Seq<char>>) -> Seq<char> {
    match f.value_wrapper {
        Some(v) => v,
        None => match f.value_ty {
            ValueTy::Scalar(t) => rust_type_spec(t),
            ValueTy::Message => "V"@,
        },
    }
}

/// Whether the debug wrapper is generic over the message type of the values.
pub open spec fn debug_over_messages(f: Field<Seq<char>>) -> bool {
    f.value_ty is Message && f.value_wrapper is None
}

/// The debug wrapper of a map of any values but bytes is a newtype over a
/// borrow of the field's own collection type (`std`'s `HashMap` or
/// `prost::alloc`'s `BTreeMap`) with the debug key and value types, whose
/// `Debug` impl is the field's `fmt`; a map of bytes is shown as any `Debug`
/// value.
pub proof fn lemma_debug_wraps_the_map(f: Field<Seq<char>>, name: Seq<char>)
    ensures
        !(f.value_ty matches ValueTy::Scalar(ScalarTy::Bytes)) && !debug_over_messages(f) ==> debug_spec(
            f,
            name,
        ) == "struct "@ + name + "<'a>(&'a ::"@ + f.map_ty.lib_spec() + "::collections::"@
            + f.map_ty.collection_spec() + "<"@ + debug_key_spec(f) + ", "@ + debug_value_type(f)
            + ">); impl<'a> ::core::fmt::Debug for "@ + name + "<'a> { "@ + debug_fmt_spec(f) + " }"@,
        debug_over_messages(f) ==> debug_spec(f, name) == "struct "@ + name + "<'a, V: 'a>(&'a ::"@
            + f.map_ty.lib_spec() + "::collections::"@ + f.map_ty.collection_spec() + "<"@
            + debug_key_spec(f) + ", "@ + debug_value_type(f)
            + ">); impl<'a, V> ::core::fmt::Debug for "@ + name
            + "<'a, V> where V: ::core::fmt::Debug + 'a, { "@ + debug_fmt_spec(f) + " }"@,
        f.value_ty matches ValueTy::Scalar(ScalarTy::Bytes) ==> debug_spec(f, name) == "struct "@
            + name + "<'a>(&'a dyn ::core::fmt::Debug); impl<'a> ::core::fmt::Debug for "@ + name
            + "<'a> { fn fmt(&self, f: &mut ::core::fmt::Formatter) -> ::core::fmt::Result { self.0.fmt(f) } }"@,
{
    reveal_strlit("V");
    reveal_strlit(", V>); impl<'a, V> ::core::fmt::Debug for ");
    reveal_strlit(", ");
    reveal_strlit(">); impl<'a, V> ::core::fmt::Debug for ");
    if debug_over_messages(f) {
        assert(", V>); impl<'a, V> ::core::fmt::Debug for "@ =~= ", "@ + "V"@
            + ">); impl<'a, V> ::core::fmt::Debug for "@);
        assert(debug_spec(f, name) =~= "struct "@ + name + "<'a, V: 'a>(&'a ::"@ + f.map_ty.lib_spec()
            + "::collections::"@ + f.map_ty.collection_spec() + "<"@ + debug_key_spec(f) + ", "@
            + debug_value_type(f) + ">); impl<'a, V> ::core::fmt::Debug for "@ + name
            + "<'a, V> where V: ::core::fmt::Debug + 'a, { "@ + debug_fmt_spec(f) + " }"@);
    }
}

/// How an accessor turns a stored number into an enumeration of type `ty`:
/// through `TryFrom`, `None` where the number names none.
pub open spec fn to_enumeration(ty: Seq<char>) -> Seq<char> {
    ".and_then(|x| { let result: ::core::result::Result<"@ + ty
        + ", _> = ::core::convert::TryFrom::try_from(x); result.ok() })"@
}

/// A map of enumerations `ty` gets two accessors: `get_<ident>` looks the key
/// up (by reference where keys are numbers) and converts the stored number
/// to `ty`; `insert_<ident>` stores the value's number and gives back the
/// number it replaced, converted the same way. Whatever the key type, the
/// accessors differ only in the key types and that reference. Maps of other
/// values get none.
pub proof fn lemma_enumeration_accessors(f: Field<Seq<char>>, ident: Seq<char>)
    ensures
        f.value_ty matches ValueTy::Scalar(ScalarTy::Enumeration(ty)) ==> methods_spec(f, ident)
            == Some(
            "#[doc = \"Returns the enum value for the corresponding key in `"@ + ident
                + "`, or `None` if the entry does not exist or it is not a valid enum value.\"] pub fn get_"@
                + ident + "(&self, key: "@ + rust_ref_type_spec(f.key_ty)
                + ") -> ::core::option::Option<"@ + ty + "> { self."@ + ident + ".get("@ + (
            if is_numeric_spec(f.key_ty) {
                "&"@
            } else {
                ""@
            }) + "key).cloned()"@ + to_enumeration(ty) + " }"@ + " "@
                + "#[doc = \"Inserts a key value pair into `"@ + ident + "`.\"] pub fn insert_"@
                + ident + "(&mut self, key: "@ + rust_type_spec(f.key_ty) + ", value: "@ + ty
                + ") -> ::core::option::Option<"@ + ty + "> { self."@ + ident
                + ".insert(key, value as i32)"@ + to_enumeration(ty) + " }"@,
        ),
        !(f.value_ty matches ValueTy::Scalar(ScalarTy::Enumeration(_))) ==> methods_spec(f, ident)
            is None,
{
    reveal_strlit("key).cloned()");
    reveal_strlit(".and_then(|x| { let result: ::core::result::Result<");
    reveal_strlit("key).cloned().and_then(|x| { let result: ::core::result::Result<");
    reveal_strlit(", _> = ::core::convert::TryFrom::try_from(x); result.ok() })");
    reveal_strlit(" }");
    reveal_strlit(" ");
    reveal_strlit("#[doc = \"Inserts a key value pair into `");
    reveal_strlit(
        ", _> = ::core::convert::TryFrom::try_from(x); result.ok() }) } #[doc = \"Inserts a key value pair into `",
    );
    reveal_strlit(".insert(key, value as i32)");
    reveal_strlit(".insert(key, value as i32).and_then(|x| { let result: ::core::result::Result<");
    reveal_strlit(", _> = ::core::convert::TryFrom::try_from(x); result.ok() }) }");
    if let ValueTy::Scalar(ScalarTy::Enumeration(ty)) = f.value_ty {
        let a = ".and_then(|x| { let result: ::core::result::Result<"@;
        let b = ", _> = ::core::convert::TryFrom::try_from(x); result.ok() })"@;
        assert("key).cloned().and_then(|x| { let result: ::core::result::Result<"@ =~= "key).cloned()"@
            + a);
        assert(", _> = ::core::convert::TryFrom::try_from(x); result.ok() }) } #[doc = \"Inserts a key value pair into `"@
            =~= b + " }"@ + " "@ + "#[doc = \"Inserts a key value pair into `"@);
        assert(".insert(key, value as i32).and_then(|x| { let result: ::core::result::Result<"@
            =~= ".insert(key, value as i32)"@ + a);
        assert(", _> = ::core::convert::TryFrom::try_from(x); result.ok() }) }"@ =~= b + " }"@);
        let take_ref = if is_numeric_spec(f.key_ty) {
            "&"@
        } else {
            ""@
        };
        assert(methods_spec(f, ident)->Some_0 =~= "#[doc = \"Returns the enum value for the corresponding key in `"@
            + ident
            + "`, or `None` if the entry does not exist or it is not a valid enum value.\"] pub fn get_"@
            + ident + "(&self, key: "@ + rust_ref_type_spec(f.key_ty)
            + ") -> ::core::option::Option<"@ + ty + "> { self."@ + ident + ".get("@ + take_ref
            + "key).cloned()"@ + to_enumeration(ty) + " }"@ + " "@
            + "#[doc = \"Inserts a key value pair into `"@ + ident + "`.\"] pub fn insert_"@ + ident
            + "(&mut self, key: "@ + rust_type_spec(f.key_ty) + ", value: "@ + ty
            + ") -> ::core::option::Option<"@ + ty + "> { self."@ + ident
            + ".insert(key, value as i32)"@ + to_enumeration(ty) + " }"@);
    }
}

/// The tag in generated code is a `u32` literal whose digits read back as the
/// tag.
pub proof fn lemma_tag_literal(tag: u32)
    ensures
        tag_literal(tag) == decimal(tag as nat) + "u32"@,
        parse_u32_spec(decimal(tag as nat)) == Some(tag),
{
    lemma_parse_decimal(tag);
}

/// Clearing a map calls its `clear`.
pub proof fn lemma_clear_form(ident: Seq<char>)
    ensures
        clear_spec(ident) == ident + ".clear()"@,
{
}

/// The Rust types of scalar values: numbers by width and sign (enumerations
/// as `i32`, the type of `int32`), `bool`, and `prost`'s `String` and
/// `Vec<u8>`; values are borrowed as themselves except strings and bytes,
/// which are borrowed as `&str` and `&[u8]`, and only those are not numeric.
pub proof fn lemma_rust_types(t: ScalarTy<Seq<char>>)
    ensures
        rust_type_spec(t) == match t {
            ScalarTy::Double => "f64"@,
            ScalarTy::Float => "f32"@,
            ScalarTy::Int32 | ScalarTy::Sint32 | ScalarTy::Sfixed32 | ScalarTy::Enumeration(_) => "i32"@,
            ScalarTy::Int64 | ScalarTy::Sint64 | ScalarTy::Sfixed64 => "i64"@,
            ScalarTy::Uint32 | ScalarTy::Fixed32 => "u32"@,
            ScalarTy::Uint64 | ScalarTy::Fixed64 => "u64"@,
            ScalarTy::Bool => "bool"@,
            ScalarTy::String => "::prost::alloc::string::String"@,
            ScalarTy::Bytes => "::prost::alloc::vec::Vec<u8>"@,
        },
        is_numeric_spec(t) <==> !(t is String) && !(t is Bytes),
        is_numeric_spec(t) ==> rust_ref_type_spec(t) == rust_type_spec(t),
        t is String ==> rust_ref_type_spec(t) == "&str"@,
        t is Bytes ==> rust_ref_type_spec(t) == "&[u8]"@,
{
}

/// The debug wrapper shows each key through `KeyWrapper` and each value
/// through `ValueWrapper`, the debug wrappers of the key and value types; an
/// enumeration is shown by the name of its variant where its number converts
/// through `TryFrom`, else as the number; other scalars and messages are shown
/// as they are. Keys are named by their wrapper type where they have one.
pub proof fn lemma_debug_parts(f: Field<Seq<char>>, t: ScalarTy<Seq<char>>, name: Seq<char>)
    ensures
        debug_fmt_spec(f) == "fn fmt(&self, f: &mut ::core::fmt::Formatter) -> ::core::fmt::Result { "@
            + scalar_debug_spec(f.key_ty, "KeyWrapper"@) + " "@ + value_debug_spec(f.value_ty)
            + " let mut builder = f.debug_map(); for (k, v) in self.0 { builder.entry(&KeyWrapper(k), &ValueWrapper(v)); } builder.finish() }"@,
        f.value_ty matches ValueTy::Scalar(vt) ==> value_debug_spec(f.value_ty) == scalar_debug_spec(
            vt,
            "ValueWrapper"@,
        ),
        f.value_ty is Message ==> value_debug_spec(f.value_ty) == "fn ValueWrapper<T>(v: T) -> T { v }"@,
        debug_key_spec(f) == match f.key_wrapper {
            Some(w) => w.key_type,
            None => rust_type_spec(f.key_ty),
        },
        t matches ScalarTy::Enumeration(path) ==> scalar_debug_spec(t, name) == "struct "@ + name
            + "<'a>(&'a i32); impl<'a> ::core::fmt::Debug for "@ + name
            + "<'a> { fn fmt(&self, f: &mut ::core::fmt::Formatter) -> ::core::fmt::Result { let res: ::core::result::Result<"@
            + path
            + ", _> = ::core::convert::TryFrom::try_from(*self.0); match res { Err(_) => ::core::fmt::Debug::fmt(&self.0, f), Ok(en) => ::core::fmt::Debug::fmt(&en, f), } } }"@,
        !(t is Enumeration) ==> scalar_debug_spec(t, name) == "#[allow(non_snake_case)] fn "@ + name
            + "<T>(v: T) -> T { v }"@,
{
}

} // verus!
