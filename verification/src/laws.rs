//! Properties that hold across the functions of the library.

use vstd::prelude::*;
use crate::attr::{meta_ident, tag_attr_spec, Meta, MetaArg, MetaValue};
use crate::error::{message_spec, MapError};
use crate::map::{
    absorb_all_allows, absorb_given, finish_spec, is_key_ty, key_ty_given, map_pair_spec, map_ty_spec,
    split_pair_spec,
    meta_map_ty, no_attrs, paths_allowed, value_ty_given, AttrStep, Field, FieldAttrs, MapTy, ValueTy,
};
use crate::codegen::{apply_wrappers_spec, encode_spec, encoded_len_spec, tag_literal, value_codec};
use crate::scalar::{is_enumeration_candidate, module_spec, scalar_ty_given, ScalarTy};
use crate::text::{decimal, find_char, lemma_parse_decimal, trimmed, is_white_space};

verus! {

/// The map type that an attribute name selects has that name as its encoding
/// module: `MapTy::from_str(m.module()) == Some(m)`.
pub proof fn lemma_map_ty_module_round_trip(m: MapTy)
    ensures
        map_ty_spec(m.module_spec()) == Some(m),
{
    reveal_strlit("map");
    reveal_strlit("hash_map");
    reveal_strlit("btree_map");
    assert("map"@.len() != "btree_map"@.len());
    assert("hash_map"@.len() != "btree_map"@.len());
    assert("map"@ != "hash_map"@);
}

/// Every type that can key a map can also be a map's value type.
pub proof fn lemma_key_types_are_value_types(s: Seq<char>, path: Option<Seq<char>>)
    ensures
        key_ty_given(s, path) matches Ok(t) ==> value_ty_given(s, path) == Ok::<
            _,
            MapError<Seq<char>>,
        >(ValueTy::Scalar(t)),
{
}

/// A state whose map types, where set, have a key type that can key a map.
pub open spec fn keys_valid(st: FieldAttrs<Seq<char>>) -> bool {
    st.types matches Some((_, k, _)) ==> is_key_ty(k)
}

proof fn lemma_allows_keys_valid(st: FieldAttrs<Seq<char>>, attrs: Seq<Meta>, out: AttrStep)
    requires
        keys_valid(st),
        absorb_all_allows(st, attrs, out),
    ensures
        out matches AttrStep::Next(end) ==> keys_valid(end),
    decreases attrs.len(),
{
    if attrs.len() > 0 {
        let (kp, vp) = choose|kp: Option<Seq<char>>, vp: Option<Seq<char>>|
            paths_allowed(attrs[0], kp, vp) && match #[trigger] absorb_given(st, attrs[0], kp, vp) {
                AttrStep::Next(next) => absorb_all_allows(next, attrs.drop_first(), out),
                other => out == other,
            };
        if let AttrStep::Next(next) = absorb_given(st, attrs[0], kp, vp) {
            lemma_allows_keys_valid(next, attrs.drop_first(), out);
        }
    }
}

/// A map field read from attributes has a key type that can key a map, and the
/// value wrapper that its key wrapper names.
pub proof fn lemma_new_field_well_formed(attrs: Seq<Meta>, inferred_tag: Option<u32>, out: AttrStep)
    requires
        absorb_all_allows(no_attrs(), attrs, out),
    ensures
        finish_spec(out, inferred_tag) matches Ok(Some(f)) ==> {
            &&& is_key_ty(f.key_ty)
            &&& f.value_wrapper == match f.key_wrapper {
                Some(w) => w.value_type_name,
                None => None,
            }
        },
{
    lemma_allows_keys_valid(no_attrs(), attrs, out);
}

/// Where the attributes give a tag, it is the field's tag whatever tag the
/// field's position would give.
pub proof fn lemma_tag_attribute_wins(out: AttrStep, a: Option<u32>, b: Option<u32>)
    requires
        out matches AttrStep::Next(st) && st.tag is Some,
    ensures
        finish_spec(out, a) == finish_spec(out, b),
{
}

/// Where the attributes give no tag, the field's tag is the one its position
/// gives, and without one there is no field.
pub proof fn lemma_inferred_tag_used(out: AttrStep, inferred_tag: Option<u32>)
    requires
        out matches AttrStep::Next(st) && st.tag is None,
    ensures
        inferred_tag is None ==> finish_spec(out, inferred_tag) == Ok::<_, MapError<Seq<char>>>(
            None::<Field<Seq<char>>>,
        ),
        finish_spec(out, inferred_tag) matches Ok(Some(f)) ==> Some(f.tag) == inferred_tag,
{
}

/// A second `tag` attribute is refused.
pub proof fn lemma_second_tag_fails(
    st: FieldAttrs<Seq<char>>,
    m: Meta,
    key_path: Option<Seq<char>>,
    value_path: Option<Seq<char>>,
)
    requires
        st.tag is Some,
        tag_attr_spec(m) is Ok,
        tag_attr_spec(m)->Ok_0 is Some,
    ensures
        absorb_given(st, m, key_path, value_path) == AttrStep::Fail(MapError::DuplicateTag),
{
}

/// `tag = "N"` reads back the tag `N` written in decimal.
pub proof fn lemma_tag_attr_reads_decimal(m: Meta, n: u32)
    requires
        meta_ident(m) == Some("tag"@),
        m matches Meta::NameValue { value: MetaValue::Str(s), .. } && s@ == decimal(n as nat),
    ensures
        tag_attr_spec(m) == Ok::<_, MapError<Seq<char>>>(Some(n)),
{
    lemma_parse_decimal(n);
}


proof fn lemma_trimmed_plain(s: Seq<char>)
    requires
        s.len() > 0,
        !is_white_space(s[0]),
        !is_white_space(s.last()),
    ensures
        trimmed(s) == s,
{
}

/// Every scalar type but an enumeration is named in attributes by the name of
/// its encoding module: `ScalarTy::from_str(t.module()) == Ok(t)`.
pub proof fn lemma_scalar_module_round_trip(t: ScalarTy<Seq<char>>, path: Option<Seq<char>>)
    requires
        !(t is Enumeration),
    ensures
        scalar_ty_given(module_spec(t), path) == Ok::<_, MapError<Seq<char>>>(t),
{
    reveal_strlit("float");
    reveal_strlit("double");
    reveal_strlit("int32");
    reveal_strlit("int64");
    reveal_strlit("uint32");
    reveal_strlit("uint64");
    reveal_strlit("sint32");
    reveal_strlit("sint64");
    reveal_strlit("fixed32");
    reveal_strlit("fixed64");
    reveal_strlit("sfixed32");
    reveal_strlit("sfixed64");
    reveal_strlit("bool");
    reveal_strlit("string");
    reveal_strlit("bytes");
    let m = module_spec(t);
    lemma_trimmed_plain(m);
}


pub open spec fn comma_free(s: Seq<char>) -> bool {
    forall|i: int| 0 <= i < s.len() ==> #[trigger] s[i] != ','
}

proof fn lemma_codec_names_comma_free(t: ScalarTy<Seq<char>>)
    ensures
        comma_free(module_spec(t)),
        comma_free(value_codec(ValueTy::Message)),
{
    reveal_strlit("float");
    reveal_strlit("double");
    reveal_strlit("int32");
    reveal_strlit("int64");
    reveal_strlit("uint32");
    reveal_strlit("uint64");
    reveal_strlit("sint32");
    reveal_strlit("sint64");
    reveal_strlit("fixed32");
    reveal_strlit("fixed64");
    reveal_strlit("sfixed32");
    reveal_strlit("sfixed64");
    reveal_strlit("bool");
    reveal_strlit("string");
    reveal_strlit("bytes");
    reveal_strlit("message");
}

proof fn lemma_message_is_no_scalar(path: Option<Seq<char>>)
    ensures
        scalar_ty_given("message"@, path) is Err,
        trimmed("message"@) == "message"@,
{
    reveal_strlit("float");
    reveal_strlit("double");
    reveal_strlit("int32");
    reveal_strlit("int64");
    reveal_strlit("uint32");
    reveal_strlit("uint64");
    reveal_strlit("sint32");
    reveal_strlit("sint64");
    reveal_strlit("fixed32");
    reveal_strlit("fixed64");
    reveal_strlit("sfixed32");
    reveal_strlit("sfixed64");
    reveal_strlit("bool");
    reveal_strlit("string");
    reveal_strlit("bytes");
    reveal_strlit("message");
    lemma_trimmed_plain("message"@);
}

proof fn lemma_find_char_skips(s: Seq<char>, c: char, from: int, to: int)
    requires
        0 <= from <= to <= s.len(),
        forall|i: int| from <= i < to ==> s[i] != c,
    ensures
        find_char(s, c, from) == find_char(s, c, to),
    decreases to - from,
{
    if from < to {
        lemma_find_char_skips(s, c, from + 1, to);
    }
}

/// A map field's attributes, written from its map type, its key and value
/// type names and its tag, read back as that field:
/// `#[prost(hash_map = "string,int32", tag = "7")]` gives the field it describes.
pub proof fn lemma_field_attributes_round_trip(
    f: Field<Seq<char>>,
    map_attr: Meta,
    tag_attr: Meta,
    out: AttrStep,
)
    requires
        is_key_ty(f.key_ty),
        !(f.value_ty matches ValueTy::Scalar(ScalarTy::Enumeration(_))),
        f.key_wrapper is None,
        f.value_wrapper is None,
        meta_ident(map_attr) == Some(f.map_ty.module_spec()),
        map_attr matches Meta::NameValue { value: MetaValue::Str(text), .. } && text@ == module_spec(
            f.key_ty,
        ) + ","@ + value_codec(f.value_ty),
        meta_ident(tag_attr) == Some("tag"@),
        tag_attr matches Meta::NameValue { value: MetaValue::Str(text), .. } && text@ == decimal(
            f.tag as nat,
        ),
        absorb_all_allows(no_attrs(), seq![map_attr, tag_attr], out),
    ensures
        finish_spec(out, None) == Ok::<_, MapError<Seq<char>>>(Some(f)),
{
    reveal_strlit("tag");
    reveal_strlit("hash_map");
    reveal_strlit("btree_map");
    reveal_strlit(",");
    reveal_strlit("message");
    lemma_map_ty_module_round_trip(f.map_ty);
    assert(f.map_ty.module_spec() != "tag"@) by {
        assert(f.map_ty.module_spec().len() != "tag"@.len());
    }
    assert(tag_attr_spec(map_attr) == Ok::<_, MapError<Seq<char>>>(None::<u32>));
    let k = module_spec(f.key_ty);
    let v = value_codec(f.value_ty);
    let text = k + ","@ + v;
    lemma_codec_names_comma_free(f.key_ty);
    match f.value_ty {
        ValueTy::Scalar(t) => lemma_codec_names_comma_free(t),
        ValueTy::Message => {},
    }
    lemma_find_char_skips(text, ',', 0, k.len() as int);
    assert(text[k.len() as int] == ',');
    lemma_find_char_skips(text, ',', k.len() + 1int, text.len() as int);
    assert(text.take(k.len() as int) =~= k);
    assert(text.skip(k.len() + 1int) =~= v);
    lemma_tag_attr_reads_decimal(tag_attr, f.tag);
    let attrs = seq![map_attr, tag_attr];
    let st1 = FieldAttrs { types: Some((f.map_ty, f.key_ty, f.value_ty)), tag: None, key_wrapper: None };
    let st2 = FieldAttrs { tag: Some(f.tag), ..st1 };
    assert(meta_map_ty(map_attr) == Some(f.map_ty));
    assert(attrs[0] == map_attr);
    let (kp, vp) = choose|kp: Option<Seq<char>>, vp: Option<Seq<char>>|
        paths_allowed(attrs[0], kp, vp) && match #[trigger] absorb_given(no_attrs(), attrs[0], kp, vp) {
            AttrStep::Next(next) => absorb_all_allows(next, attrs.drop_first(), out),
            other => out == other,
        };
    lemma_scalar_module_round_trip(f.key_ty, kp);
    assert(key_ty_given(k, kp) == Ok::<_, MapError<Seq<char>>>(f.key_ty));
    match f.value_ty {
        ValueTy::Scalar(t) => {
            lemma_scalar_module_round_trip(t, vp);
        },
        ValueTy::Message => {
            lemma_message_is_no_scalar(vp);
        },
    }
    assert(value_ty_given(v, vp) == Ok::<_, MapError<Seq<char>>>(f.value_ty));
    assert(absorb_given(no_attrs(), map_attr, kp, vp) == AttrStep::Next(st1));
    let rest = attrs.drop_first();
    assert(rest =~= seq![tag_attr]);
    assert(absorb_all_allows(st1, rest, out));
    let (kp2, vp2) = choose|kp: Option<Seq<char>>, vp: Option<Seq<char>>|
        paths_allowed(rest[0], kp, vp) && match #[trigger] absorb_given(st1, rest[0], kp, vp) {
            AttrStep::Next(next) => absorb_all_allows(next, rest.drop_first(), out),
            other => out == other,
        };
    assert(absorb_given(st1, tag_attr, kp2, vp2) == AttrStep::Next(st2));
    assert(rest.drop_first() =~= Seq::<Meta>::empty());
    assert(out == AttrStep::Next(st2));
}

/// Whether the attribute `m` selects a map type and names an enumeration as
/// its key or value type: the printed path of that type is then up to `syn`.
pub open spec fn names_enumeration(m: Meta) -> bool {
    &&& meta_map_ty(m) is Some
    &&& map_pair_spec(m) matches Ok(Some((k, v))) && (is_enumeration_candidate(k)
        || is_enumeration_candidate(v))
}

proof fn lemma_absorb_ignores_paths(
    st: FieldAttrs<Seq<char>>,
    m: Meta,
    kp1: Option<Seq<char>>,
    vp1: Option<Seq<char>>,
    kp2: Option<Seq<char>>,
    vp2: Option<Seq<char>>,
)
    requires
        !names_enumeration(m),
    ensures
        absorb_given(st, m, kp1, vp1) == absorb_given(st, m, kp2, vp2),
{
}

proof fn lemma_allows_unique(st: FieldAttrs<Seq<char>>, attrs: Seq<Meta>, out1: AttrStep, out2: AttrStep)
    requires
        forall|i: int| 0 <= i < attrs.len() ==> !names_enumeration(#[trigger] attrs[i]),
        absorb_all_allows(st, attrs, out1),
        absorb_all_allows(st, attrs, out2),
    ensures
        out1 == out2,
    decreases attrs.len(),
{
    if attrs.len() > 0 {
        let (kp1, vp1) = choose|kp: Option<Seq<char>>, vp: Option<Seq<char>>|
            paths_allowed(attrs[0], kp, vp) && match #[trigger] absorb_given(st, attrs[0], kp, vp) {
                AttrStep::Next(next) => absorb_all_allows(next, attrs.drop_first(), out1),
                other => out1 == other,
            };
        let (kp2, vp2) = choose|kp: Option<Seq<char>>, vp: Option<Seq<char>>|
            paths_allowed(attrs[0], kp, vp) && match #[trigger] absorb_given(st, attrs[0], kp, vp) {
                AttrStep::Next(next) => absorb_all_allows(next, attrs.drop_first(), out2),
                other => out2 == other,
            };
        assert(!names_enumeration(attrs[0]));
        lemma_absorb_ignores_paths(st, attrs[0], kp1, vp1, kp2, vp2);
        if let AttrStep::Next(next) = absorb_given(st, attrs[0], kp1, vp1) {
            let rest = attrs.drop_first();
            assert forall|i: int| 0 <= i < rest.len() implies !names_enumeration(#[trigger] rest[i]) by {
                assert(rest[i] == attrs[i + 1]);
            }
            lemma_allows_unique(next, rest, out1, out2);
        }
    }
}

/// A map field that is a case of a `oneof` is read as a field without an
/// inferred tag: where no map attribute names an enumeration type, every
/// outcome that `Field::new_oneof(attrs)` and `Field::new(attrs, None)` can
/// give is one and the same.
pub proof fn lemma_oneof_reads_as_untagged(attrs: Seq<Meta>, out1: AttrStep, out2: AttrStep)
    requires
        forall|i: int| 0 <= i < attrs.len() ==> !names_enumeration(#[trigger] attrs[i]),
        absorb_all_allows(no_attrs(), attrs, out1),
        absorb_all_allows(no_attrs(), attrs, out2),
    ensures
        out1 == out2,
        finish_spec(out1, None) == finish_spec(out2, None),
{
    lemma_allows_unique(no_attrs(), attrs, out1, out2);
}

/// `_with_default` where the map's values are enumerations, else nothing.
pub open spec fn default_suffix(f: Field<Seq<char>>) -> Seq<char> {
    if f.value_ty matches ValueTy::Scalar(ScalarTy::Enumeration(_)) {
        "_with_default"@
    } else {
        ""@
    }
}

/// The argument that gives the default of enumeration values, `E::default()`
/// as `i32`; nothing for other values.
pub open spec fn default_arg(f: Field<Seq<char>>) -> Seq<char> {
    match f.value_ty {
        ValueTy::Scalar(ScalarTy::Enumeration(ty)) => "&("@ + ty + "::default() as i32), "@,
        _ => ""@,
    }
}

/// The end of the `encoded_len` call after the map argument.
pub open spec fn encoded_len_close(f: Field<Seq<char>>) -> Seq<char> {
    match f.value_ty {
        ValueTy::Scalar(ScalarTy::Enumeration(_)) | ValueTy::Message => ",)"@,
        _ => ")"@,
    }
}

/// `encode` and `encoded_len` describe one encoding: both call the map type's
/// module, both take the `_with_default` form, with the enumeration's default,
/// exactly where the values are enumerations, and both pass the key type's
/// codec, the value type's codec, the field's tag and the same shared borrow
/// of the map.
pub proof fn lemma_encode_matches_encoded_len(f: Field<Seq<char>>, ident: Seq<char>)
    ensures
        encode_spec(f, ident) == "::prost::encoding::"@ + f.map_ty.module_spec() + "::encode"@
            + default_suffix(f) + "(::prost::encoding::"@ + module_spec(f.key_ty)
            + "::encode, ::prost::encoding::"@ + module_spec(f.key_ty)
            + "::encoded_len, ::prost::encoding::"@ + value_codec(f.value_ty)
            + "::encode, ::prost::encoding::"@ + value_codec(f.value_ty) + "::encoded_len, "@
            + default_arg(f) + tag_literal(f.tag) + ", "@ + apply_wrappers_spec(f, ident, false)
            + ", buf,);"@,
        encoded_len_spec(f, ident) == "::prost::encoding::"@ + f.map_ty.module_spec()
            + "::encoded_len"@ + default_suffix(f) + "(::prost::encoding::"@ + module_spec(f.key_ty)
            + "::encoded_len, ::prost::encoding::"@ + value_codec(f.value_ty) + "::encoded_len, "@
            + default_arg(f) + tag_literal(f.tag) + ", "@ + apply_wrappers_spec(f, ident, false)
            + encoded_len_close(f),
{
    reveal_strlit("::encode");
    reveal_strlit("::encoded_len");
    reveal_strlit("_with_default");
    reveal_strlit("");
    reveal_strlit("(::prost::encoding::");
    reveal_strlit("::encode_with_default(::prost::encoding::");
    reveal_strlit("::encode(::prost::encoding::");
    reveal_strlit("::encoded_len_with_default(::prost::encoding::");
    reveal_strlit("::encoded_len(::prost::encoding::");
    reveal_strlit("::encoded_len, ");
    reveal_strlit("::encoded_len, ::prost::encoding::");
    reveal_strlit("::encoded_len, ::prost::encoding::int32::encode, ::prost::encoding::int32::encoded_len, &(");
    reveal_strlit("::encoded_len, ::prost::encoding::int32::encoded_len, &(");
    reveal_strlit("::encode, ::prost::encoding::");
    reveal_strlit("int32");
    reveal_strlit("&(");
    let module = f.map_ty.module_spec();
    let key_mod = module_spec(f.key_ty);
    let vc = value_codec(f.value_ty);
    let tag = tag_literal(f.tag);
    let map = apply_wrappers_spec(f, ident, false);
    match f.value_ty {
        ValueTy::Scalar(ScalarTy::Enumeration(ty)) => {
            assert(vc == "int32"@);
            let e1 = "::encode_with_default(::prost::encoding::"@;
            let e2 = "::encoded_len, ::prost::encoding::int32::encode, ::prost::encoding::int32::encoded_len, &("@;
            let l1 = "::encoded_len_with_default(::prost::encoding::"@;
            let l2 = "::encoded_len, ::prost::encoding::int32::encoded_len, &("@;
            assert(e1 =~= "::encode"@ + "_with_default"@ + "(::prost::encoding::"@);
            assert(e2 =~= "::encoded_len, ::prost::encoding::"@ + vc + "::encode, ::prost::encoding::"@ + vc
                + "::encoded_len, "@ + "&("@);
            assert(l1 =~= "::encoded_len"@ + "_with_default"@ + "(::prost::encoding::"@);
            assert(l2 =~= "::encoded_len, ::prost::encoding::"@ + vc + "::encoded_len, "@ + "&("@);
        },
        _ => {
            assert("::encode(::prost::encoding::"@ =~= "::encode"@ + ""@ + "(::prost::encoding::"@);
            assert("::encoded_len(::prost::encoding::"@ =~= "::encoded_len"@ + ""@ + "(::prost::encoding::"@);
        },
    }
    assert(encode_spec(f, ident) =~= "::prost::encoding::"@ + module + "::encode"@ + default_suffix(f)
        + "(::prost::encoding::"@ + key_mod + "::encode, ::prost::encoding::"@ + key_mod
        + "::encoded_len, ::prost::encoding::"@ + vc + "::encode, ::prost::encoding::"@ + vc
        + "::encoded_len, "@ + default_arg(f) + tag + ", "@ + map + ", buf,);"@);
    assert(encoded_len_spec(f, ident) =~= "::prost::encoding::"@ + module + "::encoded_len"@
        + default_suffix(f) + "(::prost::encoding::"@ + key_mod + "::encoded_len, ::prost::encoding::"@
        + vc + "::encoded_len, "@ + default_arg(f) + tag + ", "@ + map + encoded_len_close(f));
}

/// The field that reading ends in is made of what the attributes set: their
/// map type, key and value types and key wrapper, whatever the value type,
/// the value wrapper that this key wrapper names, and the tag of a `tag`
/// attribute, else the inferred one. There is a field exactly where the map
/// types and a tag are known.
pub proof fn lemma_field_keeps_what_was_read(st: FieldAttrs<Seq<char>>, inferred_tag: Option<u32>)
    ensures
        finish_spec(AttrStep::Next(st), inferred_tag) is Ok,
        finish_spec(AttrStep::Next(st), inferred_tag)->Ok_0 is Some <==> st.types is Some && (st.tag is Some
            || inferred_tag is Some),
        finish_spec(AttrStep::Next(st), inferred_tag) matches Ok(Some(f)) ==> {
            &&& st.types == Some((f.map_ty, f.key_ty, f.value_ty))
            &&& f.key_wrapper == st.key_wrapper
            &&& f.value_wrapper == match st.key_wrapper {
                Some(w) => w.value_type_name,
                None => None,
            }
            &&& Some(f.tag) == if st.tag is Some {
                st.tag
            } else {
                inferred_tag
            }
        },
        finish_spec(AttrStep::Reject, inferred_tag) == Ok::<_, MapError<Seq<char>>>(
            None::<Field<Seq<char>>>,
        ),
        forall|e: MapError<Seq<char>>| #[trigger] finish_spec(AttrStep::Fail(e), inferred_tag) == Err::<
            Option<Field<Seq<char>>>,
            _,
        >(e),
{
}

/// A wrapper attribute sets the key wrapper, and nothing else, where none is
/// set yet; a second one is refused.
pub proof fn lemma_wrapper_attribute_sets_key_wrapper(
    st: FieldAttrs<Seq<char>>,
    m: Meta,
    key_path: Option<Seq<char>>,
    value_path: Option<Seq<char>>,
)
    requires
        m is Wrapper,
    ensures
        st.key_wrapper is None ==> absorb_given(st, m, key_path, value_path) == AttrStep::Next(
            FieldAttrs { key_wrapper: Some(m->Wrapper_0@), ..st },
        ),
        st.key_wrapper is Some ==> absorb_given(st, m, key_path, value_path) == AttrStep::Fail(
            MapError::DuplicateWrapper,
        ),
{
}

/// What an attribute has set stays as it is: reading a further attribute
/// keeps the map types, the tag and the key wrapper already read.
pub proof fn lemma_settings_persist(
    st: FieldAttrs<Seq<char>>,
    m: Meta,
    key_path: Option<Seq<char>>,
    value_path: Option<Seq<char>>,
)
    ensures
        absorb_given(st, m, key_path, value_path) matches AttrStep::Next(next) ==> {
            &&& st.types is Some ==> next.types == st.types
            &&& st.tag is Some ==> next.tag == st.tag
            &&& st.key_wrapper is Some ==> next.key_wrapper == st.key_wrapper
        },
{
}

proof fn lemma_key_wrapper_kept(st: FieldAttrs<Seq<char>>, attrs: Seq<Meta>, out: AttrStep)
    requires
        st.key_wrapper is Some,
        absorb_all_allows(st, attrs, out),
    ensures
        out matches AttrStep::Next(end) ==> end.key_wrapper == st.key_wrapper,
    decreases attrs.len(),
{
    if attrs.len() > 0 {
        let (kp, vp) = choose|kp: Option<Seq<char>>, vp: Option<Seq<char>>|
            paths_allowed(attrs[0], kp, vp) && match #[trigger] absorb_given(st, attrs[0], kp, vp) {
                AttrStep::Next(next) => absorb_all_allows(next, attrs.drop_first(), out),
                other => out == other,
            };
        lemma_settings_persist(st, attrs[0], kp, vp);
        if let AttrStep::Next(next) = absorb_given(st, attrs[0], kp, vp) {
            lemma_key_wrapper_kept(next, attrs.drop_first(), out);
        }
    }
}

/// Where reading the attributes goes through, a wrapper attribute among them
/// is the key wrapper that reading ends with.
pub proof fn lemma_wrapper_attribute_read(st: FieldAttrs<Seq<char>>, attrs: Seq<Meta>, out: AttrStep, i: int)
    requires
        0 <= i < attrs.len(),
        attrs[i] is Wrapper,
        absorb_all_allows(st, attrs, out),
        out is Next,
    ensures
        out->Next_0.key_wrapper == Some(attrs[i]->Wrapper_0@),
    decreases attrs.len(),
{
    let (kp, vp) = choose|kp: Option<Seq<char>>, vp: Option<Seq<char>>|
        paths_allowed(attrs[0], kp, vp) && match #[trigger] absorb_given(st, attrs[0], kp, vp) {
            AttrStep::Next(next) => absorb_all_allows(next, attrs.drop_first(), out),
            other => out == other,
        };
    let step = absorb_given(st, attrs[0], kp, vp);
    if let AttrStep::Next(next) = step {
        if i == 0 {
            lemma_wrapper_attribute_sets_key_wrapper(st, attrs[0], kp, vp);
            lemma_key_wrapper_kept(next, attrs.drop_first(), out);
        } else {
            assert(attrs.drop_first()[i - 1] == attrs[i]);
            lemma_wrapper_attribute_read(next, attrs.drop_first(), out, i - 1);
        }
    }
}

/// A `tag` attribute gives the number written in it, as `tag = "N"`,
/// `tag = N` or `tag(N)`; a bare `tag` is refused, and attributes of other
/// names set no tag.
pub proof fn lemma_tag_attribute_forms(m: Meta, n: u32)
    ensures
        meta_ident(m) != Some("tag"@) ==> tag_attr_spec(m) == Ok::<_, MapError<Seq<char>>>(None::<u32>),
        meta_ident(m) == Some("tag"@) && (m matches Meta::NameValue { value: MetaValue::Int(d), .. } && d@
            == decimal(n as nat)) ==> tag_attr_spec(m) == Ok::<_, MapError<Seq<char>>>(Some(n)),
        meta_ident(m) == Some("tag"@) && (m matches Meta::NameValue { value: MetaValue::Str(d), .. } && d@
            == decimal(n as nat)) ==> tag_attr_spec(m) == Ok::<_, MapError<Seq<char>>>(Some(n)),
        meta_ident(m) == Some("tag"@) && (m matches Meta::List { args, trailing_comma, .. }
            && !trailing_comma && args@.len() == 1 && (args@[0] matches MetaArg::Int(d) && d@ == decimal(
            n as nat,
        ))) ==> tag_attr_spec(m) == Ok::<_, MapError<Seq<char>>>(Some(n)),
        meta_ident(m) == Some("tag"@) && m is Path ==> tag_attr_spec(m) == Err::<Option<u32>, _>(
            MapError::<Seq<char>>::InvalidTag,
        ),
{
    lemma_parse_decimal(n);
}

/// `"key,value"` splits at its comma into the key and value type names; a
/// text without a comma lacks the value type, and one with two has too many.
pub proof fn lemma_split_at_the_comma(k: Seq<char>, v: Seq<char>, w: Seq<char>)
    requires
        comma_free(k),
        comma_free(v),
    ensures
        split_pair_spec(k + ","@ + v) == Ok::<_, MapError<Seq<char>>>((k, v)),
        split_pair_spec(k) == Err::<(Seq<char>, Seq<char>), _>(MapError::<Seq<char>>::MissingValueType),
        split_pair_spec(k + ","@ + v + ","@ + w) == Err::<(Seq<char>, Seq<char>), _>(
            MapError::TooManyTypes(k + ","@ + v + ","@ + w),
        ),
{
    reveal_strlit(",");
    let s = k + ","@ + v;
    lemma_find_char_skips(s, ',', 0, k.len() as int);
    assert(s[k.len() as int] == ',');
    lemma_find_char_skips(s, ',', k.len() + 1int, s.len() as int);
    assert(s.take(k.len() as int) =~= k);
    assert(s.skip(k.len() + 1int) =~= v);
    lemma_find_char_skips(k, ',', 0, k.len() as int);
    let t = s + ","@ + w;
    lemma_find_char_skips(t, ',', 0, k.len() as int);
    assert(t[k.len() as int] == ',');
    lemma_find_char_skips(t, ',', k.len() + 1int, s.len() as int);
    assert(t[s.len() as int] == ',');
}

/// `map(key, value)` names the key and value types by two identifiers; a list
/// of identifiers of another length has the wrong number of types.
pub proof fn lemma_type_list(m: Meta)
    requires
        m is List,
        forall|i: int| 0 <= i < m->List_args@.len() ==> #[trigger] m->List_args@[i] is Ident,
    ensures
        m->List_args@.len() == 2 ==> map_pair_spec(m) == Ok::<_, MapError<Seq<char>>>(
            Some((m->List_args@[0]->Ident_0@, m->List_args@[1]->Ident_0@)),
        ),
        m->List_args@.len() != 2 && m->List_args@.len() != 0 ==> map_pair_spec(m) == Err::<
            Option<(Seq<char>, Seq<char>)>,
            _,
        >(MapError::<Seq<char>>::WrongTypeCount),
{
}

/// The types that can key a map: every scalar type but the floating-point
/// types, bytes and enumerations.
pub proof fn lemma_key_types(t: ScalarTy<Seq<char>>)
    ensures
        is_key_ty(t) <==> !(t is Double || t is Float || t is Bytes || t is Enumeration),
{
}

/// A key type name gives its scalar type where that type can key a map, and
/// is refused as a key type where it cannot; a value type name gives its
/// scalar type, or a message for `message`, and is refused otherwise. Errors
/// of the scalar type name pass on to key types.
pub proof fn lemma_key_and_value_type_names(s: Seq<char>, path: Option<Seq<char>>)
    ensures
        scalar_ty_given(s, path) matches Ok(t) ==> key_ty_given(s, path) == if is_key_ty(t) {
            Ok::<_, MapError<Seq<char>>>(t)
        } else {
            Err(MapError::InvalidKeyType(s))
        },
        scalar_ty_given(s, path) matches Err(e) ==> key_ty_given(s, path) == Err::<
            ScalarTy<Seq<char>>,
            _,
        >(e),
        scalar_ty_given(s, path) matches Ok(t) ==> value_ty_given(s, path) == Ok::<
            _,
            MapError<Seq<char>>,
        >(ValueTy::Scalar(t)),
        scalar_ty_given(s, path) is Err ==> value_ty_given(s, path) == if trimmed(s) == "message"@ {
            Ok::<_, MapError<Seq<char>>>(ValueTy::<Seq<char>>::Message)
        } else {
            Err(MapError::InvalidValueType(s))
        },
{
}

/// Each scalar type is encoded by the `prost::encoding` module of its name;
/// enumerations by `int32`.
pub proof fn lemma_scalar_modules(t: ScalarTy<Seq<char>>)
    ensures
        module_spec(t) == match t {
            ScalarTy::Double => "double"@,
            ScalarTy::Float => "float"@,
            ScalarTy::Int32 => "int32"@,
            ScalarTy::Int64 => "int64"@,
            ScalarTy::Uint32 => "uint32"@,
            ScalarTy::Uint64 => "uint64"@,
            ScalarTy::Sint32 => "sint32"@,
            ScalarTy::Sint64 => "sint64"@,
            ScalarTy::Fixed32 => "fixed32"@,
            ScalarTy::Fixed64 => "fixed64"@,
            ScalarTy::Sfixed32 => "sfixed32"@,
            ScalarTy::Sfixed64 => "sfixed64"@,
            ScalarTy::Bool => "bool"@,
            ScalarTy::String => "string"@,
            ScalarTy::Bytes => "bytes"@,
            ScalarTy::Enumeration(_) => "int32"@,
        },
{
}

/// `map` and `hash_map` select a `HashMap`, encoded by `hash_map` and held
/// in `std`'s `HashMap`; `btree_map` selects a `BTreeMap`, encoded by
/// `btree_map` and held in `prost::alloc`'s `BTreeMap`; no other name selects
/// a map type.
pub proof fn lemma_map_types(m: MapTy, name: Seq<char>)
    ensures
        map_ty_spec("map"@) == Some(MapTy::HashMap),
        map_ty_spec("hash_map"@) == Some(MapTy::HashMap),
        map_ty_spec("btree_map"@) == Some(MapTy::BTreeMap),
        name != "map"@ && name != "hash_map"@ && name != "btree_map"@ ==> map_ty_spec(name) is None,
        m is HashMap ==> m.module_spec() == "hash_map"@ && m.lib_spec() == "std"@
            && m.collection_spec() == "HashMap"@,
        m is BTreeMap ==> m.module_spec() == "btree_map"@ && m.lib_spec() == "prost::alloc"@
            && m.collection_spec() == "BTreeMap"@,
{
    lemma_map_ty_module_round_trip(MapTy::HashMap);
    lemma_map_ty_module_round_trip(MapTy::BTreeMap);
}

/// Each error is reported with its own fixed text; an error that names a
/// text reports it after the fixed text.
pub proof fn lemma_error_messages(e: MapError<Seq<char>>)
    ensures
        message_spec(e) == match e {
            MapError::InvalidType(s) => "invalid type: "@ + s,
            MapError::InvalidPath(s) => "invalid enumeration path: "@ + s,
            MapError::InvalidKeyType(s) => "invalid map key type: "@ + s,
            MapError::InvalidValueType(s) => "invalid map value type: "@ + s,
            MapError::MissingValueType => "invalid map attribute: must have key and value types"@,
            MapError::TooManyTypes(s) => "invalid map attribute: "@ + s,
            MapError::WrongTypeCount => "invalid map attribute: must contain key and value types"@,
            MapError::InvalidTypeList => "invalid map attribute: expected identifiers"@,
            MapError::InvalidTag => "invalid tag attribute"@,
            MapError::DuplicateTag => "duplicate tag attributes"@,
            MapError::DuplicateMapType => "duplicate map type attribute"@,
            MapError::DuplicateWrapper => "duplicate wrapper attribute"@,
        },
{
}

} // verus!
