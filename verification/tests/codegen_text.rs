use prost_map::map::{Field, MapTy, ValueTy, Wrapper};
use prost_map::scalar::ScalarTy;

fn field(map_ty: MapTy, key_ty: ScalarTy, value_ty: ValueTy, tag: u32) -> Field {
    Field { map_ty, key_ty, value_ty, tag, key_wrapper: None, value_wrapper: None }
}

fn color() -> ValueTy {
    ValueTy::Scalar(ScalarTy::Enumeration("Color".to_string()))
}

fn wrapped(mut f: Field, key: Option<&str>, value: Option<&str>) -> Field {
    f.key_wrapper = key.map(|k| Wrapper {
        key_type: k.to_string(),
        value_type_name: value.map(|v| v.to_string()),
    });
    f.value_wrapper = value.map(|v| v.to_string());
    f
}

#[test]
fn apply_wrappers_forms() {
    let f = field(MapTy::HashMap, ScalarTy::String, ValueTy::Message, 1);
    assert_eq!(f.apply_wrappers("self.m", false), "&self.m");
    assert_eq!(f.apply_wrappers("self.m", true), "&mut self.m");
    let both = wrapped(field(MapTy::HashMap, ScalarTy::String, ValueTy::Message, 1), Some("K"), Some("V"));
    assert_eq!(both.apply_wrappers("self.m", false), "::prost::wrapper::raw_hash_map_ref::<K, V>(&self.m)");
    assert_eq!(both.apply_wrappers("self.m", true), "::prost::wrapper::raw_hash_map_mut_ref::<K, V>(&mut self.m)");
    let key = wrapped(field(MapTy::BTreeMap, ScalarTy::String, ValueTy::Message, 1), Some("K"), None);
    assert_eq!(key.apply_wrappers("m", false), "::prost::wrapper::raw_btree_map_key_ref::<K, _>(&m)");
    assert_eq!(key.apply_wrappers("m", true), "::prost::wrapper::raw_btree_map_key_mut_ref::<K, _>(&mut m)");
    let mut value = field(MapTy::BTreeMap, ScalarTy::String, ValueTy::Message, 1);
    value.value_wrapper = Some("V".to_string());
    assert_eq!(value.apply_wrappers("m", false), "::prost::wrapper::raw_btree_map_value_ref::<_, V>(&m)");
    assert_eq!(value.apply_wrappers("m", true), "::prost::wrapper::raw_btree_map_value_mut_ref::<_, V>(&mut m)");
}

#[test]
fn encode_scalar_values() {
    let f = field(MapTy::HashMap, ScalarTy::String, ValueTy::Scalar(ScalarTy::Sint64), 7);
    assert_eq!(
        f.encode("self.m"),
        "::prost::encoding::hash_map::encode(::prost::encoding::string::encode, ::prost::encoding::string::encoded_len, ::prost::encoding::sint64::encode, ::prost::encoding::sint64::encoded_len, 7u32, &self.m, buf,);"
    );
}

#[test]
fn encode_message_values() {
    let f = field(MapTy::BTreeMap, ScalarTy::Int32, ValueTy::Message, 12);
    assert_eq!(
        f.encode("self.m"),
        "::prost::encoding::btree_map::encode(::prost::encoding::int32::encode, ::prost::encoding::int32::encoded_len, ::prost::encoding::message::encode, ::prost::encoding::message::encoded_len, 12u32, &self.m, buf,);"
    );
}

#[test]
fn encode_enumeration_values() {
    let f = field(MapTy::HashMap, ScalarTy::Bool, color(), 4294967295);
    assert_eq!(
        f.encode("self.m"),
        "::prost::encoding::hash_map::encode_with_default(::prost::encoding::bool::encode, ::prost::encoding::bool::encoded_len, ::prost::encoding::int32::encode, ::prost::encoding::int32::encoded_len, &(Color::default() as i32), 4294967295u32, &self.m, buf,);"
    );
}

#[test]
fn merge_forms() {
    let f = field(MapTy::HashMap, ScalarTy::String, ValueTy::Scalar(ScalarTy::Bytes), 1);
    assert_eq!(
        f.merge("self.m"),
        "::prost::encoding::hash_map::merge(::prost::encoding::string::merge, ::prost::encoding::bytes::merge, &mut self.m, buf, ctx)"
    );
    let f = field(MapTy::BTreeMap, ScalarTy::Uint32, color(), 1);
    assert_eq!(
        f.merge("self.m"),
        "::prost::encoding::btree_map::merge_with_default(::prost::encoding::uint32::merge, ::prost::encoding::int32::merge, Color::default() as i32, &mut self.m, buf, ctx,)"
    );
    let f = wrapped(field(MapTy::HashMap, ScalarTy::String, ValueTy::Message, 1), Some("K"), Some("V"));
    assert_eq!(
        f.merge("self.m"),
        "::prost::encoding::hash_map::merge(::prost::encoding::string::merge, ::prost::encoding::message::merge, ::prost::wrapper::raw_hash_map_mut_ref::<K, V>(&mut self.m), buf, ctx,)"
    );
}

#[test]
fn encoded_len_forms() {
    let f = field(MapTy::HashMap, ScalarTy::Fixed64, ValueTy::Scalar(ScalarTy::Double), 30);
    assert_eq!(
        f.encoded_len("self.m"),
        "::prost::encoding::hash_map::encoded_len(::prost::encoding::fixed64::encoded_len, ::prost::encoding::double::encoded_len, 30u32, &self.m)"
    );
    let f = field(MapTy::HashMap, ScalarTy::String, color(), 2);
    assert_eq!(
        f.encoded_len("self.m"),
        "::prost::encoding::hash_map::encoded_len_with_default(::prost::encoding::string::encoded_len, ::prost::encoding::int32::encoded_len, &(Color::default() as i32), 2u32, &self.m,)"
    );
}

#[test]
fn message_calls_keep_their_trailing_commas() {
    let f = field(MapTy::BTreeMap, ScalarTy::Int64, ValueTy::Message, 4);
    assert_eq!(
        f.encoded_len("self.m"),
        "::prost::encoding::btree_map::encoded_len(::prost::encoding::int64::encoded_len, ::prost::encoding::message::encoded_len, 4u32, &self.m,)"
    );
    assert_eq!(
        f.merge("self.m"),
        "::prost::encoding::btree_map::merge(::prost::encoding::int64::merge, ::prost::encoding::message::merge, &mut self.m, buf, ctx,)"
    );
}

#[test]
fn try_methods_checks_the_name() {
    let f = field(MapTy::HashMap, ScalarTy::String, color(), 1);
    assert_eq!(f.try_methods("größe"), Some(f.methods("größe")));
    assert!(f.try_methods("größe").unwrap().unwrap().contains("pub fn get_größe("));
    assert_eq!(f.try_methods("r#type"), None);
    assert_eq!(f.try_methods("a-b"), None);
    let g = field(MapTy::HashMap, ScalarTy::String, ValueTy::Message, 1);
    assert_eq!(g.try_methods("m"), Some(None));
    assert_eq!(g.try_methods("r#type"), Some(None));
    assert_eq!(g.methods("r#type"), None);
}

#[test]
fn clear_form() {
    let f = field(MapTy::HashMap, ScalarTy::String, ValueTy::Message, 1);
    assert_eq!(f.clear("self.m"), "self.m.clear()");
}

#[test]
fn methods_for_enumerations() {
    let f = field(MapTy::HashMap, ScalarTy::String, color(), 1);
    assert_eq!(
        f.methods("colors"),
        Some("#[doc = \"Returns the enum value for the corresponding key in `colors`, or `None` if the entry does not exist or it is not a valid enum value.\"] pub fn get_colors(&self, key: &str) -> ::core::option::Option<Color> { self.colors.get(key).cloned().and_then(|x| { let result: ::core::result::Result<Color, _> = ::core::convert::TryFrom::try_from(x); result.ok() }) } #[doc = \"Inserts a key value pair into `colors`.\"] pub fn insert_colors(&mut self, key: ::prost::alloc::string::String, value: Color) -> ::core::option::Option<Color> { self.colors.insert(key, value as i32).and_then(|x| { let result: ::core::result::Result<Color, _> = ::core::convert::TryFrom::try_from(x); result.ok() }) }".to_string())
    );
    let f = field(MapTy::BTreeMap, ScalarTy::Int32, color(), 1);
    let m = f.methods("by_id").unwrap();
    assert!(m.contains("pub fn get_by_id(&self, key: i32)"));
    assert!(m.contains("self.by_id.get(&key)"));
    assert!(m.contains("pub fn insert_by_id(&mut self, key: i32, value: Color)"));
}

#[test]
fn methods_for_other_values() {
    let f = field(MapTy::HashMap, ScalarTy::String, ValueTy::Message, 1);
    assert_eq!(f.methods("m"), None);
    let f = field(MapTy::HashMap, ScalarTy::String, ValueTy::Scalar(ScalarTy::Int32), 1);
    assert_eq!(f.methods("m"), None);
}

const FMT_HEAD: &str = "fn fmt(&self, f: &mut ::core::fmt::Formatter) -> ::core::fmt::Result { ";
const FMT_TAIL: &str = " let mut builder = f.debug_map(); for (k, v) in self.0 { builder.entry(&KeyWrapper(k), &ValueWrapper(v)); } builder.finish() }";

#[test]
fn debug_scalar_map() {
    let f = field(MapTy::HashMap, ScalarTy::Int32, ValueTy::Scalar(ScalarTy::String), 1);
    let expected = format!(
        "struct MapWrapper<'a>(&'a ::std::collections::HashMap<i32, ::prost::alloc::string::String>); impl<'a> ::core::fmt::Debug for MapWrapper<'a> {{ {}{} {}{} }}",
        FMT_HEAD,
        "#[allow(non_snake_case)] fn KeyWrapper<T>(v: T) -> T { v }",
        "#[allow(non_snake_case)] fn ValueWrapper<T>(v: T) -> T { v }",
        FMT_TAIL
    );
    assert_eq!(f.debug("MapWrapper"), expected);
}

#[test]
fn debug_message_map() {
    let f = field(MapTy::BTreeMap, ScalarTy::String, ValueTy::Message, 1);
    let expected = format!(
        "struct W<'a, V: 'a>(&'a ::prost::alloc::collections::BTreeMap<::prost::alloc::string::String, V>); impl<'a, V> ::core::fmt::Debug for W<'a, V> where V: ::core::fmt::Debug + 'a, {{ {}{} {}{} }}",
        FMT_HEAD,
        "#[allow(non_snake_case)] fn KeyWrapper<T>(v: T) -> T { v }",
        "fn ValueWrapper<T>(v: T) -> T { v }",
        FMT_TAIL
    );
    assert_eq!(f.debug("W"), expected);
    let f = wrapped(field(MapTy::BTreeMap, ScalarTy::String, ValueTy::Message, 1), Some("K"), Some("Val"));
    assert!(f.debug("W").starts_with("struct W<'a>(&'a ::prost::alloc::collections::BTreeMap<K, Val>); impl<'a> ::core::fmt::Debug for W<'a> { fn fmt"));
}

#[test]
fn debug_bytes_map() {
    let f = field(MapTy::HashMap, ScalarTy::String, ValueTy::Scalar(ScalarTy::Bytes), 1);
    assert_eq!(
        f.debug("W"),
        "struct W<'a>(&'a dyn ::core::fmt::Debug); impl<'a> ::core::fmt::Debug for W<'a> { fn fmt(&self, f: &mut ::core::fmt::Formatter) -> ::core::fmt::Result { self.0.fmt(f) } }"
    );
}

#[test]
fn debug_enumeration_map() {
    let f = field(MapTy::HashMap, ScalarTy::String, color(), 1);
    let d = f.debug("W");
    assert!(d.starts_with("struct W<'a>(&'a ::std::collections::HashMap<::prost::alloc::string::String, i32>);"));
    assert!(d.contains("let res: ::core::result::Result<Color, _> = ::core::convert::TryFrom::try_from(*self.0);"));
}

#[test]
fn encode_and_encoded_len_share_their_arguments() {
    let f = wrapped(field(MapTy::BTreeMap, ScalarTy::Sint64, color(), 12), Some("K"), None);
    let encode = f.encode("self.m");
    let len = f.encoded_len("self.m");
    assert_eq!(
        encode,
        "::prost::encoding::btree_map::encode_with_default(::prost::encoding::sint64::encode, ::prost::encoding::sint64::encoded_len, ::prost::encoding::int32::encode, ::prost::encoding::int32::encoded_len, &(Color::default() as i32), 12u32, ::prost::wrapper::raw_btree_map_key_ref::<K, _>(&self.m), buf,);"
    );
    assert_eq!(
        len,
        "::prost::encoding::btree_map::encoded_len_with_default(::prost::encoding::sint64::encoded_len, ::prost::encoding::int32::encoded_len, &(Color::default() as i32), 12u32, ::prost::wrapper::raw_btree_map_key_ref::<K, _>(&self.m),)"
    );
    let shared = "&(Color::default() as i32), 12u32, ::prost::wrapper::raw_btree_map_key_ref::<K, _>(&self.m)";
    assert!(encode.contains(shared));
    assert!(len.contains(shared));
}
