use prost_map::error::MapError;
use prost_map::map::{key_ty_from_str, MapTy, ValueTy};
use prost_map::scalar::ScalarTy;

fn enumeration(path: &str) -> ScalarTy {
    ScalarTy::Enumeration(path.to_string())
}

#[test]
fn map_ty_from_str_selects_collections() {
    assert_eq!(MapTy::from_str("map"), Some(MapTy::HashMap));
    assert_eq!(MapTy::from_str("hash_map"), Some(MapTy::HashMap));
    assert_eq!(MapTy::from_str("btree_map"), Some(MapTy::BTreeMap));
    assert_eq!(MapTy::from_str("Map"), None);
    assert_eq!(MapTy::from_str(" map"), None);
    assert_eq!(MapTy::from_str("tag"), None);
}

#[test]
fn map_ty_names() {
    assert_eq!(MapTy::HashMap.module(), "hash_map");
    assert_eq!(MapTy::BTreeMap.module(), "btree_map");
    assert_eq!(MapTy::HashMap.lib(), "std");
    assert_eq!(MapTy::BTreeMap.lib(), "prost::alloc");
    assert_eq!(MapTy::HashMap.collection(), "HashMap");
    assert_eq!(MapTy::BTreeMap.collection(), "BTreeMap");
}

#[test]
fn map_ty_raw_methods() {
    let h = MapTy::HashMap;
    let b = MapTy::BTreeMap;
    assert_eq!(h.raw_map_ref_method(), "raw_hash_map_key_ref");
    assert_eq!(h.raw_map_mut_ref_method(), "raw_hash_map_key_mut_ref");
    assert_eq!(h.raw_map_value_ref_method(), "raw_hash_map_value_ref");
    assert_eq!(h.raw_map_value_mut_ref_method(), "raw_hash_map_value_mut_ref");
    assert_eq!(h.raw_map_both_ref_method(), "raw_hash_map_ref");
    assert_eq!(h.raw_map_both_mut_ref_method(), "raw_hash_map_mut_ref");
    assert_eq!(b.raw_map_ref_method(), "raw_btree_map_key_ref");
    assert_eq!(b.raw_map_mut_ref_method(), "raw_btree_map_key_mut_ref");
    assert_eq!(b.raw_map_value_ref_method(), "raw_btree_map_value_ref");
    assert_eq!(b.raw_map_value_mut_ref_method(), "raw_btree_map_value_mut_ref");
    assert_eq!(b.raw_map_both_ref_method(), "raw_btree_map_ref");
    assert_eq!(b.raw_map_both_mut_ref_method(), "raw_btree_map_mut_ref");
    assert_eq!(b.raw_method(false, true, true), "raw_btree_map_value_mut_ref");
}

#[test]
fn map_ty_module_round_trip() {
    for m in [MapTy::HashMap, MapTy::BTreeMap] {
        assert_eq!(MapTy::from_str(m.module()), Some(m));
    }
}

#[test]
fn scalar_keywords() {
    let table = [
        ("float", ScalarTy::Float),
        ("double", ScalarTy::Double),
        ("int32", ScalarTy::Int32),
        ("int64", ScalarTy::Int64),
        ("uint32", ScalarTy::Uint32),
        ("uint64", ScalarTy::Uint64),
        ("sint32", ScalarTy::Sint32),
        ("sint64", ScalarTy::Sint64),
        ("fixed32", ScalarTy::Fixed32),
        ("fixed64", ScalarTy::Fixed64),
        ("sfixed32", ScalarTy::Sfixed32),
        ("sfixed64", ScalarTy::Sfixed64),
        ("bool", ScalarTy::Bool),
        ("string", ScalarTy::String),
        ("bytes", ScalarTy::Bytes),
    ];
    for (name, ty) in table {
        assert_eq!(ScalarTy::from_str(name), Ok(ty));
    }
    assert_eq!(ScalarTy::from_str("  uint64\t"), Ok(ScalarTy::Uint64));
    assert_eq!(ScalarTy::from_str("int"), Err(MapError::InvalidType("int".to_string())));
    assert_eq!(ScalarTy::from_str("Int32"), Err(MapError::InvalidType("Int32".to_string())));
    assert_eq!(ScalarTy::from_str(""), Err(MapError::InvalidType("".to_string())));
}

#[test]
fn scalar_module_round_trip() {
    let tys = [
        ScalarTy::Float,
        ScalarTy::Double,
        ScalarTy::Int32,
        ScalarTy::Int64,
        ScalarTy::Uint32,
        ScalarTy::Uint64,
        ScalarTy::Sint32,
        ScalarTy::Sint64,
        ScalarTy::Fixed32,
        ScalarTy::Fixed64,
        ScalarTy::Sfixed32,
        ScalarTy::Sfixed64,
        ScalarTy::Bool,
        ScalarTy::String,
        ScalarTy::Bytes,
    ];
    for ty in tys {
        assert_eq!(ScalarTy::from_str(ty.module()), Ok(ty));
    }
    assert_eq!(enumeration("Foo").module(), "int32");
}

#[test]
fn scalar_enumerations() {
    assert_eq!(ScalarTy::from_str("enumeration<Foo>"), Ok(enumeration("Foo")));
    assert_eq!(ScalarTy::from_str("enumeration(Foo)"), Ok(enumeration("Foo")));
    assert_eq!(ScalarTy::from_str(" enumeration ( foo::Bar ) "), Ok(enumeration("foo :: Bar")));
    assert_eq!(ScalarTy::from_str("enumeration(Foo>"), Ok(enumeration("Foo")));
    assert_eq!(ScalarTy::from_str("enumeration(::a::b::C)"), Ok(enumeration(":: a :: b :: C")));
    assert_eq!(ScalarTy::from_str("enumeration"), Err(MapError::InvalidType("enumeration".to_string())));
    assert_eq!(ScalarTy::from_str("enumeration()"), Err(MapError::InvalidPath("".to_string())));
    assert_eq!(ScalarTy::from_str("enumeration(1 + 2)"), Err(MapError::InvalidPath("1 + 2".to_string())));
    assert_eq!(ScalarTy::from_str("enumeration[Foo]"), Err(MapError::InvalidType("enumeration[Foo]".to_string())));
    assert_eq!(ScalarTy::from_str("enumeration(Foo"), Err(MapError::InvalidType("enumeration(Foo".to_string())));
    assert_eq!(ScalarTy::from_str("enumerationFoo"), Err(MapError::InvalidType("enumerationFoo".to_string())));
}

#[test]
fn scalar_rust_types() {
    assert_eq!(ScalarTy::Double.rust_type(), "f64");
    assert_eq!(ScalarTy::Float.rust_type(), "f32");
    assert_eq!(ScalarTy::Sint32.rust_type(), "i32");
    assert_eq!(ScalarTy::Sfixed64.rust_type(), "i64");
    assert_eq!(ScalarTy::Fixed32.rust_type(), "u32");
    assert_eq!(ScalarTy::Uint64.rust_type(), "u64");
    assert_eq!(ScalarTy::Bool.rust_type(), "bool");
    assert_eq!(ScalarTy::String.rust_type(), "::prost::alloc::string::String");
    assert_eq!(ScalarTy::Bytes.rust_type(), "::prost::alloc::vec::Vec<u8>");
    assert_eq!(enumeration("Foo").rust_type(), "i32");
    assert_eq!(ScalarTy::String.rust_ref_type(), "&str");
    assert_eq!(ScalarTy::Bytes.rust_ref_type(), "&[u8]");
    assert_eq!(ScalarTy::Int64.rust_ref_type(), "i64");
    assert!(ScalarTy::Int32.is_numeric());
    assert!(enumeration("Foo").is_numeric());
    assert!(!ScalarTy::String.is_numeric());
    assert!(!ScalarTy::Bytes.is_numeric());
}

#[test]
fn scalar_debug_wrappers() {
    assert_eq!(
        ScalarTy::Int32.debug("KeyWrapper"),
        "#[allow(non_snake_case)] fn KeyWrapper<T>(v: T) -> T { v }"
    );
    assert_eq!(
        enumeration("Color").debug("ValueWrapper"),
        "struct ValueWrapper<'a>(&'a i32); impl<'a> ::core::fmt::Debug for ValueWrapper<'a> { fn fmt(&self, f: &mut ::core::fmt::Formatter) -> ::core::fmt::Result { let res: ::core::result::Result<Color, _> = ::core::convert::TryFrom::try_from(*self.0); match res { Err(_) => ::core::fmt::Debug::fmt(&self.0, f), Ok(en) => ::core::fmt::Debug::fmt(&en, f), } } }"
    );
}

#[test]
fn key_types() {
    for name in ["int32", "int64", "uint32", "uint64", "sint32", "sint64", "fixed32", "fixed64", "sfixed32", "sfixed64", "bool", "string"] {
        assert_eq!(key_ty_from_str(name), ScalarTy::from_str(name));
    }
    assert_eq!(key_ty_from_str("float"), Err(MapError::InvalidKeyType("float".to_string())));
    assert_eq!(key_ty_from_str("double"), Err(MapError::InvalidKeyType("double".to_string())));
    assert_eq!(key_ty_from_str("bytes"), Err(MapError::InvalidKeyType("bytes".to_string())));
    assert_eq!(key_ty_from_str("enumeration(Foo)"), Err(MapError::InvalidKeyType("enumeration(Foo)".to_string())));
    assert_eq!(key_ty_from_str("message"), Err(MapError::InvalidType("message".to_string())));
    assert_eq!(key_ty_from_str("nope"), Err(MapError::InvalidType("nope".to_string())));
}

#[test]
fn value_types() {
    assert_eq!(ValueTy::from_str("message"), Ok(ValueTy::Message));
    assert_eq!(ValueTy::from_str("  message "), Ok(ValueTy::Message));
    assert_eq!(ValueTy::from_str("bytes"), Ok(ValueTy::Scalar(ScalarTy::Bytes)));
    assert_eq!(ValueTy::from_str(" double"), Ok(ValueTy::Scalar(ScalarTy::Double)));
    assert_eq!(ValueTy::from_str("enumeration<E>"), Ok(ValueTy::Scalar(enumeration("E"))));
    assert_eq!(ValueTy::from_str("msg"), Err(MapError::InvalidValueType("msg".to_string())));
    assert_eq!(ValueTy::from_str("Message"), Err(MapError::InvalidValueType("Message".to_string())));
}

#[test]
fn key_types_are_value_types() {
    for name in ["int32", "bool", "string", " sfixed64 "] {
        let k = key_ty_from_str(name).unwrap();
        assert_eq!(ValueTy::from_str(name), Ok(ValueTy::Scalar(k)));
    }
}

#[test]
fn value_codecs_and_debug() {
    assert_eq!(ValueTy::Message.codec(), "message");
    assert_eq!(ValueTy::Scalar(ScalarTy::Sint64).codec(), "sint64");
    assert_eq!(ValueTy::Scalar(enumeration("E")).codec(), "int32");
    assert_eq!(ValueTy::Message.debug(), "fn ValueWrapper<T>(v: T) -> T { v }");
    assert_eq!(
        ValueTy::Scalar(ScalarTy::Bool).debug(),
        "#[allow(non_snake_case)] fn ValueWrapper<T>(v: T) -> T { v }"
    );
}

#[test]
fn error_messages() {
    assert_eq!(MapError::<String>::DuplicateTag.message(), "duplicate tag attributes");
    assert_eq!(MapError::<String>::MissingValueType.message(), "invalid map attribute: must have key and value types");
    assert_eq!(MapError::<String>::WrongTypeCount.message(), "invalid map attribute: must contain key and value types");
    assert_eq!(key_ty_from_str("float").unwrap_err().message(), "invalid map key type: float");
    assert_eq!(ValueTy::from_str("foo").unwrap_err().message(), "invalid map value type: foo");
    assert_eq!(ScalarTy::from_str("int").unwrap_err().message(), "invalid type: int");
    assert_eq!(ScalarTy::from_str("enumeration(1 + 2)").unwrap_err().message(), "invalid enumeration path: 1 + 2");
}

#[test]
fn enumeration_candidates() {
    assert_eq!(ScalarTy::enumeration_candidate("enumeration<a::B>"), Some("a::B"));
    assert_eq!(ScalarTy::enumeration_candidate(" enumeration (  1 + 2 ) "), Some("1 + 2"));
    assert_eq!(ScalarTy::enumeration_candidate("int32"), None);
    assert_eq!(ScalarTy::enumeration_candidate("enumeration"), None);
    assert_eq!(ScalarTy::enumeration_candidate("enumeration{X}"), None);
}

#[test]
fn from_path_check_takes_the_path_verdict() {
    assert_eq!(ScalarTy::from_path_check("enumeration(1 + 2)", Some("1 + 2".to_string())), Ok(enumeration("1 + 2")));
    assert_eq!(ScalarTy::from_path_check("enumeration(Foo)", None), Err(MapError::InvalidPath("Foo".to_string())));
    assert_eq!(ScalarTy::from_path_check("enumeration(Foo)", Some("Foo".to_string())), Ok(enumeration("Foo")));
    assert_eq!(ScalarTy::from_path_check("int32", None), Ok(ScalarTy::Int32));
    assert_eq!(ScalarTy::from_path_check("nothing", Some("x".to_string())), Err(MapError::InvalidType("nothing".to_string())));
}

#[test]
fn enumeration_paths_are_printed_back() {
    assert_eq!(ScalarTy::from_str("enumeration(Foo // note)"), Ok(enumeration("Foo")));
    assert_eq!(ScalarTy::from_str("enumeration<a :: b::C>"), Ok(enumeration("a :: b :: C")));
}
