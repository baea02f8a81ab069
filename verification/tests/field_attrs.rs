use prost_map::attr::{tag_attr, Meta, MetaArg, MetaValue};
use prost_map::error::MapError;
use prost_map::map::{Field, FieldAttrs, MapTy, ValueTy, Wrapper};
use prost_map::scalar::ScalarTy;

fn named_str(name: &str, value: &str) -> Meta {
    Meta::NameValue { ident: Some(name.to_string()), value: MetaValue::Str(value.to_string()) }
}

fn named_int(name: &str, digits: &str) -> Meta {
    Meta::NameValue { ident: Some(name.to_string()), value: MetaValue::Int(digits.to_string()) }
}

fn ident(s: &str) -> MetaArg {
    MetaArg::Ident(s.to_string())
}

fn list(name: &str, args: Vec<MetaArg>, trailing_comma: bool) -> Meta {
    Meta::List { ident: Some(name.to_string()), args, trailing_comma }
}

fn path(name: &str) -> Meta {
    Meta::Path { ident: Some(name.to_string()) }
}

fn wrapper(key: &str, value: Option<&str>) -> Wrapper {
    Wrapper { key_type: key.to_string(), value_type_name: value.map(|v| v.to_string()) }
}

fn field(map_ty: MapTy, key_ty: ScalarTy, value_ty: ValueTy, tag: u32) -> Field {
    Field { map_ty, key_ty, value_ty, tag, key_wrapper: None, value_wrapper: None }
}

#[test]
fn tag_attribute_forms() {
    assert_eq!(tag_attr(&named_str("tag", "5")), Ok(Some(5)));
    assert_eq!(tag_attr(&named_str("tag", "+5")), Ok(Some(5)));
    assert_eq!(tag_attr(&named_int("tag", "7")), Ok(Some(7)));
    assert_eq!(tag_attr(&list("tag", vec![MetaArg::Int("9".to_string())], false)), Ok(Some(9)));
    assert_eq!(tag_attr(&named_str("other", "5")), Ok(None));
    assert_eq!(tag_attr(&Meta::Path { ident: None }), Ok(None));
    assert_eq!(tag_attr(&Meta::Wrapper(wrapper("K", None))), Ok(None));
}

#[test]
fn tag_attribute_errors() {
    assert_eq!(tag_attr(&named_str("tag", "x")), Err(MapError::InvalidTag));
    assert_eq!(tag_attr(&named_str("tag", "4294967296")), Err(MapError::InvalidTag));
    assert_eq!(tag_attr(&named_str("tag", " 5")), Err(MapError::InvalidTag));
    assert_eq!(tag_attr(&named_int("tag", "4294967296")), Err(MapError::InvalidTag));
    assert_eq!(
        tag_attr(&Meta::NameValue { ident: Some("tag".to_string()), value: MetaValue::Other }),
        Err(MapError::InvalidTag)
    );
    assert_eq!(tag_attr(&path("tag")), Err(MapError::InvalidTag));
    assert_eq!(tag_attr(&list("tag", vec![MetaArg::Int("9".to_string())], true)), Err(MapError::InvalidTag));
    assert_eq!(tag_attr(&list("tag", vec![ident("nine")], false)), Err(MapError::InvalidTag));
    assert_eq!(tag_attr(&list("tag", vec![], false)), Err(MapError::InvalidTag));
}

#[test]
fn tag_attribute_reads_decimal() {
    for n in [0u32, 1, 15, 536870911, u32::MAX] {
        assert_eq!(tag_attr(&named_str("tag", &n.to_string())), Ok(Some(n)));
    }
}

#[test]
fn new_reads_name_value_map() {
    let attrs = vec![named_str("map", "string, int32"), named_str("tag", "3")];
    assert_eq!(
        Field::new(&attrs, None),
        Ok(Some(field(MapTy::HashMap, ScalarTy::String, ValueTy::Scalar(ScalarTy::Int32), 3)))
    );
    let attrs = vec![named_str("btree_map", "uint64,message")];
    assert_eq!(
        Field::new(&attrs, Some(8)),
        Ok(Some(field(MapTy::BTreeMap, ScalarTy::Uint64, ValueTy::Message, 8)))
    );
    let attrs = vec![named_str("hash_map", " bool , enumeration(Color)")];
    assert_eq!(
        Field::new(&attrs, Some(2)),
        Ok(Some(field(
            MapTy::HashMap,
            ScalarTy::Bool,
            ValueTy::Scalar(ScalarTy::Enumeration("Color".to_string())),
            2
        )))
    );
}

#[test]
fn new_reads_list_map() {
    let attrs = vec![list("map", vec![ident("sint32"), ident("bytes")], false), named_int("tag", "4")];
    assert_eq!(
        Field::new(&attrs, None),
        Ok(Some(field(MapTy::HashMap, ScalarTy::Sint32, ValueTy::Scalar(ScalarTy::Bytes), 4)))
    );
    let attrs = vec![list("btree_map", vec![ident("string"), ident("message")], true)];
    assert_eq!(
        Field::new(&attrs, Some(1)),
        Ok(Some(field(MapTy::BTreeMap, ScalarTy::String, ValueTy::Message, 1)))
    );
}

#[test]
fn new_tag_precedence() {
    let attrs = vec![named_str("tag", "10"), named_str("map", "int32, int32")];
    let f = Field::new(&attrs, Some(99)).unwrap().unwrap();
    assert_eq!(f.tag, 10);
    assert_eq!(Field::new(&attrs, Some(99)), Field::new(&attrs, None));
    let attrs = vec![named_str("map", "int32, int32")];
    assert_eq!(Field::new(&attrs, Some(99)).unwrap().unwrap().tag, 99);
    assert_eq!(Field::new(&attrs, None), Ok(None));
}

#[test]
fn new_oneof_has_no_inferred_tag() {
    let attrs = vec![named_str("map", "int32, int32")];
    assert_eq!(Field::new_oneof(&attrs), Ok(None));
    let attrs = vec![named_str("map", "int32, int32"), named_str("tag", "6")];
    assert_eq!(Field::new_oneof(&attrs), Field::new(&attrs, None));
    assert_eq!(Field::new_oneof(&attrs).unwrap().unwrap().tag, 6);
}

#[test]
fn new_rejects_other_fields() {
    assert_eq!(Field::new(&[named_str("tag", "1")], Some(1)), Ok(None));
    assert_eq!(Field::new(&[], Some(1)), Ok(None));
    assert_eq!(Field::new(&[path("optional"), named_str("map", "int32, int32")], Some(1)), Ok(None));
    assert_eq!(Field::new(&[named_str("map", "int32, int32"), path("optional")], Some(1)), Ok(None));
    assert_eq!(Field::new(&[path("map")], Some(1)), Ok(None));
    assert_eq!(Field::new(&[named_int("map", "5")], Some(1)), Ok(None));
    assert_eq!(Field::new(&[Meta::Path { ident: None }], Some(1)), Ok(None));
}

#[test]
fn new_map_attribute_errors() {
    assert_eq!(Field::new(&[named_str("map", "int32")], Some(1)), Err(MapError::MissingValueType));
    assert_eq!(Field::new(&[named_str("map", "int32, int32, int32")], Some(1)), Err(MapError::TooManyTypes("int32, int32, int32".to_string())));
    assert_eq!(Field::new(&[list("map", vec![ident("int32")], false)], Some(1)), Err(MapError::WrongTypeCount));
    assert_eq!(Field::new(&[list("map", vec![], false)], Some(1)), Err(MapError::WrongTypeCount));
    assert_eq!(
        Field::new(&[list("map", vec![ident("int32"), MetaArg::Other], false)], Some(1)),
        Err(MapError::InvalidTypeList)
    );
    assert_eq!(Field::new(&[list("map", vec![], true)], Some(1)), Err(MapError::InvalidTypeList));
    assert_eq!(Field::new(&[named_str("map", "float, int32")], Some(1)), Err(MapError::InvalidKeyType("float".to_string())));
    assert_eq!(Field::new(&[named_str("map", "flt, int32")], Some(1)), Err(MapError::InvalidType("flt".to_string())));
    assert_eq!(Field::new(&[named_str("map", "int32, msg")], Some(1)), Err(MapError::InvalidValueType(" msg".to_string())));
    assert_eq!(Field::new(&[named_str("map", "float, msg")], Some(1)), Err(MapError::InvalidKeyType("float".to_string())));
    assert_eq!(
        Field::new(&[named_str("map", "float, int32")], Some(1)).unwrap_err().message(),
        "invalid map key type: float"
    );
    assert!(Field::new(&[named_str("map", "bytes, int32")], Some(1)).is_err());
    assert!(Field::new(&[named_str("map", "string, foo")], Some(1))
        .unwrap_err()
        .message()
        .starts_with("invalid map value type:"));
}

#[test]
fn new_duplicate_errors() {
    let map = || named_str("map", "int32, int32");
    assert_eq!(Field::new(&[map(), map()], Some(1)), Err(MapError::DuplicateMapType));
    assert_eq!(
        Field::new(&[map(), named_str("btree_map", "string, string")], Some(1)),
        Err(MapError::DuplicateMapType)
    );
    assert_eq!(
        Field::new(&[named_str("tag", "1"), map(), named_int("tag", "1")], None),
        Err(MapError::DuplicateTag)
    );
    assert_eq!(
        Field::new(&[Meta::Wrapper(wrapper("K", None)), map(), Meta::Wrapper(wrapper("K", None))], Some(1)),
        Err(MapError::DuplicateWrapper)
    );
    assert_eq!(Field::new(&[named_str("tag", "x"), map()], Some(1)), Err(MapError::InvalidTag));
    assert_eq!(Field::new(&[path("other"), named_str("tag", "x")], Some(1)), Ok(None));
}

#[test]
fn new_wrappers() {
    let attrs = vec![named_str("map", "string, message"), Meta::Wrapper(wrapper("Name", Some("Entry")))];
    let f = Field::new(&attrs, Some(5)).unwrap().unwrap();
    assert_eq!(f.key_wrapper, Some(wrapper("Name", Some("Entry"))));
    assert_eq!(f.value_wrapper, Some("Entry".to_string()));
    let attrs = vec![Meta::Wrapper(wrapper("Name", None)), named_str("map", "string, message")];
    let f = Field::new(&attrs, Some(5)).unwrap().unwrap();
    assert_eq!(f.key_wrapper, Some(wrapper("Name", None)));
    assert_eq!(f.value_wrapper, None);
}

#[test]
fn absorb_steps() {
    let mut st = FieldAttrs { types: None, tag: None, key_wrapper: None };
    assert_eq!(st.absorb(&named_str("tag", "2")), Ok(true));
    assert_eq!(st.tag, Some(2));
    assert_eq!(st.absorb(&named_str("tag", "3")), Err(MapError::DuplicateTag));
    assert_eq!(st.absorb(&path("packed")), Ok(false));
    assert_eq!(st.absorb(&named_str("map", "int64, bool")), Ok(true));
    assert_eq!(st.types, Some((MapTy::HashMap, ScalarTy::Int64, ValueTy::Scalar(ScalarTy::Bool))));
}

#[test]
fn attributes_written_from_a_field_read_back() {
    let keys = [ScalarTy::Int32, ScalarTy::Uint64, ScalarTy::Sfixed32, ScalarTy::Bool, ScalarTy::String];
    for map_ty in [MapTy::HashMap, MapTy::BTreeMap] {
        for key_ty in keys.iter() {
            for value in ["double", "bytes", "sint64", "message"] {
                let key_name = key_ty.module();
                let text = format!("{},{}", key_name, value);
                let attrs = vec![named_str(map_ty.module(), &text), named_str("tag", "21")];
                let got = Field::new(&attrs, None).unwrap().unwrap();
                assert_eq!(got.map_ty, map_ty);
                assert_eq!(&got.key_ty, key_ty);
                assert_eq!(got.value_ty.codec(), value);
                assert_eq!(got.tag, 21);
            }
        }
    }
}

#[test]
fn oneof_reads_as_untagged() {
    let cases = vec![
        vec![named_str("btree_map", "string, message"), named_str("tag", "2")],
        vec![named_str("hash_map", "int64, bool")],
        vec![named_str("map", "int32"), named_str("tag", "2")],
        vec![named_str("tag", "2"), path("optional")],
        vec![list("map", vec![ident("sint32"), ident("bytes")], false), named_str("tag", "9")],
    ];
    for attrs in cases {
        assert_eq!(Field::new_oneof(&attrs), Field::new(&attrs, None));
    }
}
