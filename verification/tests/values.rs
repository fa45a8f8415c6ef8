use serde_value::{
    Error, ErrorKind, FieldMap, NamedStruct, NamedVariant, Number, Order, Serializer,
    TupleStruct, TupleVariant, UnitStruct, UnitVariant, Value, ValueMap, F32,
};
use std::collections::hash_map::DefaultHasher;
use std::hash::{Hash, Hasher};

fn hash_of<T: Hash>(value: &T) -> u64 {
    let mut hasher = DefaultHasher::new();
    value.hash(&mut hasher);
    hasher.finish()
}

fn num(v: i32) -> Value {
    Value::Number(Number::I32(v))
}

fn txt(s: &str) -> Value {
    Value::from_text(s)
}

fn one_of_each() -> Vec<Value> {
    let mut map = ValueMap::new();
    map.insert(num(1), txt("a"));
    let mut fields = FieldMap::new();
    fields.insert("x", num(1));
    let mut more = FieldMap::new();
    more.insert("x", num(1));
    vec![
        Value::Unit,
        Value::Bool(true),
        Value::Char('a'),
        Value::Number(Number::U8(1)),
        txt("a"),
        Value::Sequence(vec![num(1)]),
        Value::Mapping(map),
        Value::Tuple(vec![num(1)]),
        Value::UnitStruct(UnitStruct { name: "A" }),
        Value::TupleStruct(TupleStruct { name: "A", values: vec![num(1)] }),
        Value::NamedStruct(NamedStruct { name: "A", fields }),
        Value::UnitVariant(UnitVariant { name: "A", variant: "B" }),
        Value::TupleVariant(TupleVariant { name: "A", variant: "B", values: vec![num(1)] }),
        Value::NamedVariant(NamedVariant { name: "A", variant: "B", fields: more }),
    ]
}

#[test]
fn test() {
    let value = Serializer.serialize_u32(1).unwrap();
    assert_eq!(Some(1), value.as_u32());

    let mut a = Serializer.serialize_struct("A", 1).unwrap();
    a.serialize_field("value", Serializer.serialize_u32(0)).unwrap();
    let value = a.end().unwrap();
    assert_eq!(value.render(), "A { value: 0 }");

    let value = Serializer.serialize_newtype_struct("C", Serializer.serialize_u32(3)).unwrap();
    assert_eq!(value.render(), "C(3)");

    let mut t = Serializer.serialize_tuple(3).unwrap();
    t.serialize_element(Serializer.serialize_i32(1)).unwrap();
    t.serialize_element(Serializer.serialize_i32(2)).unwrap();
    t.serialize_element(Serializer.serialize_str("hi")).unwrap();
    let value = t.end_tuple().unwrap();
    assert_eq!(value.render(), "(1, 2, \"hi\")");

    let mut b = Serializer.serialize_struct_variant("B", 0, "A", 1).unwrap();
    b.serialize_field("val", Serializer.serialize_i32(1)).unwrap();
    let value = b.end().unwrap();
    assert_eq!(value.render(), "B::A { val: 1 }");
}

#[test]
fn primitives_keep_their_kind() {
    let s = Serializer;
    assert_eq!(s.serialize_u8(1).unwrap(), Value::Number(Number::U8(1)));
    assert_eq!(s.serialize_u16(1).unwrap(), Value::Number(Number::U16(1)));
    assert_eq!(s.serialize_u32(1).unwrap(), Value::Number(Number::U32(1)));
    assert_eq!(s.serialize_u64(1).unwrap(), Value::Number(Number::U64(1)));
    assert_eq!(s.serialize_u128(1).unwrap(), Value::Number(Number::U128(1)));
    assert_eq!(s.serialize_i8(1).unwrap(), Value::Number(Number::I8(1)));
    assert_eq!(s.serialize_i16(1).unwrap(), Value::Number(Number::I16(1)));
    assert_eq!(s.serialize_i32(1).unwrap(), Value::Number(Number::I32(1)));
    assert_eq!(s.serialize_i64(1).unwrap(), Value::Number(Number::I64(1)));
    assert_eq!(s.serialize_i128(1).unwrap(), Value::Number(Number::I128(1)));
    assert_ne!(s.serialize_u8(1).unwrap(), s.serialize_u32(1).unwrap());
    assert!(s.serialize_u8(1).unwrap().is_u8());
    assert!(!s.serialize_u8(1).unwrap().is_u32());
    assert_eq!(s.serialize_u8(1).unwrap().as_u8(), Some(1));
    assert_eq!(s.serialize_u8(1).unwrap().as_u32(), None);
    assert_eq!(s.serialize_f32(1.5f32.to_bits()).unwrap().as_f32(), Some(1.5f32.to_bits()));
    assert_eq!(s.serialize_f64(1.5f64.to_bits()).unwrap().as_f64(), Some(1.5f64.to_bits()));
    assert!(s.serialize_f32(0).unwrap().is_f32());
    assert!(s.serialize_f64(0).unwrap().is_f64());
    assert_eq!(s.serialize_bool(true).unwrap().as_bool(), Some(true));
    assert_eq!(s.serialize_char('x').unwrap().as_char(), Some('x'));
    assert_eq!(s.serialize_str("hi").unwrap().as_string(), Some("hi"));
    assert_eq!(s.serialize_unit().unwrap().as_unit(), Some(()));
    assert_eq!(s.serialize_unit().unwrap(), Value::Unit);
    assert_eq!(
        s.serialize_bytes(&[1, 2]).unwrap(),
        Value::Sequence(vec![Value::Number(Number::U8(1)), Value::Number(Number::U8(2))])
    );
    assert_eq!(
        s.serialize_unit_struct("U").unwrap(),
        Value::UnitStruct(UnitStruct { name: "U" })
    );
    assert_eq!(
        s.serialize_unit_variant("E", 3, "V").unwrap(),
        Value::UnitVariant(UnitVariant { name: "E", variant: "V" })
    );
    assert_eq!(
        s.serialize_newtype_variant("E", 0, "V", Ok(num(4))).unwrap(),
        Value::TupleVariant(TupleVariant { name: "E", variant: "V", values: vec![num(4)] })
    );
}

#[test]
fn every_pair_is_ordered_one_way() {
    let values = one_of_each();
    for (i, x) in values.iter().enumerate() {
        for (j, y) in values.iter().enumerate() {
            let expected = if i < j {
                Order::Less
            } else if i == j {
                Order::Equal
            } else {
                Order::Greater
            };
            assert_eq!(x.compare(y), expected);
            assert_eq!(x.compare(y) == Order::Equal, x == y);
            if x == y {
                assert_eq!(hash_of(x), hash_of(y));
            }
        }
    }
}

#[test]
fn values_with_nans_and_zeros_are_ordered() {
    let nan = Value::Number(Number::F32(F32::new(f32::NAN.to_bits())));
    let other_nan = Value::Number(Number::F32(F32::new(0x7fc0_1234)));
    let zero = Value::Number(Number::F32(F32::new(0.0f32.to_bits())));
    let low_zero = Value::Number(Number::F32(F32::new((-0.0f32).to_bits())));
    assert_eq!(nan.compare(&other_nan), Order::Equal);
    assert_eq!(nan, other_nan);
    assert_eq!(hash_of(&nan), hash_of(&other_nan));
    assert_eq!(low_zero.compare(&zero), Order::Less);
    assert_eq!(zero.compare(&low_zero), Order::Greater);
    assert_eq!(zero.compare(&nan), Order::Less);
    let mut map = ValueMap::new();
    map.insert(nan, num(1));
    map.insert(zero, num(2));
    map.insert(other_nan, num(3));
    map.insert(low_zero, num(4));
    assert_eq!(map.len(), 3);
}

#[test]
fn order_within_a_shape() {
    assert_eq!(Value::Bool(false).compare(&Value::Bool(true)), Order::Less);
    assert_eq!(Value::Char('a').compare(&Value::Char('b')), Order::Less);
    assert_eq!(Value::Char('\u{10ffff}').compare(&Value::Char('a')), Order::Greater);
    assert_eq!(txt("a").compare(&txt("b")), Order::Less);
    assert_eq!(txt("ab").compare(&txt("a")), Order::Greater);
    assert_eq!(txt("").compare(&txt("")), Order::Equal);
    assert_eq!(txt("\u{e9}").compare(&txt("z")), Order::Greater);
    assert_eq!(txt("\u{ffff}").compare(&txt("\u{10000}")), Order::Less);
    let short = Value::Sequence(vec![num(1)]);
    let long = Value::Sequence(vec![num(1), num(0)]);
    let high = Value::Sequence(vec![num(2)]);
    assert_eq!(short.compare(&long), Order::Less);
    assert_eq!(long.compare(&high), Order::Less);
    assert_eq!(short.compare(&high), Order::Less);
    assert_eq!(high.compare(&long), Order::Greater);
    let a = Value::TupleStruct(TupleStruct { name: "A", values: vec![num(9)] });
    let b = Value::TupleStruct(TupleStruct { name: "B", values: vec![] });
    assert_eq!(a.compare(&b), Order::Less);
    let v1 = Value::UnitVariant(UnitVariant { name: "E", variant: "A" });
    let v2 = Value::UnitVariant(UnitVariant { name: "E", variant: "B" });
    assert_eq!(v1.compare(&v2), Order::Less);
    assert_eq!(v2.compare(&v1), Order::Greater);
    let t1 = Value::TupleVariant(TupleVariant { name: "E", variant: "A", values: vec![num(2)] });
    let t2 = Value::TupleVariant(TupleVariant { name: "E", variant: "A", values: vec![num(3)] });
    assert_eq!(t1.compare(&t2), Order::Less);
    let mut f1 = FieldMap::new();
    f1.insert("a", num(1));
    let mut f2 = FieldMap::new();
    f2.insert("a", num(2));
    let mut f3 = FieldMap::new();
    f3.insert("b", num(0));
    let s1 = Value::NamedStruct(NamedStruct { name: "S", fields: f1 });
    let s2 = Value::NamedStruct(NamedStruct { name: "S", fields: f2 });
    let s3 = Value::NamedStruct(NamedStruct { name: "S", fields: f3 });
    assert_eq!(s1.compare(&s2), Order::Less);
    assert_eq!(s2.compare(&s3), Order::Less);
    assert_eq!(s1.compare(&s3), Order::Less);
    let mut m1 = ValueMap::new();
    m1.insert(num(1), num(5));
    let mut m2 = ValueMap::new();
    m2.insert(num(1), num(6));
    assert_eq!(Value::Mapping(m1).compare(&Value::Mapping(m2)), Order::Less);
}

#[test]
fn struct_fields_come_out_by_name() {
    let mut b = Serializer.serialize_struct("S", 3).unwrap();
    b.serialize_field("z", Ok(num(1))).unwrap();
    b.serialize_field("a", Ok(num(2))).unwrap();
    b.serialize_field("m", Ok(num(3))).unwrap();
    let value = b.end().unwrap();
    assert_eq!(value.render(), "S { a: 2, m: 3, z: 1 }");
    let s = value.as_named_struct().unwrap();
    assert_eq!(s.name, "S");
    let names: Vec<&str> = s.fields.entries().iter().map(|e| e.0).collect();
    assert_eq!(names, vec!["a", "m", "z"]);
    assert_eq!(s.fields.get("m"), Some(&num(3)));
    assert_eq!(s.fields.get("q"), None);

    let mut b = Serializer.serialize_struct_variant("E", 1, "V", 3).unwrap();
    b.serialize_field("z", Ok(num(1))).unwrap();
    b.serialize_field("a", Ok(num(2))).unwrap();
    b.serialize_field("m", Ok(num(3))).unwrap();
    b.serialize_field("a", Ok(num(4))).unwrap();
    let value = b.end().unwrap();
    assert_eq!(value.render(), "E::V { a: 4, m: 3, z: 1 }");
    assert!(value.is_named_variant());
    assert_eq!(value.as_named_variant().unwrap().fields.len(), 3);
}

#[test]
fn sequences_and_tuples_keep_the_order_of_the_calls() {
    let mut b = Serializer.serialize_seq(Some(3)).unwrap();
    b.serialize_element(Ok(num(3))).unwrap();
    b.serialize_element(Ok(num(1))).unwrap();
    b.serialize_element(Ok(num(2))).unwrap();
    let value = b.end().unwrap();
    assert_eq!(value, Value::Sequence(vec![num(3), num(1), num(2)]));
    assert_eq!(value.render(), "[3, 1, 2]");
    assert_eq!(value.as_seq().unwrap().len(), 3);

    let mut b = Serializer.serialize_tuple(2).unwrap();
    b.serialize_element(Ok(num(3))).unwrap();
    b.serialize_element(Ok(num(1))).unwrap();
    let value = b.end_tuple().unwrap();
    assert_eq!(value, Value::Tuple(vec![num(3), num(1)]));
    assert_eq!(value.render(), "(3, 1)");
    assert_eq!(value.as_tuple().unwrap().len(), 2);

    let mut b = Serializer.serialize_tuple_struct("T", 2).unwrap();
    b.serialize_field(Ok(num(3))).unwrap();
    b.serialize_field(Ok(num(1))).unwrap();
    let value = b.end().unwrap();
    assert_eq!(value.render(), "T(3, 1)");
    assert_eq!(value.as_tuple_struct().unwrap().values, vec![num(3), num(1)]);

    let mut b = Serializer.serialize_tuple_variant("E", 0, "V", 2).unwrap();
    b.serialize_field(Ok(num(3))).unwrap();
    b.serialize_field(Ok(num(1))).unwrap();
    let value = b.end().unwrap();
    assert_eq!(value.render(), "E::V(3, 1)");
    assert_eq!(value.as_tuple_variant().unwrap().variant, "V");
}

#[test]
fn maps_come_out_by_key_and_overwrite() {
    let mut b = Serializer.serialize_map(None).unwrap();
    b.serialize_key(Ok(num(2))).unwrap();
    b.serialize_value(Ok(txt("b"))).unwrap();
    b.serialize_key(Ok(num(1))).unwrap();
    b.serialize_value(Ok(txt("a"))).unwrap();
    let value = b.end().unwrap();
    assert_eq!(value.render(), "{1: \"a\", 2: \"b\"}");
    let map = value.as_map().unwrap();
    assert_eq!(map.len(), 2);
    assert_eq!(map.entries()[0], (num(1), txt("a")));
    assert_eq!(map.entries()[1], (num(2), txt("b")));
    assert_eq!(map.get(&num(2)), Some(&txt("b")));
    assert_eq!(map.get(&num(3)), None);

    let mut b = Serializer.serialize_map(Some(2)).unwrap();
    b.serialize_key(Ok(num(1))).unwrap();
    b.serialize_value(Ok(txt("a"))).unwrap();
    b.serialize_key(Ok(num(1))).unwrap();
    b.serialize_value(Ok(txt("c"))).unwrap();
    let value = b.end().unwrap();
    assert_eq!(value.render(), "{1: \"c\"}");
    assert_eq!(value.as_map().unwrap().len(), 1);
}

#[test]
fn a_map_put_in_any_order_is_the_same_map() {
    let mut a = ValueMap::new();
    assert!(a.is_empty());
    for k in [5, 3, 9, 1, 7] {
        a.insert(num(k), num(k * 10));
    }
    let mut b = ValueMap::new();
    for k in [1, 3, 5, 7, 9] {
        b.insert(num(k), num(k * 10));
    }
    assert_eq!(a, b);
    assert!(!a.is_empty());
    let keys: Vec<Value> = a.entries().iter().map(|e| num(e.0.as_i32().unwrap())).collect();
    assert_eq!(keys, vec![num(1), num(3), num(5), num(7), num(9)]);
    assert_eq!(Value::Mapping(a).compare(&Value::Mapping(b)), Order::Equal);
}

#[test]
fn a_value_without_a_key_is_an_error() {
    let mut b = Serializer.serialize_map(None).unwrap();
    assert!(!b.has_pending_key());
    let e = b.serialize_value(Ok(num(1))).unwrap_err();
    assert_eq!(e.kind(), ErrorKind::MissingKey);
    assert_eq!(e.message(), "a map was given a value before a key");
    b.serialize_key(Ok(num(1))).unwrap();
    assert!(b.has_pending_key());
    b.serialize_value(Ok(num(2))).unwrap();
    assert!(!b.has_pending_key());
    let e = b.serialize_value(Ok(num(3))).unwrap_err();
    assert_eq!(e.kind(), ErrorKind::MissingKey);
    assert_eq!(b.end().unwrap().render(), "{1: 2}");
}

#[test]
fn options_have_the_shape_of_named_structs() {
    assert_eq!(Serializer.serialize_none().unwrap().render(), "None");
    assert_eq!(Serializer.serialize_none().unwrap(), Value::UnitStruct(UnitStruct { name: "None" }));
    let some = Serializer.serialize_some(Ok(num(5))).unwrap();
    assert_eq!(some.render(), "Some(5)");
    assert_eq!(some, Value::TupleStruct(TupleStruct { name: "Some", values: vec![num(5)] }));
    assert_eq!(Value::from_option(None).render(), "None");
    assert!(Value::from_option(None).is_unit_struct());
    assert_eq!(Value::from_option(None).as_unit_struct().unwrap().name, "None");
    assert_eq!(Value::from_option(Some(num(5))).render(), "Some(5)");
    assert_eq!(Value::from_option(Some(num(5))), some);
}

#[test]
fn a_reported_failure_comes_back_unchanged() {
    let s = Serializer;
    let bad = || Err(Error::custom("bad field"));
    assert_eq!(Error::custom("bad field").to_string(), "bad field");
    assert_eq!(Error::custom("bad field").kind(), ErrorKind::Custom);
    assert_eq!(s.serialize_some(bad()).unwrap_err().message(), "bad field");
    assert_eq!(s.serialize_newtype_struct("N", bad()).unwrap_err().message(), "bad field");
    assert_eq!(s.serialize_newtype_variant("E", 0, "V", bad()).unwrap_err().message(), "bad field");
    let mut b = s.serialize_seq(None).unwrap();
    b.serialize_element(Ok(num(1))).unwrap();
    assert_eq!(b.serialize_element(bad()).unwrap_err().message(), "bad field");
    assert_eq!(b.end().unwrap(), Value::Sequence(vec![num(1)]));
    let mut b = s.serialize_tuple_struct("T", 1).unwrap();
    assert_eq!(b.serialize_field(bad()).unwrap_err().message(), "bad field");
    let mut b = s.serialize_tuple_variant("E", 0, "V", 1).unwrap();
    assert_eq!(b.serialize_field(bad()).unwrap_err().message(), "bad field");
    let mut b = s.serialize_struct("S", 1).unwrap();
    assert_eq!(b.serialize_field("x", bad()).unwrap_err().message(), "bad field");
    assert_eq!(b.end().unwrap().render(), "S");
    let mut b = s.serialize_struct_variant("E", 0, "V", 1).unwrap();
    assert_eq!(b.serialize_field("x", bad()).unwrap_err().message(), "bad field");
    let mut b = s.serialize_map(None).unwrap();
    assert_eq!(b.serialize_key(bad()).unwrap_err().message(), "bad field");
    assert!(!b.has_pending_key());
    b.serialize_key(Ok(num(1))).unwrap();
    assert_eq!(b.serialize_value(bad()).unwrap_err().message(), "bad field");
    assert!(!b.has_pending_key());
    assert_eq!(b.end().unwrap().render(), "{}");
}

#[test]
fn text_of_every_shape() {
    assert_eq!(Value::Unit.render(), "()");
    assert_eq!(Value::Bool(true).render(), "true");
    assert_eq!(Value::Bool(false).render(), "false");
    assert_eq!(Value::Char('a').render(), "'a'");
    assert_eq!(Value::Char('\n').render(), "'\\n'");
    assert_eq!(txt("hi").render(), "\"hi\"");
    assert_eq!(txt("a\"b").render(), "\"a\\\"b\"");
    assert_eq!(Value::Number(Number::U8(1)).render(), "1");
    assert_eq!(Value::Sequence(vec![]).render(), "[]");
    assert_eq!(Value::Sequence(vec![num(1)]).render(), "[1]");
    assert_eq!(Value::Mapping(ValueMap::new()).render(), "{}");
    assert_eq!(Value::Tuple(vec![]).render(), "");
    assert_eq!(Value::Tuple(vec![num(1)]).render(), "(1,)");
    assert_eq!(Value::Tuple(vec![num(1), num(2)]).render(), "(1, 2)");
    assert_eq!(Value::UnitStruct(UnitStruct { name: "U" }).render(), "U");
    assert_eq!(Value::TupleStruct(TupleStruct { name: "T", values: vec![] }).render(), "T");
    assert_eq!(Value::TupleStruct(TupleStruct { name: "T", values: vec![num(1)] }).render(), "T(1)");
    assert_eq!(Value::TupleStruct(TupleStruct { name: "", values: vec![num(1)] }).render(), "(1,)");
    assert_eq!(
        Value::NamedStruct(NamedStruct { name: "S", fields: FieldMap::new() }).render(),
        "S"
    );
    assert_eq!(Value::UnitVariant(UnitVariant { name: "E", variant: "V" }).render(), "E::V");
    assert_eq!(
        Value::TupleVariant(TupleVariant { name: "E", variant: "V", values: vec![num(1)] }).render(),
        "E::V(1)"
    );
    assert_eq!(
        Value::TupleVariant(TupleVariant { name: "E", variant: "V", values: vec![] }).render(),
        "E::V"
    );
    let mut fields = FieldMap::new();
    fields.insert("b", Value::Sequence(vec![num(1), num(2)]));
    fields.insert("a", Value::Unit);
    assert_eq!(
        Value::NamedVariant(NamedVariant { name: "E", variant: "V", fields }).render(),
        "E::V { a: (), b: [1, 2] }"
    );
}

#[test]
fn plain_values_are_lifted() {
    assert_eq!(Value::from(()), Value::Unit);
    assert_eq!(Value::from(true), Value::Bool(true));
    assert_eq!(Value::from('c'), Value::Char('c'));
    assert_eq!(Value::from(1u8), Value::Number(Number::U8(1)));
    assert_eq!(Value::from(1u16), Value::Number(Number::U16(1)));
    assert_eq!(Value::from(1u32), Value::Number(Number::U32(1)));
    assert_eq!(Value::from(1u64), Value::Number(Number::U64(1)));
    assert_eq!(Value::from(1u128), Value::Number(Number::U128(1)));
    assert_eq!(Value::from(1i8), Value::Number(Number::I8(1)));
    assert_eq!(Value::from(1i16), Value::Number(Number::I16(1)));
    assert_eq!(Value::from(1i32), Value::Number(Number::I32(1)));
    assert_eq!(Value::from(1i64), Value::Number(Number::I64(1)));
    assert_eq!(Value::from(1i128), Value::Number(Number::I128(1)));
    assert_eq!(Value::from(Number::U8(1)), Value::Number(Number::U8(1)));
    assert_eq!(
        Value::from(F32::new(1.5f32.to_bits())),
        Value::Number(Number::F32(F32::new(1.5f32.to_bits())))
    );
    assert_eq!(Value::from(String::from("s")), Value::String(String::from("s")));
    assert_eq!(Value::from_text("s"), Value::String(String::from("s")));
    assert_eq!(Value::from(vec![num(1)]), Value::Sequence(vec![num(1)]));
    assert_eq!(
        Value::from_bytes(b"ab"),
        Value::Sequence(vec![Value::Number(Number::U8(97)), Value::Number(Number::U8(98))])
    );
    assert_eq!(Value::from_bytes(b""), Value::Sequence(vec![]));
}

#[test]
fn questions_about_another_shape_are_answered_with_none() {
    let values = one_of_each();
    for (i, v) in values.iter().enumerate() {
        let answers = [
            v.is_unit(),
            v.is_bool(),
            v.is_char(),
            v.is_number(),
            v.is_string(),
            v.is_seq(),
            v.is_map(),
            v.is_tuple(),
            v.is_unit_struct(),
            v.is_tuple_struct(),
            v.is_named_struct(),
            v.is_unit_variant(),
            v.is_tuple_variant(),
            v.is_named_variant(),
        ];
        let taken = [
            v.as_unit().is_some(),
            v.as_bool().is_some(),
            v.as_char().is_some(),
            v.as_number().is_some(),
            v.as_string().is_some(),
            v.as_seq().is_some(),
            v.as_map().is_some(),
            v.as_tuple().is_some(),
            v.as_unit_struct().is_some(),
            v.as_tuple_struct().is_some(),
            v.as_named_struct().is_some(),
            v.as_unit_variant().is_some(),
            v.as_tuple_variant().is_some(),
            v.as_named_variant().is_some(),
        ];
        for j in 0..answers.len() {
            assert_eq!(answers[j], i == j);
            assert_eq!(taken[j], i == j);
        }
    }
    let n = Value::Number(Number::U8(1));
    assert_eq!(n.as_number(), Some(Number::U8(1)));
    assert!(n.is_u8());
    assert!(!n.is_u16() && !n.is_u32() && !n.is_u64() && !n.is_u128());
    assert!(!n.is_i8() && !n.is_i16() && !n.is_i32() && !n.is_i64() && !n.is_i128());
    assert!(!n.is_f32() && !n.is_f64());
    assert_eq!(n.as_u16(), None);
    assert_eq!(n.as_u64(), None);
    assert_eq!(n.as_u128(), None);
    assert_eq!(n.as_i8(), None);
    assert_eq!(n.as_i16(), None);
    assert_eq!(n.as_i32(), None);
    assert_eq!(n.as_i64(), None);
    assert_eq!(n.as_i128(), None);
    assert_eq!(n.as_f32(), None);
    assert_eq!(n.as_f64(), None);
    assert_eq!(Value::Unit.as_u8(), None);
    assert_eq!(Value::Number(Number::I128(-3)).as_i128(), Some(-3));
    assert_eq!(Value::Number(Number::U64(3)).as_u64(), Some(3));
    assert_eq!(Value::Number(Number::I16(3)).as_i16(), Some(3));
}

#[test]
fn a_copy_is_equal_to_what_it_was_made_from() {
    for v in one_of_each() {
        let copy = v.clone();
        assert_eq!(copy, v);
        assert_eq!(copy.compare(&v), Order::Equal);
        assert_eq!(copy.render(), v.render());
        assert_eq!(hash_of(&copy), hash_of(&v));
    }
    let mut map = ValueMap::new();
    map.insert(num(2), txt("b"));
    map.insert(num(1), txt("a"));
    let copy = map.clone();
    assert_eq!(copy, map);
    assert_eq!(copy.entries().len(), 2);
    let mut fields = FieldMap::new();
    fields.insert("b", num(2));
    fields.insert("a", num(1));
    assert_eq!(fields.clone(), fields);
    assert!(!fields.is_empty());
    assert_eq!(fields.entries()[0], ("a", num(1)));
}

#[test]
fn the_operators_follow_the_order() {
    let values = one_of_each();
    for (i, x) in values.iter().enumerate() {
        for (j, y) in values.iter().enumerate() {
            assert_eq!(x < y, i < j);
            assert_eq!(x <= y, i <= j);
            assert_eq!(x > y, i > j);
            assert_eq!(x >= y, i >= j);
        }
    }
    assert!(Number::U8(200) < Number::U16(0));
    assert!(Number::I32(-1) < Number::I32(0));
    assert!(F32::new((-0.0f32).to_bits()) < F32::new(0.0f32.to_bits()));
    assert!(F32::new(f32::INFINITY.to_bits()) < F32::new(f32::NAN.to_bits()));
    assert!(F32::new(f32::NAN.to_bits()) >= F32::new(f32::NAN.to_bits()));
    assert!(!(F32::new(f32::NAN.to_bits()) > F32::new(f32::NAN.to_bits())));
}

#[test]
fn many_entries_find_their_places() {
    let mut map = ValueMap::new();
    let mut put = std::collections::BTreeSet::new();
    let mut k: i32 = 7;
    for _ in 0..300 {
        k = (k * 75 + 74) % 257;
        put.insert(k);
        map.insert(num(k), num(0));
        map.insert(num(k), num(k * 2));
    }
    assert!(put.len() > 100);
    assert_eq!(map.len(), put.len());
    let keys: Vec<i32> = map.entries().iter().map(|e| e.0.as_i32().unwrap()).collect();
    let sorted: Vec<i32> = put.iter().copied().collect();
    assert_eq!(keys, sorted);
    for e in map.entries() {
        assert_eq!(e.1, num(e.0.as_i32().unwrap() * 2));
        assert_eq!(map.get(&e.0), Some(&e.1));
    }
    assert_eq!(map.get(&num(1000)), None);
    assert_eq!(map.get(&num(-1)), None);

    let names = ["m", "b", "zz", "a", "z", "ab", "", "b", "y", "c"];
    let mut fields = FieldMap::new();
    for (i, n) in names.iter().enumerate() {
        fields.insert(n, num(i as i32));
    }
    let got: Vec<&str> = fields.entries().iter().map(|e| e.0).collect();
    assert_eq!(got, vec!["", "a", "ab", "b", "c", "m", "y", "z", "zz"]);
    assert_eq!(fields.get("b"), Some(&num(7)));
    assert_eq!(fields.get("zz"), Some(&num(2)));
    assert_eq!(fields.get("zzz"), None);
    assert_eq!(fields.len(), 9);
}
