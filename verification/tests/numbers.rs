use serde_value::text::{signed_text, unsigned_text};
use serde_value::{Number, Order, Value, F32, F64};
use std::collections::hash_map::DefaultHasher;
use std::hash::{Hash, Hasher};

fn hash_of<T: Hash>(value: &T) -> u64 {
    let mut hasher = DefaultHasher::new();
    value.hash(&mut hasher);
    hasher.finish()
}

fn single(x: f32) -> F32 {
    F32::new(x.to_bits())
}

fn double(x: f64) -> F64 {
    F64::new(x.to_bits())
}

#[test]
fn kinds_are_kept_apart() {
    assert_ne!(Number::U8(1), Number::U32(1));
    assert_ne!(Value::Number(Number::U8(1)), Value::Number(Number::U32(1)));
    assert_ne!(Number::I8(1), Number::U8(1));
    assert_ne!(Number::U8(1).compare(&Number::U32(1)), Order::Equal);
    assert_eq!(Number::U8(1).compare(&Number::U8(1)), Order::Equal);
}

#[test]
fn every_kind_answers_for_itself_only() {
    let all = [
        Number::U8(1),
        Number::U16(1),
        Number::U32(1),
        Number::U64(1),
        Number::U128(1),
        Number::I8(1),
        Number::I16(1),
        Number::I32(1),
        Number::I64(1),
        Number::I128(1),
        Number::F32(single(1.0)),
        Number::F64(double(1.0)),
    ];
    for (i, n) in all.iter().enumerate() {
        let answers = [
            n.is_u8(),
            n.is_u16(),
            n.is_u32(),
            n.is_u64(),
            n.is_u128(),
            n.is_i8(),
            n.is_i16(),
            n.is_i32(),
            n.is_i64(),
            n.is_i128(),
            n.is_f32(),
            n.is_f64(),
        ];
        for (j, a) in answers.iter().enumerate() {
            assert_eq!(*a, i == j);
        }
        for (j, m) in all.iter().enumerate() {
            let expected = if i < j {
                Order::Less
            } else if i == j {
                Order::Equal
            } else {
                Order::Greater
            };
            assert_eq!(n.compare(m), expected);
        }
    }
    assert_eq!(Number::U8(7).as_u8(), Some(7));
    assert_eq!(Number::U8(7).as_u16(), None);
    assert_eq!(Number::I64(-7).as_i64(), Some(-7));
    assert_eq!(Number::I128(i128::MIN).as_i128(), Some(i128::MIN));
    assert_eq!(Number::U128(u128::MAX).as_u128(), Some(u128::MAX));
    assert_eq!(Number::F32(single(1.5)).as_f32(), Some(1.5f32.to_bits()));
    assert_eq!(Number::F64(double(-2.5)).as_f64(), Some((-2.5f64).to_bits()));
    assert_eq!(Number::F64(double(-2.5)).as_f32(), None);
}

#[test]
fn same_kind_follows_the_integers() {
    assert_eq!(Number::I32(-5).compare(&Number::I32(3)), Order::Less);
    assert_eq!(Number::I32(3).compare(&Number::I32(-5)), Order::Greater);
    assert_eq!(Number::U64(10).compare(&Number::U64(9)), Order::Greater);
    assert_eq!(Number::I128(i128::MIN).compare(&Number::I128(i128::MAX)), Order::Less);
    assert_eq!(Number::U128(u128::MAX).compare(&Number::U128(0)), Order::Greater);
}

#[test]
fn other_kinds_follow_the_kind() {
    assert_eq!(Number::U8(200).compare(&Number::U16(0)), Order::Less);
    assert_eq!(Number::I8(-1).compare(&Number::U128(u128::MAX)), Order::Greater);
    assert_eq!(Number::I128(0).compare(&Number::F32(single(-1.0))), Order::Less);
}

#[test]
fn single_total_order_boundaries() {
    let chain = [
        single(-f32::NAN),
        single(f32::NEG_INFINITY),
        single(-1.0),
        single(-0.0),
        single(0.0),
        single(1.0),
        single(f32::INFINITY),
        single(f32::NAN),
    ];
    for i in 0..chain.len() {
        for j in 0..chain.len() {
            let expected = if i < j {
                Order::Less
            } else if i == j {
                Order::Equal
            } else {
                Order::Greater
            };
            assert_eq!(chain[i].compare(&chain[j]), expected);
            let wanted = match f32::from_bits(chain[i].get()).total_cmp(&f32::from_bits(chain[j].get())) {
                std::cmp::Ordering::Less => Order::Less,
                std::cmp::Ordering::Equal => Order::Equal,
                std::cmp::Ordering::Greater => Order::Greater,
            };
            assert_eq!(chain[i].compare(&chain[j]), wanted);
        }
    }
    assert_eq!(single(f32::NAN), single(f32::NAN));
    assert_eq!(single(f32::NAN).compare(&single(f32::NAN)), Order::Equal);
}

#[test]
fn double_total_order_boundaries() {
    let chain = [
        double(-f64::NAN),
        double(f64::NEG_INFINITY),
        double(-1.0),
        double(-0.0),
        double(0.0),
        double(1.0),
        double(f64::INFINITY),
        double(f64::NAN),
    ];
    for i in 0..chain.len() {
        for j in 0..chain.len() {
            let expected = if i < j {
                Order::Less
            } else if i == j {
                Order::Equal
            } else {
                Order::Greater
            };
            assert_eq!(chain[i].compare(&chain[j]), expected);
        }
    }
    assert_eq!(double(f64::NAN), double(f64::NAN));
}

#[test]
fn nans_of_one_sign_are_one_value() {
    let quiet = F32::new(0x7fc0_0000);
    let other = F32::new(0x7f80_0001);
    let third = F32::new(0x7fff_ffff);
    assert_eq!(quiet, other);
    assert_eq!(quiet, third);
    assert_eq!(other.get(), 0x7fc0_0000);
    assert_eq!(quiet.compare(&third), Order::Equal);
    assert_eq!(hash_of(&quiet), hash_of(&third));
    let low = F32::new(0xff80_0001);
    let low_quiet = F32::new(0xffc0_0000);
    assert_eq!(low, low_quiet);
    assert_eq!(low.get(), 0xffc0_0000);
    assert_ne!(low, quiet);
    assert_eq!(low.compare(&quiet), Order::Less);
    let wide = F64::new(0x7ff0_0000_0000_0001);
    assert_eq!(wide.get(), 0x7ff8_0000_0000_0000);
    assert_eq!(F64::new(0xfff0_0000_0000_0001).get(), 0xfff8_0000_0000_0000);
    assert_eq!(F64::new(0x7ff0_0000_0000_0000).get(), 0x7ff0_0000_0000_0000);
    assert_eq!(F32::new(0x7f80_0000).get(), 0x7f80_0000);
    assert_eq!(F32::new(0xff80_0000).get(), 0xff80_0000);
}

#[test]
fn signed_zeros_differ() {
    assert_ne!(single(0.0), single(-0.0));
    assert_eq!(single(-0.0).compare(&single(0.0)), Order::Less);
    assert_ne!(double(0.0), double(-0.0));
}

#[test]
fn finite_values_follow_their_size() {
    let values = [-1.0e30f32, -2.5, -1.0e-30, 1.0e-30, 2.5, 1.0e30];
    for i in 0..values.len() {
        for j in 0..values.len() {
            let expected = if i < j {
                Order::Less
            } else if i == j {
                Order::Equal
            } else {
                Order::Greater
            };
            assert_eq!(single(values[i]).compare(&single(values[j])), expected);
            assert_eq!(double(values[i] as f64).compare(&double(values[j] as f64)), expected);
        }
    }
}

#[test]
fn default_number_is_a_zero_of_32_bits() {
    assert_eq!(Number::default(), Number::I32(0));
}

#[test]
fn numbers_from_plain_integers() {
    assert_eq!(Number::from(1u8), Number::U8(1));
    assert_eq!(Number::from(1u16), Number::U16(1));
    assert_eq!(Number::from(1u32), Number::U32(1));
    assert_eq!(Number::from(1u64), Number::U64(1));
    assert_eq!(Number::from(1u128), Number::U128(1));
    assert_eq!(Number::from(-1i8), Number::I8(-1));
    assert_eq!(Number::from(-1i16), Number::I16(-1));
    assert_eq!(Number::from(-1i32), Number::I32(-1));
    assert_eq!(Number::from(-1i64), Number::I64(-1));
    assert_eq!(Number::from(-1i128), Number::I128(-1));
    assert_eq!(Number::from(single(1.0)), Number::F32(single(1.0)));
    assert_eq!(Number::from(double(1.0)), Number::F64(double(1.0)));
}

#[test]
fn decimal_text_is_exact() {
    assert_eq!(unsigned_text(0), "0");
    assert_eq!(unsigned_text(7), "7");
    assert_eq!(unsigned_text(10), "10");
    assert_eq!(unsigned_text(1234567890), "1234567890");
    assert_eq!(unsigned_text(u128::MAX), "340282366920938463463374607431768211455");
    assert_eq!(signed_text(0), "0");
    assert_eq!(signed_text(-1), "-1");
    assert_eq!(signed_text(-120), "-120");
    assert_eq!(signed_text(i128::MAX), "170141183460469231731687303715884105727");
    assert_eq!(signed_text(i128::MIN), "-170141183460469231731687303715884105728");
}

#[test]
fn number_text() {
    assert_eq!(Number::U8(255).render(), "255");
    assert_eq!(Number::I8(-128).render(), "-128");
    assert_eq!(Number::I32(5).render(), "5");
    assert_eq!(Number::U64(u64::MAX).render(), "18446744073709551615");
    assert_eq!(Number::I64(i64::MIN).render(), "-9223372036854775808");
    assert_eq!(Number::F32(single(1.0)).render(), "1065353216f32bits");
    assert_eq!(Number::F64(double(1.0)).render(), "4607182418800017408f64bits");
}

#[test]
fn equal_numbers_hash_alike() {
    assert_eq!(hash_of(&Number::U8(1)), hash_of(&Number::U8(1)));
    assert_eq!(hash_of(&single(f32::NAN)), hash_of(&F32::new(0x7fc0_0001)));
    assert_eq!(hash_of(&Number::F64(double(0.5))), hash_of(&Number::F64(double(0.5))));
}
