//! Lifting plain values into the value model.
use crate::number::{Number, F32, F64};
use crate::value::{TupleStruct, UnitStruct, Value};
use vstd::prelude::*;
use vstd::std_specs::convert::FromSpecImpl;
use vstd::string::*;

verus! {

/// The value that stands for a byte: a number of the unsigned 8-bit kind.
pub open spec fn byte_value(b: u8) -> Value {
    Value::Number(Number::U8(b))
}

impl Value {
    /// Lifts a string slice to a string value with the same characters.
    pub fn from_text(value: &str) -> (r: Value)
        ensures
            r matches Value::String(s) && s@ == value@,
    {
        Value::String(String::from_str(value))
    }

    /// Lifts a run of bytes to a sequence of unsigned 8-bit numbers, in
    /// order.
    pub fn from_bytes(value: &[u8]) -> (r: Value)
        ensures
            r matches Value::Sequence(items) && items@ == value@.map_values(
                |b: u8| byte_value(b),
            ),
    {
        let mut items: Vec<Value> = Vec::new();
        let mut i: usize = 0;
        while i < value.len()
            invariant
                i <= value@.len(),
                items@ == value@.subrange(0, i as int).map_values(|b: u8| byte_value(b)),
            decreases value@.len() - i,
        {
            items.push(Value::Number(Number::U8(value[i])));
            assert(items@ =~= value@.subrange(0, i + 1).map_values(|b: u8| byte_value(b)));
            i += 1;
        }
        assert(value@.subrange(0, i as int) =~= value@);
        Value::Sequence(items)
    }

    /// Lifts an optional value: an absent one to the unit struct `None`, a
    /// present one to the tuple struct `Some` around it. A struct of the
    /// producer with one of these names and shapes gives the same value.
    pub fn from_option(value: Option<Value>) -> (r: Value)
        ensures
            value is None ==> (r matches Value::UnitStruct(s) && s.name@ == "None"@),
            value matches Some(inner) ==> (r matches Value::TupleStruct(s) && s.name@ == "Some"@
                && s.values@ == seq![inner]),
    {
        match value {
            Some(inner) => {
                let mut values: Vec<Value> = Vec::new();
                values.push(inner);
                assert(values@ =~= seq![inner]);
                Value::TupleStruct(TupleStruct { name: "Some", values })
            },
            None => Value::UnitStruct(UnitStruct { name: "None" }),
        }
    }
}

impl From<()> for Value {
    fn from(value: ()) -> (r: Value) {
        Value::Unit
    }
}

impl FromSpecImpl<()> for Value {
    open spec fn obeys_from_spec() -> bool {
        true
    }

    open spec fn from_spec(value: ()) -> Value {
        Value::Unit
    }
}

impl From<bool> for Value {
    fn from(value: bool) -> (r: Value) {
        Value::Bool(value)
    }
}

impl FromSpecImpl<bool> for Value {
    open spec fn obeys_from_spec() -> bool {
        true
    }

    open spec fn from_spec(value: bool) -> Value {
        Value::Bool(value)
    }
}

impl From<char> for Value {
    fn from(value: char) -> (r: Value) {
        Value::Char(value)
    }
}

impl FromSpecImpl<char> for Value {
    open spec fn obeys_from_spec() -> bool {
        true
    }

    open spec fn from_spec(value: char) -> Value {
        Value::Char(value)
    }
}

impl From<Number> for Value {
    fn from(value: Number) -> (r: Value) {
        Value::Number(value)
    }
}

impl FromSpecImpl<Number> for Value {
    open spec fn obeys_from_spec() -> bool {
        true
    }

    open spec fn from_spec(value: Number) -> Value {
        Value::Number(value)
    }
}

impl From<String> for Value {
    fn from(value: String) -> (r: Value) {
        Value::String(value)
    }
}

impl FromSpecImpl<String> for Value {
    open spec fn obeys_from_spec() -> bool {
        true
    }

    open spec fn from_spec(value: String) -> Value {
        Value::String(value)
    }
}

impl From<Vec<Value>> for Value {
    fn from(value: Vec<Value>) -> (r: Value) {
        Value::Sequence(value)
    }
}

impl FromSpecImpl<Vec<Value>> for Value {
    open spec fn obeys_from_spec() -> bool {
        true
    }

    open spec fn from_spec(value: Vec<Value>) -> Value {
        Value::Sequence(value)
    }
}

impl From<F32> for Value {
    fn from(value: F32) -> (r: Value) {
        Value::Number(Number::F32(value))
    }
}

impl FromSpecImpl<F32> for Value {
    open spec fn obeys_from_spec() -> bool {
        true
    }

    open spec fn from_spec(value: F32) -> Value {
        Value::Number(Number::F32(value))
    }
}

impl From<F64> for Value {
    fn from(value: F64) -> (r: Value) {
        Value::Number(Number::F64(value))
    }
}

impl FromSpecImpl<F64> for Value {
    open spec fn obeys_from_spec() -> bool {
        true
    }

    open spec fn from_spec(value: F64) -> Value {
        Value::Number(Number::F64(value))
    }
}

impl From<F32> for Number {
    fn from(value: F32) -> (r: Number) {
        Number::F32(value)
    }
}

impl FromSpecImpl<F32> for Number {
    open spec fn obeys_from_spec() -> bool {
        true
    }

    open spec fn from_spec(value: F32) -> Number {
        Number::F32(value)
    }
}

impl From<F64> for Number {
    fn from(value: F64) -> (r: Number) {
        Number::F64(value)
    }
}

impl FromSpecImpl<F64> for Number {
    open spec fn obeys_from_spec() -> bool {
        true
    }

    open spec fn from_spec(value: F64) -> Number {
        Number::F64(value)
    }
}

impl From<u8> for Number {
    fn from(value: u8) -> (r: Number) {
        Number::U8(value)
    }
}

impl FromSpecImpl<u8> for Number {
    open spec fn obeys_from_spec() -> bool {
        true
    }

    open spec fn from_spec(value: u8) -> Number {
        Number::U8(value)
    }
}

impl From<u8> for Value {
    fn from(value: u8) -> (r: Value) {
        Value::Number(Number::U8(value))
    }
}

impl FromSpecImpl<u8> for Value {
    open spec fn obeys_from_spec() -> bool {
        true
    }

    open spec fn from_spec(value: u8) -> Value {
        Value::Number(Number::U8(value))
    }
}

impl From<u16> for Number {
    fn from(value: u16) -> (r: Number) {
        Number::U16(value)
    }
}

impl FromSpecImpl<u16> for Number {
    open spec fn obeys_from_spec() -> bool {
        true
    }

    open spec fn from_spec(value: u16) -> Number {
        Number::U16(value)
    }
}

impl From<u16> for Value {
    fn from(value: u16) -> (r: Value) {
        Value::Number(Number::U16(value))
    }
}

impl FromSpecImpl<u16> for Value {
    open spec fn obeys_from_spec() -> bool {
        true
    }

    open spec fn from_spec(value: u16) -> Value {
        Value::Number(Number::U16(value))
    }
}

impl From<u32> for Number {
    fn from(value: u32) -> (r: Number) {
        Number::U32(value)
    }
}

impl FromSpecImpl<u32> for Number {
    open spec fn obeys_from_spec() -> bool {
        true
    }

    open spec fn from_spec(value: u32) -> Number {
        Number::U32(value)
    }
}

impl From<u32> for Value {
    fn from(value: u32) -> (r: Value) {
        Value::Number(Number::U32(value))
    }
}

impl FromSpecImpl<u32> for Value {
    open spec fn obeys_from_spec() -> bool {
        true
    }

    open spec fn from_spec(value: u32) -> Value {
        Value::Number(Number::U32(value))
    }
}

impl From<u64> for Number {
    fn from(value: u64) -> (r: Number) {
        Number::U64(value)
    }
}

impl FromSpecImpl<u64> for Number {
    open spec fn obeys_from_spec() -> bool {
        true
    }

    open spec fn from_spec(value: u64) -> Number {
        Number::U64(value)
    }
}

impl From<u64> for Value {
    fn from(value: u64) -> (r: Value) {
        Value::Number(Number::U64(value))
    }
}

impl FromSpecImpl<u64> for Value {
    open spec fn obeys_from_spec() -> bool {
        true
    }

    open spec fn from_spec(value: u64) -> Value {
        Value::Number(Number::U64(value))
    }
}

impl From<u128> for Number {
    fn from(value: u128) -> (r: Number) {
        Number::U128(value)
    }
}

impl FromSpecImpl<u128> for Number {
    open spec fn obeys_from_spec() -> bool {
        true
    }

    open spec fn from_spec(value: u128) -> Number {
        Number::U128(value)
    }
}

impl From<u128> for Value {
    fn from(value: u128) -> (r: Value) {
        Value::Number(Number::U128(value))
    }
}

impl FromSpecImpl<u128> for Value {
    open spec fn obeys_from_spec() -> bool {
        true
    }

    open spec fn from_spec(value: u128) -> Value {
        Value::Number(Number::U128(value))
    }
}

impl From<i8> for Number {
    fn from(value: i8) -> (r: Number) {
        Number::I8(value)
    }
}

impl FromSpecImpl<i8> for Number {
    open spec fn obeys_from_spec() -> bool {
        true
    }

    open spec fn from_spec(value: i8) -> Number {
        Number::I8(value)
    }
}

impl From<i8> for Value {
    fn from(value: i8) -> (r: Value) {
        Value::Number(Number::I8(value))
    }
}

impl FromSpecImpl<i8> for Value {
    open spec fn obeys_from_spec() -> bool {
        true
    }

    open spec fn from_spec(value: i8) -> Value {
        Value::Number(Number::I8(value))
    }
}

impl From<i16> for Number {
    fn from(value: i16) -> (r: Number) {
        Number::I16(value)
    }
}

impl FromSpecImpl<i16> for Number {
    open spec fn obeys_from_spec() -> bool {
        true
    }

    open spec fn from_spec(value: i16) -> Number {
        Number::I16(value)
    }
}

impl From<i16> for Value {
    fn from(value: i16) -> (r: Value) {
        Value::Number(Number::I16(value))
    }
}

impl FromSpecImpl<i16> for Value {
    open spec fn obeys_from_spec() -> bool {
        true
    }

    open spec fn from_spec(value: i16) -> Value {
        Value::Number(Number::I16(value))
    }
}

impl From<i32> for Number {
    fn from(value: i32) -> (r: Number) {
        Number::I32(value)
    }
}

impl FromSpecImpl<i32> for Number {
    open spec fn obeys_from_spec() -> bool {
        true
    }

    open spec fn from_spec(value: i32) -> Number {
        Number::I32(value)
    }
}

impl From<i32> for Value {
    fn from(value: i32) -> (r: Value) {
        Value::Number(Number::I32(value))
    }
}

impl FromSpecImpl<i32> for Value {
    open spec fn obeys_from_spec() -> bool {
        true
    }

    open spec fn from_spec(value: i32) -> Value {
        Value::Number(Number::I32(value))
    }
}

impl From<i64> for Number {
    fn from(value: i64) -> (r: Number) {
        Number::I64(value)
    }
}

impl FromSpecImpl<i64> for Number {
    open spec fn obeys_from_spec() -> bool {
        true
    }

    open spec fn from_spec(value: i64) -> Number {
        Number::I64(value)
    }
}

impl From<i64> for Value {
    fn from(value: i64) -> (r: Value) {
        Value::Number(Number::I64(value))
    }
}

impl FromSpecImpl<i64> for Value {
    open spec fn obeys_from_spec() -> bool {
        true
    }

    open spec fn from_spec(value: i64) -> Value {
        Value::Number(Number::I64(value))
    }
}

impl From<i128> for Number {
    fn from(value: i128) -> (r: Number) {
        Number::I128(value)
    }
}

impl FromSpecImpl<i128> for Number {
    open spec fn obeys_from_spec() -> bool {
        true
    }

    open spec fn from_spec(value: i128) -> Number {
        Number::I128(value)
    }
}

impl From<i128> for Value {
    fn from(value: i128) -> (r: Value) {
        Value::Number(Number::I128(value))
    }
}

impl FromSpecImpl<i128> for Value {
    open spec fn obeys_from_spec() -> bool {
        true
    }

    open spec fn from_spec(value: i128) -> Value {
        Value::Number(Number::I128(value))
    }
}

} // verus!
