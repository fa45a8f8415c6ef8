//! Asking a value for its shape, and taking out what it holds. Every
//! question has an answer for every value: where the shape is another one,
//! the answer is `false` or `None`.
use crate::number::Number;
use crate::value::{
    NamedStruct, NamedVariant, TupleStruct, TupleVariant, UnitStruct, UnitVariant, Value,
    ValueMap,
};
use vstd::prelude::*;

verus! {

impl Value {
    #[inline]
    pub fn is_unit(&self) -> (r: bool)
        ensures
            r == (*self is Unit),
    {
        matches!(self, Value::Unit)
    }

    #[inline]
    pub fn as_unit(&self) -> (r: Option<()>)
        ensures
            r is Some == (*self is Unit),
    {
        match self {
            Value::Unit => Some(()),
            _ => None,
        }
    }

    #[inline]
    pub fn is_bool(&self) -> (r: bool)
        ensures
            r == (*self is Bool),
    {
        matches!(self, Value::Bool(_))
    }

    #[inline]
    pub fn as_bool(&self) -> (r: Option<bool>)
        ensures
            r == (match *self {
                Value::Bool(v) => Some(v),
                _ => None,
            }),
    {
        match self {
            Value::Bool(v) => Some(*v),
            _ => None,
        }
    }

    #[inline]
    pub fn is_char(&self) -> (r: bool)
        ensures
            r == (*self is Char),
    {
        matches!(self, Value::Char(_))
    }

    #[inline]
    pub fn as_char(&self) -> (r: Option<char>)
        ensures
            r == (match *self {
                Value::Char(v) => Some(v),
                _ => None,
            }),
    {
        match self {
            Value::Char(v) => Some(*v),
            _ => None,
        }
    }

    #[inline]
    pub fn is_number(&self) -> (r: bool)
        ensures
            r == (*self is Number),
    {
        matches!(self, Value::Number(_))
    }

    #[inline]
    pub fn as_number(&self) -> (r: Option<Number>)
        ensures
            r == (match *self {
                Value::Number(v) => Some(v),
                _ => None,
            }),
    {
        match self {
            Value::Number(v) => Some(*v),
            _ => None,
        }
    }

    #[inline]
    pub fn is_u8(&self) -> (r: bool)
        ensures
            r == (*self matches Value::Number(Number::U8(_))),
    {
        matches!(self, Value::Number(Number::U8(_)))
    }

    #[inline]
    pub fn as_u8(&self) -> (r: Option<u8>)
        ensures
            r == (match *self {
                Value::Number(Number::U8(v)) => Some(v),
                _ => None,
            }),
    {
        match self {
            Value::Number(Number::U8(v)) => Some(*v),
            _ => None,
        }
    }

    #[inline]
    pub fn is_u16(&self) -> (r: bool)
        ensures
            r == (*self matches Value::Number(Number::U16(_))),
    {
        matches!(self, Value::Number(Number::U16(_)))
    }

    #[inline]
    pub fn as_u16(&self) -> (r: Option<u16>)
        ensures
            r == (match *self {
                Value::Number(Number::U16(v)) => Some(v),
                _ => None,
            }),
    {
        match self {
            Value::Number(Number::U16(v)) => Some(*v),
            _ => None,
        }
    }

    #[inline]
    pub fn is_u32(&self) -> (r: bool)
        ensures
            r == (*self matches Value::Number(Number::U32(_))),
    {
        matches!(self, Value::Number(Number::U32(_)))
    }

    #[inline]
    pub fn as_u32(&self) -> (r: Option<u32>)
        ensures
            r == (match *self {
                Value::Number(Number::U32(v)) => Some(v),
                _ => None,
            }),
    {
        match self {
            Value::Number(Number::U32(v)) => Some(*v),
            _ => None,
        }
    }

    #[inline]
    pub fn is_u64(&self) -> (r: bool)
        ensures
            r == (*self matches Value::Number(Number::U64(_))),
    {
        matches!(self, Value::Number(Number::U64(_)))
    }

    #[inline]
    pub fn as_u64(&self) -> (r: Option<u64>)
        ensures
            r == (match *self {
                Value::Number(Number::U64(v)) => Some(v),
                _ => None,
            }),
    {
        match self {
            Value::Number(Number::U64(v)) => Some(*v),
            _ => None,
        }
    }

    #[inline]
    pub fn is_u128(&self) -> (r: bool)
        ensures
            r == (*self matches Value::Number(Number::U128(_))),
    {
        matches!(self, Value::Number(Number::U128(_)))
    }

    #[inline]
    pub fn as_u128(&self) -> (r: Option<u128>)
        ensures
            r == (match *self {
                Value::Number(Number::U128(v)) => Some(v),
                _ => None,
            }),
    {
        match self {
            Value::Number(Number::U128(v)) => Some(*v),
            _ => None,
        }
    }

    #[inline]
    pub fn is_i8(&self) -> (r: bool)
        ensures
            r == (*self matches Value::Number(Number::I8(_))),
    {
        matches!(self, Value::Number(Number::I8(_)))
    }

    #[inline]
    pub fn as_i8(&self) -> (r: Option<i8>)
        ensures
            r == (match *self {
                Value::Number(Number::I8(v)) => Some(v),
                _ => None,
            }),
    {
        match self {
            Value::Number(Number::I8(v)) => Some(*v),
            _ => None,
        }
    }

    #[inline]
    pub fn is_i16(&self) -> (r: bool)
        ensures
            r == (*self matches Value::Number(Number::I16(_))),
    {
        matches!(self, Value::Number(Number::I16(_)))
    }

    #[inline]
    pub fn as_i16(&self) -> (r: Option<i16>)
        ensures
            r == (match *self {
                Value::Number(Number::I16(v)) => Some(v),
                _ => None,
            }),
    {
        match self {
            Value::Number(Number::I16(v)) => Some(*v),
            _ => None,
        }
    }

    #[inline]
    pub fn is_i32(&self) -> (r: bool)
        ensures
            r == (*self matches Value::Number(Number::I32(_))),
    {
        matches!(self, Value::Number(Number::I32(_)))
    }

    #[inline]
    pub fn as_i32(&self) -> (r: Option<i32>)
        ensures
            r == (match *self {
                Value::Number(Number::I32(v)) => Some(v),
                _ => None,
            }),
    {
        match self {
            Value::Number(Number::I32(v)) => Some(*v),
            _ => None,
        }
    }

    #[inline]
    pub fn is_i64(&self) -> (r: bool)
        ensures
            r == (*self matches Value::Number(Number::I64(_))),
    {
        matches!(self, Value::Number(Number::I64(_)))
    }

    #[inline]
    pub fn as_i64(&self) -> (r: Option<i64>)
        ensures
            r == (match *self {
                Value::Number(Number::I64(v)) => Some(v),
                _ => None,
            }),
    {
        match self {
            Value::Number(Number::I64(v)) => Some(*v),
            _ => None,
        }
    }

    #[inline]
    pub fn is_i128(&self) -> (r: bool)
        ensures
            r == (*self matches Value::Number(Number::I128(_))),
    {
        matches!(self, Value::Number(Number::I128(_)))
    }

    #[inline]
    pub fn as_i128(&self) -> (r: Option<i128>)
        ensures
            r == (match *self {
                Value::Number(Number::I128(v)) => Some(v),
                _ => None,
            }),
    {
        match self {
            Value::Number(Number::I128(v)) => Some(*v),
            _ => None,
        }
    }

    #[inline]
    pub fn is_f32(&self) -> (r: bool)
        ensures
            r == (*self matches Value::Number(Number::F32(_))),
    {
        matches!(self, Value::Number(Number::F32(_)))
    }

    /// The bit pattern of the floating value, where the value is a number
    /// of this kind.
    #[inline]
    pub fn as_f32(&self) -> (r: Option<u32>)
        ensures
            r == (match *self {
                Value::Number(Number::F32(v)) => Some(v.bits()),
                _ => None,
            }),
    {
        match self {
            Value::Number(Number::F32(v)) => Some(v.get()),
            _ => None,
        }
    }

    #[inline]
    pub fn is_f64(&self) -> (r: bool)
        ensures
            r == (*self matches Value::Number(Number::F64(_))),
    {
        matches!(self, Value::Number(Number::F64(_)))
    }

    /// The bit pattern of the floating value, where the value is a number
    /// of this kind.
    #[inline]
    pub fn as_f64(&self) -> (r: Option<u64>)
        ensures
            r == (match *self {
                Value::Number(Number::F64(v)) => Some(v.bits()),
                _ => None,
            }),
    {
        match self {
            Value::Number(Number::F64(v)) => Some(v.get()),
            _ => None,
        }
    }

    #[inline]
    pub fn is_string(&self) -> (r: bool)
        ensures
            r == (*self is String),
    {
        matches!(self, Value::String(_))
    }

    #[inline]
    pub fn as_string(&self) -> (r: Option<&str>)
        ensures
            match *self {
                Value::String(s) => r matches Some(t) && t@ == s@,
                _ => r is None,
            },
    {
        match self {
            Value::String(s) => Some(s.as_str()),
            _ => None,
        }
    }

    #[inline]
    pub fn is_seq(&self) -> (r: bool)
        ensures
            r == (*self is Sequence),
    {
        matches!(self, Value::Sequence(_))
    }

    #[inline]
    pub fn as_seq(&self) -> (r: Option<&[Value]>)
        ensures
            match *self {
                Value::Sequence(items) => r matches Some(t) && t@ == items@,
                _ => r is None,
            },
    {
        match self {
            Value::Sequence(items) => Some(items.as_slice()),
            _ => None,
        }
    }

    #[inline]
    pub fn is_map(&self) -> (r: bool)
        ensures
            r == (*self is Mapping),
    {
        matches!(self, Value::Mapping(_))
    }

    pub fn as_map(&self) -> (r: Option<&ValueMap>)
        ensures
            match *self {
                Value::Mapping(m) => r matches Some(t) && *t == m,
                _ => r is None,
            },
    {
        match self {
            Value::Mapping(m) => Some(m),
            _ => None,
        }
    }

    #[inline]
    pub fn is_tuple(&self) -> (r: bool)
        ensures
            r == (*self is Tuple),
    {
        matches!(self, Value::Tuple(_))
    }

    pub fn as_tuple(&self) -> (r: Option<&[Value]>)
        ensures
            match *self {
                Value::Tuple(items) => r matches Some(t) && t@ == items@,
                _ => r is None,
            },
    {
        match self {
            Value::Tuple(items) => Some(items.as_slice()),
            _ => None,
        }
    }

    #[inline]
    pub fn is_unit_struct(&self) -> (r: bool)
        ensures
            r == (*self is UnitStruct),
    {
        matches!(self, Value::UnitStruct(_))
    }

    #[inline]
    pub fn is_tuple_struct(&self) -> (r: bool)
        ensures
            r == (*self is TupleStruct),
    {
        matches!(self, Value::TupleStruct(_))
    }

    #[inline]
    pub fn is_named_struct(&self) -> (r: bool)
        ensures
            r == (*self is NamedStruct),
    {
        matches!(self, Value::NamedStruct(_))
    }

    #[inline]
    pub fn is_unit_variant(&self) -> (r: bool)
        ensures
            r == (*self is UnitVariant),
    {
        matches!(self, Value::UnitVariant(_))
    }

    #[inline]
    pub fn is_tuple_variant(&self) -> (r: bool)
        ensures
            r == (*self is TupleVariant),
    {
        matches!(self, Value::TupleVariant(_))
    }

    #[inline]
    pub fn is_named_variant(&self) -> (r: bool)
        ensures
            r == (*self is NamedVariant),
    {
        matches!(self, Value::NamedVariant(_))
    }

    pub fn as_unit_struct(&self) -> (r: Option<&UnitStruct>)
        ensures
            match *self {
                Value::UnitStruct(s) => r matches Some(t) && *t == s,
                _ => r is None,
            },
    {
        match self {
            Value::UnitStruct(s) => Some(s),
            _ => None,
        }
    }

    pub fn as_tuple_struct(&self) -> (r: Option<&TupleStruct>)
        ensures
            match *self {
                Value::TupleStruct(s) => r matches Some(t) && *t == s,
                _ => r is None,
            },
    {
        match self {
            Value::TupleStruct(s) => Some(s),
            _ => None,
        }
    }

    pub fn as_named_struct(&self) -> (r: Option<&NamedStruct>)
        ensures
            match *self {
                Value::NamedStruct(s) => r matches Some(t) && *t == s,
                _ => r is None,
            },
    {
        match self {
            Value::NamedStruct(s) => Some(s),
            _ => None,
        }
    }

    pub fn as_unit_variant(&self) -> (r: Option<&UnitVariant>)
        ensures
            match *self {
                Value::UnitVariant(s) => r matches Some(t) && *t == s,
                _ => r is None,
            },
    {
        match self {
            Value::UnitVariant(s) => Some(s),
            _ => None,
        }
    }

    pub fn as_tuple_variant(&self) -> (r: Option<&TupleVariant>)
        ensures
            match *self {
                Value::TupleVariant(s) => r matches Some(t) && *t == s,
                _ => r is None,
            },
    {
        match self {
            Value::TupleVariant(s) => Some(s),
            _ => None,
        }
    }

    pub fn as_named_variant(&self) -> (r: Option<&NamedVariant>)
        ensures
            match *self {
                Value::NamedVariant(s) => r matches Some(t) && *t == s,
                _ => r is None,
            },
    {
        match self {
            Value::NamedVariant(s) => Some(s),
            _ => None,
        }
    }
}

} // verus!
