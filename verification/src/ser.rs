//! Building values step by step: one call for each primitive, and for each
//! compound shape a builder that takes the parts in turn and hands out the
//! finished value.
//!
//! A part arrives as the outcome of converting it. Where that outcome is a
//! failure, the step fails with it and the builder keeps what it held.
use crate::number::{Number, F32, F64};
use crate::order::Tree;
use crate::text::text_tree;
use crate::value::{
    FieldMap, NamedStruct, NamedVariant, TupleStruct, TupleVariant, UnitStruct, UnitVariant,
    Value, ValueMap,
};
use vstd::prelude::*;
use vstd::string::*;

verus! {

/// Why a conversion failed.
#[derive(Clone, Copy, Debug, PartialEq, Eq, Structural)]
pub enum ErrorKind {
    /// The value that was being converted reported the failure.
    Custom,
    /// A map was given a value before any key.
    MissingKey,
}

/// A failed conversion: its kind and its message.
#[derive(Debug)]
pub struct Error {
    kind: ErrorKind,
    message: String,
}

impl Error {
    /// The kind of the failure.
    pub closed spec fn spec_kind(self) -> ErrorKind {
        self.kind
    }

    /// The message of the failure.
    pub closed spec fn text(self) -> Seq<char> {
        self.message@
    }

    /// The message of a map that was given a value before any key.
    pub open spec fn missing_key_text() -> Seq<char> {
        "a map was given a value before a key"@
    }

    /// A failure that the converted value reports, with its message.
    pub fn custom(msg: &str) -> (r: Error)
        ensures
            r.spec_kind() == ErrorKind::Custom,
            r.text() == msg@,
    {
        Error { kind: ErrorKind::Custom, message: String::from_str(msg) }
    }

    /// The failure of a map that was given a value before any key.
    pub fn missing_key() -> (r: Error)
        ensures
            r.spec_kind() == ErrorKind::MissingKey,
            r.text() == Error::missing_key_text(),
    {
        Error {
            kind: ErrorKind::MissingKey,
            message: String::from_str("a map was given a value before a key"),
        }
    }

    /// The kind of the failure.
    pub fn kind(&self) -> (r: ErrorKind)
        ensures
            r == self.spec_kind(),
    {
        self.kind
    }

    /// The message of the failure.
    pub fn message(&self) -> (r: &str)
        ensures
            r@ == self.text(),
    {
        self.message.as_str()
    }

    /// The message of the failure, as an owned string.
    pub fn to_string(&self) -> (r: String)
        ensures
            r@ == self.text(),
    {
        String::from_str(self.message.as_str())
    }
}

/// The list that holds `first` and nothing else.
fn one_value(first: Value) -> (r: Vec<Value>)
    ensures
        r@ == seq![first],
{
    let mut values: Vec<Value> = Vec::new();
    values.push(first);
    assert(values@ =~= seq![first]);
    values
}

/// The maker of values: one call for each shape of the data model.
pub struct Serializer;

impl Serializer {
    pub fn serialize_bool(&self, v: bool) -> (r: Result<Value, Error>)
        ensures
            r matches Ok(x) && x == Value::Bool(v),
    {
        Ok(Value::Bool(v))
    }

    pub fn serialize_i8(&self, v: i8) -> (r: Result<Value, Error>)
        ensures
            r matches Ok(x) && x == Value::Number(Number::I8(v)),
    {
        Ok(Value::Number(Number::I8(v)))
    }

    pub fn serialize_i16(&self, v: i16) -> (r: Result<Value, Error>)
        ensures
            r matches Ok(x) && x == Value::Number(Number::I16(v)),
    {
        Ok(Value::Number(Number::I16(v)))
    }

    pub fn serialize_i32(&self, v: i32) -> (r: Result<Value, Error>)
        ensures
            r matches Ok(x) && x == Value::Number(Number::I32(v)),
    {
        Ok(Value::Number(Number::I32(v)))
    }

    pub fn serialize_i64(&self, v: i64) -> (r: Result<Value, Error>)
        ensures
            r matches Ok(x) && x == Value::Number(Number::I64(v)),
    {
        Ok(Value::Number(Number::I64(v)))
    }

    pub fn serialize_i128(&self, v: i128) -> (r: Result<Value, Error>)
        ensures
            r matches Ok(x) && x == Value::Number(Number::I128(v)),
    {
        Ok(Value::Number(Number::I128(v)))
    }

    pub fn serialize_u8(&self, v: u8) -> (r: Result<Value, Error>)
        ensures
            r matches Ok(x) && x == Value::Number(Number::U8(v)),
    {
        Ok(Value::Number(Number::U8(v)))
    }

    pub fn serialize_u16(&self, v: u16) -> (r: Result<Value, Error>)
        ensures
            r matches Ok(x) && x == Value::Number(Number::U16(v)),
    {
        Ok(Value::Number(Number::U16(v)))
    }

    pub fn serialize_u32(&self, v: u32) -> (r: Result<Value, Error>)
        ensures
            r matches Ok(x) && x == Value::Number(Number::U32(v)),
    {
        Ok(Value::Number(Number::U32(v)))
    }

    pub fn serialize_u64(&self, v: u64) -> (r: Result<Value, Error>)
        ensures
            r matches Ok(x) && x == Value::Number(Number::U64(v)),
    {
        Ok(Value::Number(Number::U64(v)))
    }

    pub fn serialize_u128(&self, v: u128) -> (r: Result<Value, Error>)
        ensures
            r matches Ok(x) && x == Value::Number(Number::U128(v)),
    {
        Ok(Value::Number(Number::U128(v)))
    }

    /// A 32-bit floating value, given as its bit pattern.
    pub fn serialize_f32(&self, bits: u32) -> (r: Result<Value, Error>)
        ensures
            r matches Ok(Value::Number(Number::F32(x))) && x.bits()
                == crate::number::single_canonical(bits),
    {
        Ok(Value::Number(Number::F32(F32::new(bits))))
    }

    /// A 64-bit floating value, given as its bit pattern.
    pub fn serialize_f64(&self, bits: u64) -> (r: Result<Value, Error>)
        ensures
            r matches Ok(Value::Number(Number::F64(x))) && x.bits()
                == crate::number::double_canonical(bits),
    {
        Ok(Value::Number(Number::F64(F64::new(bits))))
    }

    pub fn serialize_char(&self, v: char) -> (r: Result<Value, Error>)
        ensures
            r matches Ok(x) && x == Value::Char(v),
    {
        Ok(Value::Char(v))
    }

    pub fn serialize_str(&self, v: &str) -> (r: Result<Value, Error>)
        ensures
            r matches Ok(Value::String(s)) && s@ == v@,
    {
        Ok(Value::from_text(v))
    }

    pub fn serialize_bytes(&self, v: &[u8]) -> (r: Result<Value, Error>)
        ensures
            r matches Ok(Value::Sequence(items)) && items@ == v@.map_values(
                |b: u8| crate::lift::byte_value(b),
            ),
    {
        Ok(Value::from_bytes(v))
    }

    /// An absent optional: the unit struct `None`. A unit struct of the
    /// producer that is named `None` gives the same value; nothing tells the
    /// two apart.
    pub fn serialize_none(&self) -> (r: Result<Value, Error>)
        ensures
            r matches Ok(Value::UnitStruct(s)) && s.name@ == "None"@,
    {
        Ok(Value::UnitStruct(UnitStruct { name: "None" }))
    }

    /// Wraps the converted value of a present optional in the tuple struct
    /// `Some`. A struct of the producer with that name and one unnamed field
    /// gives the same value; nothing tells the two apart.
    pub fn serialize_some(&self, value: Result<Value, Error>) -> (r: Result<Value, Error>)
        ensures
            value matches Ok(inner) ==> (r matches Ok(Value::TupleStruct(s)) && s.name@ == "Some"@
                && s.values@ == seq![inner]),
            value matches Err(e) ==> (r matches Err(x) && x == e),
    {
        match value {
            Ok(inner) => Ok(
                Value::TupleStruct(TupleStruct { name: "Some", values: one_value(inner) }),
            ),
            Err(e) => Err(e),
        }
    }

    pub fn serialize_unit(&self) -> (r: Result<Value, Error>)
        ensures
            r matches Ok(x) && x == Value::Unit,
    {
        Ok(Value::Unit)
    }

    pub fn serialize_unit_struct(&self, name: &'static str) -> (r: Result<Value, Error>)
        ensures
            r matches Ok(x) && x == Value::UnitStruct(UnitStruct { name }),
    {
        Ok(Value::UnitStruct(UnitStruct { name }))
    }

    pub fn serialize_unit_variant(
        &self,
        name: &'static str,
        _variant_index: u32,
        variant: &'static str,
    ) -> (r: Result<Value, Error>)
        ensures
            r matches Ok(x) && x == Value::UnitVariant(UnitVariant { name, variant }),
    {
        Ok(Value::UnitVariant(UnitVariant { name, variant }))
    }

    /// Wraps the converted value of a struct with one unnamed field.
    pub fn serialize_newtype_struct(&self, name: &'static str, value: Result<Value, Error>) -> (r:
        Result<Value, Error>)
        ensures
            value matches Ok(inner) ==> (r matches Ok(Value::TupleStruct(s)) && s.name == name
                && s.values@ == seq![inner]),
            value matches Err(e) ==> (r matches Err(x) && x == e),
    {
        match value {
            Ok(inner) => Ok(Value::TupleStruct(TupleStruct { name, values: one_value(inner) })),
            Err(e) => Err(e),
        }
    }

    /// Wraps the converted value of a variant with one unnamed field.
    pub fn serialize_newtype_variant(
        &self,
        name: &'static str,
        _variant_index: u32,
        variant: &'static str,
        value: Result<Value, Error>,
    ) -> (r: Result<Value, Error>)
        ensures
            value matches Ok(inner) ==> (r matches Ok(Value::TupleVariant(s)) && s.name == name
                && s.variant == variant && s.values@ == seq![inner]),
            value matches Err(e) ==> (r matches Err(x) && x == e),
    {
        match value {
            Ok(inner) => Ok(
                Value::TupleVariant(TupleVariant { name, variant, values: one_value(inner) }),
            ),
            Err(e) => Err(e),
        }
    }

    /// Starts a sequence. The expected length is a hint and decides nothing.
    pub fn serialize_seq(&self, _len: Option<usize>) -> (r: Result<SerializeCompound, Error>)
        ensures
            r matches Ok(b) && b.values() == Seq::<Value>::empty(),
    {
        Ok(SerializeCompound { inner: Vec::new() })
    }

    /// Starts a tuple. The expected length is a hint and decides nothing.
    pub fn serialize_tuple(&self, _len: usize) -> (r: Result<SerializeCompound, Error>)
        ensures
            r matches Ok(b) && b.values() == Seq::<Value>::empty(),
    {
        Ok(SerializeCompound { inner: Vec::new() })
    }

    /// Starts a struct with unnamed fields.
    pub fn serialize_tuple_struct(&self, name: &'static str, _len: usize) -> (r: Result<
        SerializeTupleStruct,
        Error,
    >)
        ensures
            r matches Ok(b) && b.name() == name && b.values() == Seq::<Value>::empty(),
    {
        Ok(SerializeTupleStruct { name, values: Vec::new() })
    }

    /// Starts a variant with unnamed fields.
    pub fn serialize_tuple_variant(
        &self,
        name: &'static str,
        _variant_index: u32,
        variant: &'static str,
        _len: usize,
    ) -> (r: Result<SerializeTupleVariant, Error>)
        ensures
            r matches Ok(b) && b.name() == name && b.variant() == variant && b.values() == Seq::<
                Value,
            >::empty(),
    {
        Ok(SerializeTupleVariant { name, variant, values: Vec::new() })
    }

    /// Starts a map.
    pub fn serialize_map(&self, _len: Option<usize>) -> (r: Result<SerializeMap, Error>)
        ensures
            r matches Ok(b) && b.wf() && b.pending() is None && b.map()@ == Map::<
                Tree,
                Tree,
            >::empty() && b.map().items().len() == 0,
    {
        Ok(SerializeMap { key: None, values: ValueMap::new() })
    }

    /// Starts a struct with named fields.
    pub fn serialize_struct(&self, name: &'static str, _len: usize) -> (r: Result<
        SerializeStruct,
        Error,
    >)
        ensures
            r matches Ok(b) && b.wf() && b.name() == name && b.fields()@ == Map::<
                Tree,
                Tree,
            >::empty() && b.fields().items().len() == 0,
    {
        Ok(SerializeStruct { name, fields: FieldMap::new() })
    }

    /// Starts a variant with named fields.
    pub fn serialize_struct_variant(
        &self,
        name: &'static str,
        _variant_index: u32,
        variant: &'static str,
        _len: usize,
    ) -> (r: Result<SerializeStructVariant, Error>)
        ensures
            r matches Ok(b) && b.wf() && b.name() == name && b.variant() == variant
                && b.fields()@ == Map::<Tree, Tree>::empty() && b.fields().items().len() == 0,
    {
        Ok(SerializeStructVariant { name, variant, fields: FieldMap::new() })
    }
}

/// The builder of a sequence or a tuple: the elements so far, in the order
/// in which they came.
pub struct SerializeCompound {
    inner: Vec<Value>,
}

impl SerializeCompound {
    /// The elements so far.
    pub closed spec fn values(self) -> Seq<Value> {
        self.inner@
    }

    /// Takes the next element.
    pub fn serialize_element(&mut self, value: Result<Value, Error>) -> (r: Result<(), Error>)
        ensures
            value matches Ok(v) ==> r is Ok && final(self).values() == old(self).values().push(v),
            value matches Err(e) ==> (r matches Err(x) && x == e) && final(self).values()
                == old(self).values(),
    {
        match value {
            Ok(v) => {
                self.inner.push(v);
                Ok(())
            },
            Err(e) => Err(e),
        }
    }

    /// Finishes a sequence: the elements in the order in which they came.
    pub fn end(self) -> (r: Result<Value, Error>)
        ensures
            r matches Ok(Value::Sequence(items)) && items@ == self.values(),
    {
        Ok(Value::Sequence(self.inner))
    }

    /// Finishes a tuple: the elements in the order in which they came.
    pub fn end_tuple(self) -> (r: Result<Value, Error>)
        ensures
            r matches Ok(Value::Tuple(items)) && items@ == self.values(),
    {
        Ok(Value::Tuple(self.inner))
    }
}

/// The builder of a struct with unnamed fields.
pub struct SerializeTupleStruct {
    name: &'static str,
    values: Vec<Value>,
}

impl SerializeTupleStruct {
    /// The name of the struct.
    pub closed spec fn name(self) -> &'static str {
        self.name
    }

    /// The fields so far.
    pub closed spec fn values(self) -> Seq<Value> {
        self.values@
    }

    /// Takes the next field.
    pub fn serialize_field(&mut self, value: Result<Value, Error>) -> (r: Result<(), Error>)
        ensures
            final(self).name() == old(self).name(),
            value matches Ok(v) ==> r is Ok && final(self).values() == old(self).values().push(v),
            value matches Err(e) ==> (r matches Err(x) && x == e) && final(self).values()
                == old(self).values(),
    {
        match value {
            Ok(v) => {
                self.values.push(v);
                Ok(())
            },
            Err(e) => Err(e),
        }
    }

    /// Finishes the struct: its name, and the fields in the order in which
    /// they came.
    pub fn end(self) -> (r: Result<Value, Error>)
        ensures
            r matches Ok(Value::TupleStruct(s)) && s.name == self.name() && s.values@
                == self.values(),
    {
        Ok(Value::TupleStruct(TupleStruct { name: self.name, values: self.values }))
    }
}

/// The builder of a variant with unnamed fields.
pub struct SerializeTupleVariant {
    name: &'static str,
    variant: &'static str,
    values: Vec<Value>,
}

impl SerializeTupleVariant {
    /// The name of the enum.
    pub closed spec fn name(self) -> &'static str {
        self.name
    }

    /// The name of the variant.
    pub closed spec fn variant(self) -> &'static str {
        self.variant
    }

    /// The fields so far.
    pub closed spec fn values(self) -> Seq<Value> {
        self.values@
    }

    /// Takes the next field.
    pub fn serialize_field(&mut self, value: Result<Value, Error>) -> (r: Result<(), Error>)
        ensures
            final(self).name() == old(self).name(),
            final(self).variant() == old(self).variant(),
            value matches Ok(v) ==> r is Ok && final(self).values() == old(self).values().push(v),
            value matches Err(e) ==> (r matches Err(x) && x == e) && final(self).values()
                == old(self).values(),
    {
        match value {
            Ok(v) => {
                self.values.push(v);
                Ok(())
            },
            Err(e) => Err(e),
        }
    }

    /// Finishes the variant: its names, and the fields in the order in which
    /// they came.
    pub fn end(self) -> (r: Result<Value, Error>)
        ensures
            r matches Ok(Value::TupleVariant(s)) && s.name == self.name() && s.variant
                == self.variant() && s.values@ == self.values(),
    {
        Ok(
            Value::TupleVariant(
                TupleVariant { name: self.name, variant: self.variant, values: self.values },
            ),
        )
    }
}

/// The builder of a struct with named fields. Whatever the order in which
/// the fields come, they are held in the order of their names.
pub struct SerializeStruct {
    name: &'static str,
    fields: FieldMap,
}

impl SerializeStruct {
    /// The name of the struct.
    pub closed spec fn name(self) -> &'static str {
        self.name
    }

    /// The fields so far.
    pub closed spec fn fields(self) -> FieldMap {
        self.fields
    }

    /// The fields so far stand in the strict order of their names.
    pub open spec fn wf(self) -> bool {
        self.fields().wf()
    }

    /// Takes a field: its name and its value. A second value under one name
    /// replaces the first.
    pub fn serialize_field(&mut self, key: &'static str, value: Result<Value, Error>) -> (r:
        Result<(), Error>)
        ensures
            final(self).wf(),
            final(self).name() == old(self).name(),
            value matches Ok(v) ==> r is Ok && final(self).fields()@ == old(self).fields()@.insert(
                text_tree(key@),
                v.model(),
            ),
            value matches Err(e) ==> (r matches Err(x) && x == e) && final(self).fields()
                == old(self).fields(),
    {
        proof {
            use_type_invariant(&self.fields);
        }
        match value {
            Ok(v) => {
                self.fields.insert(key, v);
                Ok(())
            },
            Err(e) => Err(e),
        }
    }

    /// Finishes the struct: its name, and the fields in the order of their
    /// names.
    pub fn end(self) -> (r: Result<Value, Error>)
        ensures
            r matches Ok(Value::NamedStruct(s)) && s.name == self.name() && s.fields
                == self.fields() && s.fields.wf(),
    {
        proof {
            use_type_invariant(&self.fields);
        }
        Ok(Value::NamedStruct(NamedStruct { name: self.name, fields: self.fields }))
    }
}

/// The builder of a variant with named fields. Whatever the order in which
/// the fields come, they are held in the order of their names.
pub struct SerializeStructVariant {
    name: &'static str,
    variant: &'static str,
    fields: FieldMap,
}

impl SerializeStructVariant {
    /// The name of the enum.
    pub closed spec fn name(self) -> &'static str {
        self.name
    }

    /// The name of the variant.
    pub closed spec fn variant(self) -> &'static str {
        self.variant
    }

    /// The fields so far.
    pub closed spec fn fields(self) -> FieldMap {
        self.fields
    }

    /// The fields so far stand in the strict order of their names.
    pub open spec fn wf(self) -> bool {
        self.fields().wf()
    }

    /// Takes a field: its name and its value. A second value under one name
    /// replaces the first.
    pub fn serialize_field(&mut self, key: &'static str, value: Result<Value, Error>) -> (r:
        Result<(), Error>)
        ensures
            final(self).wf(),
            final(self).name() == old(self).name(),
            final(self).variant() == old(self).variant(),
            value matches Ok(v) ==> r is Ok && final(self).fields()@ == old(self).fields()@.insert(
                text_tree(key@),
                v.model(),
            ),
            value matches Err(e) ==> (r matches Err(x) && x == e) && final(self).fields()
                == old(self).fields(),
    {
        proof {
            use_type_invariant(&self.fields);
        }
        match value {
            Ok(v) => {
                self.fields.insert(key, v);
                Ok(())
            },
            Err(e) => Err(e),
        }
    }

    /// Finishes the variant: its names, and the fields in the order of
    /// their names.
    pub fn end(self) -> (r: Result<Value, Error>)
        ensures
            r matches Ok(Value::NamedVariant(s)) && s.name == self.name() && s.variant
                == self.variant() && s.fields == self.fields() && s.fields.wf(),
    {
        proof {
            use_type_invariant(&self.fields);
        }
        Ok(
            Value::NamedVariant(
                NamedVariant { name: self.name, variant: self.variant, fields: self.fields },
            ),
        )
    }
}

/// The builder of a map. Keys and values come in turn, a key first; the
/// entries are held in the order of their keys.
pub struct SerializeMap {
    key: Option<Value>,
    values: ValueMap,
}

impl SerializeMap {
    /// The key that waits for its value, if one does.
    pub closed spec fn pending(self) -> Option<Value> {
        self.key
    }

    /// The entries so far.
    pub closed spec fn map(self) -> ValueMap {
        self.values
    }

    /// The entries so far stand in the strict order of their keys.
    pub open spec fn wf(self) -> bool {
        self.map().wf()
    }

    /// Whether a key waits for its value.
    pub fn has_pending_key(&self) -> (r: bool)
        ensures
            r == self.pending() is Some,
    {
        self.key.is_some()
    }

    /// Takes a key, which then waits for its value. A key that was waiting
    /// is given up.
    pub fn serialize_key(&mut self, key: Result<Value, Error>) -> (r: Result<(), Error>)
        ensures
            final(self).map() == old(self).map(),
            key matches Ok(k) ==> r is Ok && final(self).pending() == Some(k),
            key matches Err(e) ==> (r matches Err(x) && x == e) && final(self).pending()
                == old(self).pending(),
    {
        match key {
            Ok(k) => {
                self.key = Some(k);
                Ok(())
            },
            Err(e) => Err(e),
        }
    }

    /// Takes the value of the key that waits. Without such a key the call
    /// fails and nothing changes. With one, the key is used up; the entry is
    /// put into the map unless the value is a failure, and a second value
    /// under one key replaces the first.
    pub fn serialize_value(&mut self, value: Result<Value, Error>) -> (r: Result<(), Error>)
        ensures
            final(self).wf(),
            old(self).pending() is None ==> (r matches Err(x) && x.spec_kind()
                == ErrorKind::MissingKey && x.text() == Error::missing_key_text()) && *final(self)
                == *old(self),
            old(self).pending() is Some ==> final(self).pending() is None,
            old(self).pending() matches Some(k) ==> (value matches Ok(v) ==> r is Ok
                && final(self).map()@ == old(self).map()@.insert(k.model(), v.model())),
            old(self).pending() is Some ==> (value matches Err(e) ==> (r matches Err(x) && x == e)
                && final(self).map() == old(self).map()),
    {
        proof {
            use_type_invariant(&self.values);
        }
        match self.key.take() {
            None => Err(Error::missing_key()),
            Some(k) => match value {
                Ok(v) => {
                    self.values.insert(k, v);
                    Ok(())
                },
                Err(e) => Err(e),
            },
        }
    }

    /// Finishes the map: the entries in the order of their keys. A key that
    /// still waits for its value is given up.
    pub fn end(self) -> (r: Result<Value, Error>)
        ensures
            r matches Ok(Value::Mapping(m)) && m == self.map() && m.wf(),
    {
        proof {
            use_type_invariant(&self.values);
        }
        Ok(Value::Mapping(self.values))
    }
}

} // verus!
