//! The value: a closed union of every shape that structured data can take,
//! its model as a tree, and its total order.
use crate::cloning::{clone_entries, clone_fields};
use crate::compare::{compare_entries, compare_fields};
use crate::number::{lemma_number_model_is_one_to_one, Number};
use crate::order::{kids_order, leaf, node, tree_order, Order, Tree};
use crate::maps::{entry_pairs, field_pairs, find_entry, find_field, put_entry, put_field};
use crate::render::{
    entry_texts, field_texts, lemma_text_by_shape, list_text, map_text, pair_text, path_text,
    render_entries, render_fields, struct_text, texts, tuple_text, views,
};
use crate::sorted::{pairs_map, sorted_pairs};
use crate::text::{bool_text, char_debug, lemma_text_tree_is_one_to_one, str_debug, text_tree};
use vstd::prelude::*;

verus! {

/// A struct without fields: only its name.
#[derive(Clone, Copy, Debug, PartialEq, Eq, Hash)]
pub struct UnitStruct {
    pub name: &'static str,
}

/// A struct with unnamed fields, in their order.
#[derive(Debug, PartialEq, Eq, Hash)]
pub struct TupleStruct {
    pub name: &'static str,
    pub values: Vec<Value>,
}

/// A struct with named fields, held in the order of the field names.
#[derive(Debug, PartialEq, Eq, Hash)]
pub struct NamedStruct {
    pub name: &'static str,
    pub fields: FieldMap,
}

/// An enum variant without fields.
#[derive(Clone, Copy, Debug, PartialEq, Eq, Hash)]
pub struct UnitVariant {
    pub name: &'static str,
    pub variant: &'static str,
}

/// An enum variant with unnamed fields, in their order.
#[derive(Debug, PartialEq, Eq, Hash)]
pub struct TupleVariant {
    pub name: &'static str,
    pub variant: &'static str,
    pub values: Vec<Value>,
}

/// An enum variant with named fields, held in the order of the field names.
#[derive(Debug, PartialEq, Eq, Hash)]
pub struct NamedVariant {
    pub name: &'static str,
    pub variant: &'static str,
    pub fields: FieldMap,
}

/// A map from values to values. Its entries always stand in the strict order
/// of their keys, so no key occurs twice.
#[derive(Debug, PartialEq, Eq, Hash)]
pub struct ValueMap {
    pub(crate) entries: Vec<(Value, Value)>,
}

/// A map from field names to values. Its entries always stand in the strict
/// order of the names, so no name occurs twice.
#[derive(Debug, PartialEq, Eq, Hash)]
pub struct FieldMap {
    pub(crate) entries: Vec<(&'static str, Value)>,
}

/// A structured value.
#[derive(Debug, PartialEq, Eq, Hash)]
pub enum Value {
    Unit,
    Bool(bool),
    Char(char),
    Number(Number),
    String(String),
    Sequence(Vec<Value>),
    Mapping(ValueMap),
    Tuple(Vec<Value>),
    UnitStruct(UnitStruct),
    TupleStruct(TupleStruct),
    NamedStruct(NamedStruct),
    UnitVariant(UnitVariant),
    TupleVariant(TupleVariant),
    NamedVariant(NamedVariant),
}

/// The tag of the tree that models a list of values.
pub open spec fn list_tag() -> int {
    5
}

/// The tag of the tree that models the entries of a map.
pub open spec fn entries_tag() -> int {
    6
}

/// The trees that model the values of a list, in order.
pub open spec fn models(items: Seq<Value>) -> Seq<Tree> {
    Seq::new(items.len(), |i: int| items[i].model())
}

/// The tree that models an entry of a map of values: its key, then its
/// value.
pub open spec fn entry_model(entry: (Value, Value)) -> Tree {
    node(0, seq![entry.0.model(), entry.1.model()])
}

/// The trees that model the entries of a map of values, in order.
pub open spec fn entry_models(entries: Seq<(Value, Value)>) -> Seq<Tree> {
    Seq::new(entries.len(), |i: int| entry_model(entries[i]))
}

/// The tree that models a named field: its name, then its value.
pub open spec fn field_model(field: (&'static str, Value)) -> Tree {
    node(0, seq![text_tree(field.0@), field.1.model()])
}

/// The trees that model the fields of a map of fields, in order.
pub open spec fn field_models(fields: Seq<(&'static str, Value)>) -> Seq<Tree> {
    Seq::new(fields.len(), |i: int| field_model(fields[i]))
}

/// The tree that models a list of values.
pub open spec fn list_tree(items: Seq<Value>) -> Tree {
    node(list_tag(), models(items))
}

/// The tree that models the fields of a struct or a variant.
pub open spec fn fields_tree(fields: Seq<(&'static str, Value)>) -> Tree {
    node(entries_tag(), field_models(fields))
}

impl ValueMap {
    /// The entries, in the order in which they are held.
    pub closed spec fn items(self) -> Seq<(Value, Value)> {
        self.entries@
    }

    /// The keys of the entries stand in strictly rising order. This holds of
    /// every map that a program holds.
    #[verifier::type_invariant]
    pub closed spec fn wf(self) -> bool {
        sorted_pairs(entry_pairs(self.entries@))
    }

    /// The map from the model of each key to the model of its value.
    pub open spec fn view(self) -> Map<Tree, Tree> {
        pairs_map(entry_pairs(self.items()))
    }

    /// What `wf` says of the entries.
    pub proof fn lemma_wf(self)
        ensures
            self.wf() == sorted_pairs(entry_pairs(self.items())),
    {
    }

    /// A map without entries.
    pub fn new() -> (r: Self)
        ensures
            r.wf(),
            r@ == Map::<Tree, Tree>::empty(),
            r.items().len() == 0,
    {
        let r = ValueMap { entries: Vec::new() };
        assert(r@ =~= Map::<Tree, Tree>::empty());
        r
    }

    /// The number of entries.
    pub fn len(&self) -> (r: usize)
        ensures
            r == self.items().len(),
    {
        self.entries.len()
    }

    /// Whether the map has no entry.
    pub fn is_empty(&self) -> (r: bool)
        ensures
            r == (self.items().len() == 0),
    {
        self.entries.len() == 0
    }

    /// The entries, in the order of their keys.
    pub fn entries(&self) -> (r: &Vec<(Value, Value)>)
        ensures
            r@ == self.items(),
            self.wf(),
    {
        proof {
            use_type_invariant(self);
        }
        &self.entries
    }

    /// Puts `value` under `key`. Where the map holds the key already, the
    /// value replaces the one that was there; otherwise the entry takes its
    /// place in the order of the keys.
    pub fn insert(&mut self, key: Value, value: Value)
        ensures
            final(self).wf(),
            final(self)@ == old(self)@.insert(key.model(), value.model()),
            final(self).items().len() == old(self).items().len() + (if old(self)@.dom().contains(
                key.model(),
            ) {
                0int
            } else {
                1int
            }),
    {
        proof {
            use_type_invariant(&*self);
        }
        let mut entries: Vec<(Value, Value)> = Vec::new();
        std::mem::swap(&mut entries, &mut self.entries);
        put_entry(&mut entries, key, value);
        self.entries = entries;
    }

    /// The value under `key`, if the map holds the key.
    pub fn get(&self, key: &Value) -> (r: Option<&Value>)
        ensures
            r is Some <==> self@.dom().contains(key.model()),
            r matches Some(value) ==> self@[key.model()] == value.model(),
    {
        proof {
            use_type_invariant(self);
        }
        find_entry(&self.entries, key)
    }

    /// Compares two maps entry by entry, each entry by its key and then by
    /// its value, the shorter map first among maps that agree as far as it
    /// goes.
    pub fn compare(&self, other: &ValueMap) -> (r: Order)
        ensures
            r == kids_order(entry_models(self.items()), entry_models(other.items()), 0),
        decreases self,
    {
        compare_entries(&self.entries, &other.entries)
    }

    /// Writes each entry as its key, a colon and its value.
    pub fn render_parts(&self) -> (r: Vec<String>)
        ensures
            views(r@) == entry_texts(self.items()),
        decreases self,
    {
        render_entries(&self.entries)
    }
}

impl Clone for ValueMap {
    fn clone(&self) -> (r: ValueMap)
        ensures
            r.items().len() == self.items().len(),
            entry_pairs(r.items()) == entry_pairs(self.items()),
            entry_models(r.items()) == entry_models(self.items()),
            r@ == self@,
        decreases self,
    {
        proof {
            use_type_invariant(self);
        }
        ValueMap { entries: clone_entries(&self.entries) }
    }
}

impl FieldMap {
    /// The entries, in the order in which they are held.
    pub closed spec fn items(self) -> Seq<(&'static str, Value)> {
        self.entries@
    }

    /// The names of the entries stand in strictly rising order. This holds
    /// of every map that a program holds.
    #[verifier::type_invariant]
    pub closed spec fn wf(self) -> bool {
        sorted_pairs(field_pairs(self.entries@))
    }

    /// The map from the model of each field name to the model of its value.
    pub open spec fn view(self) -> Map<Tree, Tree> {
        pairs_map(field_pairs(self.items()))
    }

    /// What `wf` says of the entries.
    pub proof fn lemma_wf(self)
        ensures
            self.wf() == sorted_pairs(field_pairs(self.items())),
    {
    }

    /// A map without entries.
    pub fn new() -> (r: Self)
        ensures
            r.wf(),
            r@ == Map::<Tree, Tree>::empty(),
            r.items().len() == 0,
    {
        let r = FieldMap { entries: Vec::new() };
        assert(r@ =~= Map::<Tree, Tree>::empty());
        r
    }

    /// The number of entries.
    pub fn len(&self) -> (r: usize)
        ensures
            r == self.items().len(),
    {
        self.entries.len()
    }

    /// Whether the map has no entry.
    pub fn is_empty(&self) -> (r: bool)
        ensures
            r == (self.items().len() == 0),
    {
        self.entries.len() == 0
    }

    /// The entries, in the order of their names.
    pub fn entries(&self) -> (r: &Vec<(&'static str, Value)>)
        ensures
            r@ == self.items(),
            self.wf(),
    {
        proof {
            use_type_invariant(self);
        }
        &self.entries
    }

    /// Puts `value` under `name`. Where the map holds the name already, the
    /// value replaces the one that was there; otherwise the entry takes its
    /// place in the order of the names.
    pub fn insert(&mut self, name: &'static str, value: Value)
        ensures
            final(self).wf(),
            final(self)@ == old(self)@.insert(text_tree(name@), value.model()),
            final(self).items().len() == old(self).items().len() + (if old(self)@.dom().contains(
                text_tree(name@),
            ) {
                0int
            } else {
                1int
            }),
    {
        proof {
            use_type_invariant(&*self);
        }
        let mut entries: Vec<(&'static str, Value)> = Vec::new();
        std::mem::swap(&mut entries, &mut self.entries);
        put_field(&mut entries, name, value);
        self.entries = entries;
    }

    /// The value under `name`, if the map holds the name.
    pub fn get(&self, name: &str) -> (r: Option<&Value>)
        ensures
            r is Some <==> self@.dom().contains(text_tree(name@)),
            r matches Some(value) ==> self@[text_tree(name@)] == value.model(),
    {
        proof {
            use_type_invariant(self);
        }
        find_field(&self.entries, name)
    }

    /// Compares two maps entry by entry, each entry by its name and then by
    /// its value, the shorter map first among maps that agree as far as it
    /// goes.
    pub fn compare(&self, other: &FieldMap) -> (r: Order)
        ensures
            r == tree_order(fields_tree(self.items()), fields_tree(other.items())),
        decreases self,
    {
        compare_fields(&self.entries, &other.entries)
    }

    /// Writes each entry as its name, a colon and its value.
    pub fn render_parts(&self) -> (r: Vec<String>)
        ensures
            views(r@) == field_texts(self.items()),
        decreases self,
    {
        render_fields(&self.entries)
    }
}

impl Clone for FieldMap {
    fn clone(&self) -> (r: FieldMap)
        ensures
            r.items().len() == self.items().len(),
            field_pairs(r.items()) == field_pairs(self.items()),
            field_models(r.items()) == field_models(self.items()),
            r@ == self@,
        decreases self,
    {
        proof {
            use_type_invariant(self);
        }
        FieldMap { entries: clone_fields(&self.entries) }
    }
}


impl Value {
    /// The texts of the parts of a compound value, in the order in which
    /// they are held; nothing for a value without parts.
    pub open spec fn parts(self) -> Seq<Seq<char>>
        decreases self, 0int,
    {
        match self {
            Value::Sequence(items) => Seq::new(
                items@.len(),
                |i: int|
                    if 0 <= i < items@.len() {
                        items@[i].text()
                    } else {
                        arbitrary()
                    },
            ),
            Value::Mapping(map) => Seq::new(
                map.items().len(),
                |i: int|
                    if 0 <= i < map.items().len() {
                        pair_text(map.items()[i].0.text(), map.items()[i].1.text())
                    } else {
                        arbitrary()
                    },
            ),
            Value::Tuple(items) => Seq::new(
                items@.len(),
                |i: int|
                    if 0 <= i < items@.len() {
                        items@[i].text()
                    } else {
                        arbitrary()
                    },
            ),
            Value::TupleStruct(s) => Seq::new(
                s.values@.len(),
                |i: int|
                    if 0 <= i < s.values@.len() {
                        s.values@[i].text()
                    } else {
                        arbitrary()
                    },
            ),
            Value::NamedStruct(s) => Seq::new(
                s.fields.items().len(),
                |i: int|
                    if 0 <= i < s.fields.items().len() {
                        pair_text(s.fields.items()[i].0@, s.fields.items()[i].1.text())
                    } else {
                        arbitrary()
                    },
            ),
            Value::TupleVariant(s) => Seq::new(
                s.values@.len(),
                |i: int|
                    if 0 <= i < s.values@.len() {
                        s.values@[i].text()
                    } else {
                        arbitrary()
                    },
            ),
            Value::NamedVariant(s) => Seq::new(
                s.fields.items().len(),
                |i: int|
                    if 0 <= i < s.fields.items().len() {
                        pair_text(s.fields.items()[i].0@, s.fields.items()[i].1.text())
                    } else {
                        arbitrary()
                    },
            ),
            _ => Seq::empty(),
        }
    }

    /// The text of the value.
    pub open spec fn text(self) -> Seq<char>
        decreases self, 1int,
    {
        match self {
            Value::Unit => seq!['(', ')'],
            Value::Bool(b) => bool_text(b),
            Value::Char(c) => char_debug(c),
            Value::Number(n) => n.text(),
            Value::String(s) => str_debug(s@),
            Value::Sequence(_) => list_text(self.parts()),
            Value::Mapping(_) => map_text(self.parts()),
            Value::Tuple(_) => tuple_text(Seq::empty(), self.parts()),
            Value::UnitStruct(s) => s.name@,
            Value::TupleStruct(s) => tuple_text(s.name@, self.parts()),
            Value::NamedStruct(s) => struct_text(s.name@, self.parts()),
            Value::UnitVariant(s) => path_text(s.name@, s.variant@),
            Value::TupleVariant(s) => tuple_text(path_text(s.name@, s.variant@), self.parts()),
            Value::NamedVariant(s) => struct_text(path_text(s.name@, s.variant@), self.parts()),
        }
    }
}

impl Value {
    /// The position of the value's shape among the fourteen shapes.
    pub open spec fn tag(self) -> int {
        match self {
            Value::Unit => 0,
            Value::Bool(_) => 1,
            Value::Char(_) => 2,
            Value::Number(_) => 3,
            Value::String(_) => 4,
            Value::Sequence(_) => 5,
            Value::Mapping(_) => 6,
            Value::Tuple(_) => 7,
            Value::UnitStruct(_) => 8,
            Value::TupleStruct(_) => 9,
            Value::NamedStruct(_) => 10,
            Value::UnitVariant(_) => 11,
            Value::TupleVariant(_) => 12,
            Value::NamedVariant(_) => 13,
        }
    }

    /// The tree that models the value. Two values are the same value exactly
    /// when their models are equal, and they are ordered as their models.
    pub open spec fn model(self) -> Tree
        decreases self,
    {
        match self {
            Value::Unit => leaf(0, Seq::empty()),
            Value::Bool(b) => leaf(
                1,
                seq![if b {
                    1int
                } else {
                    0int
                }],
            ),
            Value::Char(c) => leaf(2, seq![c as int]),
            Value::Number(n) => n.model(),
            Value::String(s) => text_tree(s@),
            Value::Sequence(items) => node(
                5,
                Seq::new(
                    items@.len(),
                    |i: int|
                        if 0 <= i < items@.len() {
                            items@[i].model()
                        } else {
                            arbitrary()
                        },
                ),
            ),
            Value::Mapping(map) => node(
                6,
                Seq::new(
                    map.items().len(),
                    |i: int|
                        if 0 <= i < map.items().len() {
                            node(0, seq![map.items()[i].0.model(), map.items()[i].1.model()])
                        } else {
                            arbitrary()
                        },
                ),
            ),
            Value::Tuple(items) => node(
                7,
                Seq::new(
                    items@.len(),
                    |i: int|
                        if 0 <= i < items@.len() {
                            items@[i].model()
                        } else {
                            arbitrary()
                        },
                ),
            ),
            Value::UnitStruct(s) => node(8, seq![text_tree(s.name@)]),
            Value::TupleStruct(s) => node(
                9,
                seq![
                    text_tree(s.name@),
                    node(
                        5,
                        Seq::new(
                            s.values@.len(),
                            |i: int|
                                if 0 <= i < s.values@.len() {
                                    s.values@[i].model()
                                } else {
                                    arbitrary()
                                },
                        ),
                    ),
                ],
            ),
            Value::NamedStruct(s) => node(
                10,
                seq![
                    text_tree(s.name@),
                    node(
                        6,
                        Seq::new(
                            s.fields.items().len(),
                            |i: int|
                                if 0 <= i < s.fields.items().len() {
                                    node(
                                        0,
                                        seq![
                                            text_tree(s.fields.items()[i].0@),
                                            s.fields.items()[i].1.model(),
                                        ],
                                    )
                                } else {
                                    arbitrary()
                                },
                        ),
                    ),
                ],
            ),
            Value::UnitVariant(s) => node(11, seq![text_tree(s.name@), text_tree(s.variant@)]),
            Value::TupleVariant(s) => node(
                12,
                seq![
                    text_tree(s.name@),
                    text_tree(s.variant@),
                    node(
                        5,
                        Seq::new(
                            s.values@.len(),
                            |i: int|
                                if 0 <= i < s.values@.len() {
                                    s.values@[i].model()
                                } else {
                                    arbitrary()
                                },
                        ),
                    ),
                ],
            ),
            Value::NamedVariant(s) => node(
                13,
                seq![
                    text_tree(s.name@),
                    text_tree(s.variant@),
                    node(
                        6,
                        Seq::new(
                            s.fields.items().len(),
                            |i: int|
                                if 0 <= i < s.fields.items().len() {
                                    node(
                                        0,
                                        seq![
                                            text_tree(s.fields.items()[i].0@),
                                            s.fields.items()[i].1.model(),
                                        ],
                                    )
                                } else {
                                    arbitrary()
                                },
                        ),
                    ),
                ],
            ),
        }
    }

    /// The order of two values: the order of their models.
    pub open spec fn order(self, other: Value) -> Order {
        tree_order(self.model(), other.model())
    }

    /// `self` comes strictly before `other`.
    pub open spec fn before(self, other: Value) -> bool {
        self.order(other) == Order::Less
    }

    /// `self` and `other` are the same value.
    pub open spec fn same(self, other: Value) -> bool {
        self.model() == other.model()
    }
}

/// The model of each shape, written with the named parts.
pub proof fn lemma_model_by_shape(v: Value)
    ensures
        v.model().tag == v.tag(),
        v matches Value::Sequence(items) ==> v.model() == list_tree(items@),
        v matches Value::Tuple(items) ==> v.model() == node(7, models(items@)),
        v matches Value::Mapping(map) ==> v.model() == node(6, entry_models(map.items())),
        v matches Value::TupleStruct(s) ==> v.model() == node(
            9,
            seq![text_tree(s.name@), list_tree(s.values@)],
        ),
        v matches Value::NamedStruct(s) ==> v.model() == node(
            10,
            seq![text_tree(s.name@), fields_tree(s.fields.items())],
        ),
        v matches Value::TupleVariant(s) ==> v.model() == node(
            12,
            seq![text_tree(s.name@), text_tree(s.variant@), list_tree(s.values@)],
        ),
        v matches Value::NamedVariant(s) ==> v.model() == node(
            13,
            seq![text_tree(s.name@), text_tree(s.variant@), fields_tree(s.fields.items())],
        ),
{
    match v {
        Value::Sequence(items) => {
            assert(v.model().kids =~= models(items@));
        },
        Value::Tuple(items) => {
            assert(v.model().kids =~= models(items@));
        },
        Value::Mapping(map) => {
            assert(v.model().kids =~= entry_models(map.items()));
        },
        Value::TupleStruct(s) => {
            assert(v.model().kids[1].kids =~= models(s.values@));
            assert(v.model().kids =~= seq![text_tree(s.name@), list_tree(s.values@)]);
        },
        Value::NamedStruct(s) => {
            assert(v.model().kids[1].kids =~= field_models(s.fields.items()));
            assert(v.model().kids =~= seq![text_tree(s.name@), fields_tree(s.fields.items())]);
        },
        Value::TupleVariant(s) => {
            assert(v.model().kids[2].kids =~= models(s.values@));
            assert(v.model().kids =~= seq![
                text_tree(s.name@),
                text_tree(s.variant@),
                list_tree(s.values@),
            ]);
        },
        Value::NamedVariant(s) => {
            assert(v.model().kids[2].kids =~= field_models(s.fields.items()));
            assert(v.model().kids =~= seq![
                text_tree(s.name@),
                text_tree(s.variant@),
                fields_tree(s.fields.items()),
            ]);
        },
        _ => {},
    }
}

/// Values with the same model have the same text: the model leaves out
/// nothing that the text shows.
pub proof fn lemma_same_values_read_alike(x: Value, y: Value)
    requires
        x.model() == y.model(),
    ensures
        x.text() == y.text(),
    decreases x,
{
    lemma_model_by_shape(x);
    lemma_model_by_shape(y);
    lemma_text_by_shape(x);
    lemma_text_by_shape(y);
    match (x, y) {
        (Value::Bool(a), Value::Bool(b)) => {
            assert(x.model().atoms[0] == (if a {
                1int
            } else {
                0int
            }));
            assert(y.model().atoms[0] == (if b {
                1int
            } else {
                0int
            }));
        },
        (Value::Char(a), Value::Char(b)) => {
            assert(x.model().atoms[0] == a as int);
            assert(y.model().atoms[0] == b as int);
            assert(a as u32 == b as u32);
        },
        (Value::Number(a), Value::Number(b)) => {
            lemma_number_model_is_one_to_one(a, b);
        },
        (Value::String(a), Value::String(b)) => {
            lemma_text_tree_is_one_to_one(a@, b@);
        },
        (Value::Sequence(a), Value::Sequence(b)) => {
            assert(models(a@).len() == models(b@).len());
            assert forall|i: int| 0 <= i < a@.len() implies a@[i].text() == b@[i].text() by {
                assert(models(a@)[i] == models(b@)[i]);
                lemma_same_values_read_alike(a@[i], b@[i]);
            }
            assert(texts(a@) =~= texts(b@));
        },
        (Value::Tuple(a), Value::Tuple(b)) => {
            assert(models(a@).len() == models(b@).len());
            assert forall|i: int| 0 <= i < a@.len() implies a@[i].text() == b@[i].text() by {
                assert(models(a@)[i] == models(b@)[i]);
                lemma_same_values_read_alike(a@[i], b@[i]);
            }
            assert(texts(a@) =~= texts(b@));
        },
        (Value::Mapping(a), Value::Mapping(b)) => {
            let p = a.items();
            let q = b.items();
            assert(entry_models(p).len() == entry_models(q).len());
            assert forall|i: int| 0 <= i < p.len() implies pair_text(p[i].0.text(), p[i].1.text())
                == pair_text(q[i].0.text(), q[i].1.text()) by {
                assert(entry_models(p)[i] == entry_models(q)[i]);
                assert(entry_model(p[i]).kids[0] == p[i].0.model());
                assert(entry_model(q[i]).kids[0] == q[i].0.model());
                assert(entry_model(p[i]).kids[1] == p[i].1.model());
                assert(entry_model(q[i]).kids[1] == q[i].1.model());
                lemma_same_values_read_alike(p[i].0, q[i].0);
                lemma_same_values_read_alike(p[i].1, q[i].1);
            }
            assert(entry_texts(p) =~= entry_texts(q));
        },
        (Value::UnitStruct(a), Value::UnitStruct(b)) => {
            assert(x.model().kids[0] == text_tree(a.name@));
            assert(y.model().kids[0] == text_tree(b.name@));
            lemma_text_tree_is_one_to_one(a.name@, b.name@);
        },
        (Value::TupleStruct(a), Value::TupleStruct(b)) => {
            assert(x.model().kids[0] == text_tree(a.name@));
            assert(y.model().kids[0] == text_tree(b.name@));
            assert(x.model().kids[1].kids == y.model().kids[1].kids);
            lemma_text_tree_is_one_to_one(a.name@, b.name@);
            let p = a.values@;
            let q = b.values@;
            assert(models(p).len() == models(q).len());
            assert forall|i: int| 0 <= i < p.len() implies p[i].text() == q[i].text() by {
                assert(models(p)[i] == models(q)[i]);
                lemma_same_values_read_alike(p[i], q[i]);
            }
            assert(texts(p) =~= texts(q));
        },
        (Value::NamedStruct(a), Value::NamedStruct(b)) => {
            assert(x.model().kids[0] == text_tree(a.name@));
            assert(y.model().kids[0] == text_tree(b.name@));
            assert(x.model().kids[1].kids == y.model().kids[1].kids);
            lemma_text_tree_is_one_to_one(a.name@, b.name@);
            let p = a.fields.items();
            let q = b.fields.items();
            assert(field_models(p).len() == field_models(q).len());
            assert forall|i: int| 0 <= i < p.len() implies pair_text(p[i].0@, p[i].1.text())
                == pair_text(q[i].0@, q[i].1.text()) by {
                assert(field_models(p)[i] == field_models(q)[i]);
                assert(field_model(p[i]).kids[0] == text_tree(p[i].0@));
                assert(field_model(q[i]).kids[0] == text_tree(q[i].0@));
                assert(field_model(p[i]).kids[1] == p[i].1.model());
                assert(field_model(q[i]).kids[1] == q[i].1.model());
                lemma_text_tree_is_one_to_one(p[i].0@, q[i].0@);
                lemma_same_values_read_alike(p[i].1, q[i].1);
            }
            assert(field_texts(p) =~= field_texts(q));
        },
        (Value::UnitVariant(a), Value::UnitVariant(b)) => {
            assert(x.model().kids[0] == text_tree(a.name@));
            assert(y.model().kids[0] == text_tree(b.name@));
            assert(x.model().kids[1] == text_tree(a.variant@));
            assert(y.model().kids[1] == text_tree(b.variant@));
            lemma_text_tree_is_one_to_one(a.name@, b.name@);
            lemma_text_tree_is_one_to_one(a.variant@, b.variant@);
        },
        (Value::TupleVariant(a), Value::TupleVariant(b)) => {
            assert(x.model().kids[0] == text_tree(a.name@));
            assert(y.model().kids[0] == text_tree(b.name@));
            assert(x.model().kids[1] == text_tree(a.variant@));
            assert(y.model().kids[1] == text_tree(b.variant@));
            assert(x.model().kids[2].kids == y.model().kids[2].kids);
            lemma_text_tree_is_one_to_one(a.name@, b.name@);
            lemma_text_tree_is_one_to_one(a.variant@, b.variant@);
            let p = a.values@;
            let q = b.values@;
            assert(models(p).len() == models(q).len());
            assert forall|i: int| 0 <= i < p.len() implies p[i].text() == q[i].text() by {
                assert(models(p)[i] == models(q)[i]);
                lemma_same_values_read_alike(p[i], q[i]);
            }
            assert(texts(p) =~= texts(q));
        },
        (Value::NamedVariant(a), Value::NamedVariant(b)) => {
            assert(x.model().kids[0] == text_tree(a.name@));
            assert(y.model().kids[0] == text_tree(b.name@));
            assert(x.model().kids[1] == text_tree(a.variant@));
            assert(y.model().kids[1] == text_tree(b.variant@));
            assert(x.model().kids[2].kids == y.model().kids[2].kids);
            lemma_text_tree_is_one_to_one(a.name@, b.name@);
            lemma_text_tree_is_one_to_one(a.variant@, b.variant@);
            let p = a.fields.items();
            let q = b.fields.items();
            assert(field_models(p).len() == field_models(q).len());
            assert forall|i: int| 0 <= i < p.len() implies pair_text(p[i].0@, p[i].1.text())
                == pair_text(q[i].0@, q[i].1.text()) by {
                assert(field_models(p)[i] == field_models(q)[i]);
                assert(field_model(p[i]).kids[0] == text_tree(p[i].0@));
                assert(field_model(q[i]).kids[0] == text_tree(q[i].0@));
                assert(field_model(p[i]).kids[1] == p[i].1.model());
                assert(field_model(q[i]).kids[1] == q[i].1.model());
                lemma_text_tree_is_one_to_one(p[i].0@, q[i].0@);
                lemma_same_values_read_alike(p[i].1, q[i].1);
            }
            assert(field_texts(p) =~= field_texts(q));
        },
        _ => {},
    }
}

} // verus!
