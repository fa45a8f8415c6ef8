//! The text of a value: a fixed, readable form for diagnostics.
//!
//! Primitives are written as literals, a sequence between square brackets,
//! a map between braces as `key: value` pairs, a tuple between round
//! brackets, a named shape as its name followed by its fields, and a variant
//! as the name of its enum, `::` and its own name.
use crate::text::{bool_to_text, char_debug_text, str_debug_text};
use crate::value::Value;
use vstd::prelude::*;
use vstd::string::*;

verus! {

/// The texts joined, with `sep` between each two of them.
pub open spec fn joined(parts: Seq<Seq<char>>, sep: Seq<char>) -> Seq<char>
    decreases parts.len(),
{
    if parts.len() == 0 {
        Seq::empty()
    } else if parts.len() == 1 {
        parts[0]
    } else {
        joined(parts.drop_last(), sep) + sep + parts.last()
    }
}

/// What stands between two parts of a list.
pub open spec fn comma() -> Seq<char> {
    seq![',', ' ']
}

/// What stands between a key and its value.
pub open spec fn colon() -> Seq<char> {
    seq![':', ' ']
}

/// What stands between the name of an enum and the name of a variant.
pub open spec fn path_mark() -> Seq<char> {
    seq![':', ':']
}

/// A key and its value.
pub open spec fn pair_text(key: Seq<char>, value: Seq<char>) -> Seq<char> {
    key + colon() + value
}

/// The name of an enum and the name of one of its variants.
pub open spec fn path_text(name: Seq<char>, variant: Seq<char>) -> Seq<char> {
    name + path_mark() + variant
}

/// The parts of a sequence between square brackets.
pub open spec fn list_text(parts: Seq<Seq<char>>) -> Seq<char> {
    seq!['['] + joined(parts, comma()) + seq![']']
}

/// The pairs of a map between braces.
pub open spec fn map_text(parts: Seq<Seq<char>>) -> Seq<char> {
    seq!['{'] + joined(parts, comma()) + seq!['}']
}

/// A name and its unnamed fields between round brackets. Without fields
/// only the name is written; a single field after an empty name is
/// followed by a comma.
pub open spec fn tuple_text(name: Seq<char>, parts: Seq<Seq<char>>) -> Seq<char> {
    if parts.len() == 0 {
        name
    } else if parts.len() == 1 && name.len() == 0 {
        name + seq!['('] + joined(parts, comma()) + seq![',', ')']
    } else {
        name + seq!['('] + joined(parts, comma()) + seq![')']
    }
}

/// A name and its named fields between braces. Without fields only the name
/// is written.
pub open spec fn struct_text(name: Seq<char>, parts: Seq<Seq<char>>) -> Seq<char> {
    if parts.len() == 0 {
        name
    } else {
        name + seq![' ', '{', ' '] + joined(parts, comma()) + seq![' ', '}']
    }
}

/// The characters of each string.
pub open spec fn views(parts: Seq<String>) -> Seq<Seq<char>> {
    Seq::new(parts.len(), |i: int| parts[i]@)
}

/// The text of each value of a list.
pub open spec fn texts(items: Seq<Value>) -> Seq<Seq<char>> {
    Seq::new(items.len(), |i: int| items[i].text())
}

/// The text of each entry of a map of values.
pub open spec fn entry_texts(entries: Seq<(Value, Value)>) -> Seq<Seq<char>> {
    Seq::new(entries.len(), |i: int| pair_text(entries[i].0.text(), entries[i].1.text()))
}

/// The text of each entry of a map of fields.
pub open spec fn field_texts(entries: Seq<(&'static str, Value)>) -> Seq<Seq<char>> {
    Seq::new(entries.len(), |i: int| pair_text(entries[i].0@, entries[i].1.text()))
}

/// The parts of each compound shape, written with the named lists.
pub proof fn lemma_text_by_shape(v: Value)
    ensures
        v matches Value::Sequence(items) ==> v.parts() == texts(items@),
        v matches Value::Mapping(map) ==> v.parts() == entry_texts(map.items()),
        v matches Value::Tuple(items) ==> v.parts() == texts(items@),
        v matches Value::TupleStruct(s) ==> v.parts() == texts(s.values@),
        v matches Value::NamedStruct(s) ==> v.parts() == field_texts(s.fields.items()),
        v matches Value::TupleVariant(s) ==> v.parts() == texts(s.values@),
        v matches Value::NamedVariant(s) ==> v.parts() == field_texts(s.fields.items()),
{
    match v {
        Value::Sequence(items) => {
            assert(v.parts() =~= texts(items@));
        },
        Value::Mapping(map) => {
            assert(v.parts() =~= entry_texts(map.items()));
        },
        Value::Tuple(items) => {
            assert(v.parts() =~= texts(items@));
        },
        Value::TupleStruct(s) => {
            assert(v.parts() =~= texts(s.values@));
        },
        Value::NamedStruct(s) => {
            assert(v.parts() =~= field_texts(s.fields.items()));
        },
        Value::TupleVariant(s) => {
            assert(v.parts() =~= texts(s.values@));
        },
        Value::NamedVariant(s) => {
            assert(v.parts() =~= field_texts(s.fields.items()));
        },
        _ => {},
    }
}

/// Joins the texts, with `sep` between each two of them.
pub fn join_texts(parts: &Vec<String>, sep: &str) -> (r: String)
    ensures
        r@ == joined(views(parts@), sep@),
{
    let mut out = String::new();
    let mut i: usize = 0;
    while i < parts.len()
        invariant
            i <= parts@.len(),
            out@ == joined(views(parts@).subrange(0, i as int), sep@),
        decreases parts@.len() - i,
    {
        let ghost head = views(parts@).subrange(0, i as int);
        let ghost next = views(parts@).subrange(0, i + 1);
        assert(next.drop_last() =~= head);
        assert(next.last() == parts@[i as int]@);
        if i > 0 {
            out.append(sep);
        }
        out.append(parts[i].as_str());
        assert(out@ =~= joined(next, sep@));
        i += 1;
    }
    assert(views(parts@).subrange(0, i as int) =~= views(parts@));
    out
}

/// Writes a key and its value.
pub fn write_pair(key: &str, value: &str) -> (r: String)
    ensures
        r@ == pair_text(key@, value@),
{
    proof {
        reveal_strlit(": ");
    }
    let r = String::from_str(key).concat(": ").concat(value);
    assert(r@ =~= pair_text(key@, value@));
    r
}

/// Writes the name of an enum and the name of one of its variants.
pub fn write_path(name: &str, variant: &str) -> (r: String)
    ensures
        r@ == path_text(name@, variant@),
{
    proof {
        reveal_strlit("::");
    }
    let r = String::from_str(name).concat("::").concat(variant);
    assert(r@ =~= path_text(name@, variant@));
    r
}

/// Writes the parts of a sequence between square brackets.
pub fn write_list(parts: &Vec<String>) -> (r: String)
    ensures
        r@ == list_text(views(parts@)),
{
    proof {
        reveal_strlit("[");
        reveal_strlit("]");
        reveal_strlit(", ");
    }
    let body = join_texts(parts, ", ");
    let r = String::from_str("[").concat(body.as_str()).concat("]");
    assert(", "@ =~= comma());
    assert(r@ =~= list_text(views(parts@)));
    r
}

/// Writes the pairs of a map between braces.
pub fn write_map(parts: &Vec<String>) -> (r: String)
    ensures
        r@ == map_text(views(parts@)),
{
    proof {
        reveal_strlit("{");
        reveal_strlit("}");
        reveal_strlit(", ");
    }
    let body = join_texts(parts, ", ");
    let r = String::from_str("{").concat(body.as_str()).concat("}");
    assert(", "@ =~= comma());
    assert(r@ =~= map_text(views(parts@)));
    r
}

/// Writes a name and its unnamed fields.
pub fn write_tuple(name: &str, parts: &Vec<String>) -> (r: String)
    ensures
        r@ == tuple_text(name@, views(parts@)),
{
    proof {
        reveal_strlit("(");
        reveal_strlit(")");
        reveal_strlit(",)");
        reveal_strlit(", ");
    }
    if parts.len() == 0 {
        return String::from_str(name);
    }
    let body = join_texts(parts, ", ");
    assert(", "@ =~= comma());
    let open = String::from_str(name).concat("(").concat(body.as_str());
    let r = if parts.len() == 1 && name.is_empty() {
        open.concat(",)")
    } else {
        open.concat(")")
    };
    assert(r@ =~= tuple_text(name@, views(parts@)));
    r
}

/// Writes a name and its named fields.
pub fn write_struct(name: &str, parts: &Vec<String>) -> (r: String)
    ensures
        r@ == struct_text(name@, views(parts@)),
{
    proof {
        reveal_strlit(" { ");
        reveal_strlit(" }");
        reveal_strlit(", ");
    }
    if parts.len() == 0 {
        return String::from_str(name);
    }
    let body = join_texts(parts, ", ");
    assert(", "@ =~= comma());
    let r = String::from_str(name).concat(" { ").concat(body.as_str()).concat(" }");
    assert(r@ =~= struct_text(name@, views(parts@)));
    r
}

/// Writes each value of a list.
pub fn render_values(items: &Vec<Value>) -> (r: Vec<String>)
    ensures
        views(r@) == texts(items@),
    decreases items,
{
    let mut out: Vec<String> = Vec::new();
    let mut i: usize = 0;
    while i < items.len()
        invariant
            i <= items@.len(),
            out@.len() == i,
            forall|j: int| 0 <= j < i ==> (#[trigger] out@[j])@ == items@[j].text(),
        decreases items@.len() - i,
    {
        out.push(items[i].render());
        i += 1;
    }
    assert(views(out@) =~= texts(items@));
    out
}

/// Writes each entry of a map of values.
pub fn render_entries(entries: &Vec<(Value, Value)>) -> (r: Vec<String>)
    ensures
        views(r@) == entry_texts(entries@),
    decreases entries,
{
    let mut out: Vec<String> = Vec::new();
    let mut i: usize = 0;
    while i < entries.len()
        invariant
            i <= entries@.len(),
            out@.len() == i,
            forall|j: int|
                0 <= j < i ==> (#[trigger] out@[j])@ == pair_text(
                    entries@[j].0.text(),
                    entries@[j].1.text(),
                ),
        decreases entries@.len() - i,
    {
        let key = entries[i].0.render();
        let value = entries[i].1.render();
        out.push(write_pair(key.as_str(), value.as_str()));
        i += 1;
    }
    assert(views(out@) =~= entry_texts(entries@));
    out
}

/// Writes each entry of a map of fields.
pub fn render_fields(entries: &Vec<(&'static str, Value)>) -> (r: Vec<String>)
    ensures
        views(r@) == field_texts(entries@),
    decreases entries,
{
    let mut out: Vec<String> = Vec::new();
    let mut i: usize = 0;
    while i < entries.len()
        invariant
            i <= entries@.len(),
            out@.len() == i,
            forall|j: int|
                0 <= j < i ==> (#[trigger] out@[j])@ == pair_text(
                    entries@[j].0@,
                    entries@[j].1.text(),
                ),
        decreases entries@.len() - i,
    {
        let value = entries[i].1.render();
        out.push(write_pair(entries[i].0, value.as_str()));
        i += 1;
    }
    assert(views(out@) =~= field_texts(entries@));
    out
}

impl Value {
    /// Writes the value.
    pub fn render(&self) -> (r: String)
        ensures
            r@ == self.text(),
        decreases self,
    {
        proof {
            lemma_text_by_shape(*self);
            reveal_strlit("()");
            reveal_strlit("");
        }
        match self {
            Value::Unit => {
                let r = String::from_str("()");
                assert(r@ =~= seq!['(', ')']);
                r
            },
            Value::Bool(b) => bool_to_text(*b),
            Value::Char(c) => char_debug_text(*c),
            Value::Number(n) => n.render(),
            Value::String(s) => str_debug_text(s.as_str()),
            Value::Sequence(items) => {
                let parts = render_values(items);
                write_list(&parts)
            },
            Value::Mapping(map) => {
                let parts = map.render_parts();
                write_map(&parts)
            },
            Value::Tuple(items) => {
                let parts = render_values(items);
                assert(""@ =~= Seq::<char>::empty());
                write_tuple("", &parts)
            },
            Value::UnitStruct(s) => String::from_str(s.name),
            Value::TupleStruct(s) => {
                let parts = render_values(&s.values);
                write_tuple(s.name, &parts)
            },
            Value::NamedStruct(s) => {
                let parts = s.fields.render_parts();
                write_struct(s.name, &parts)
            },
            Value::UnitVariant(s) => write_path(s.name, s.variant),
            Value::TupleVariant(s) => {
                let path = write_path(s.name, s.variant);
                let parts = render_values(&s.values);
                write_tuple(path.as_str(), &parts)
            },
            Value::NamedVariant(s) => {
                let path = write_path(s.name, s.variant);
                let parts = s.fields.render_parts();
                write_struct(path.as_str(), &parts)
            },
        }
    }
}

} // verus!
