use vstd::prelude::*;

use crate::error::Error;
use crate::ext::ExtSerializer;
use crate::value::{Integer, Node, Utf8String, Value, ext_struct_name, variant_node};

verus! {

/// Relies on `char::to_string`: a string that holds exactly the one character.
#[verifier::external_body]
fn char_to_string(c: char) -> (r: String)
    ensures
        r@ == seq![c],
{
    c.to_string()
}

/// An owned copy of a byte slice.
pub(crate) fn copy_bytes(b: &[u8]) -> (r: Vec<u8>)
    ensures
        r@ == b@,
{
    let mut out: Vec<u8> = Vec::with_capacity(b.len());
    let mut i: usize = 0;
    while i < b.len()
        invariant
            i <= b@.len(),
            out@ == b@.subrange(0, i as int),
        decreases b@.len() - i,
    {
        out.push(b[i]);
        i += 1;
        proof {
            assert(out@ =~= b@.subrange(0, i as int));
        }
    }
    proof {
        assert(out@ =~= b@);
    }
    out
}

/// Whether `name` is the reserved newtype name.
pub(crate) fn is_ext_struct_name(name: &str) -> (r: bool)
    ensures
        r == (name@ == ext_struct_name()),
{
    let reserved: String = crate::value::MSGPACK_EXT_STRUCT_NAME.to_owned();
    let given: String = name.to_owned();
    given == reserved
}

/// The value assembler: each call of the serialization protocol becomes one
/// node of the tree. It holds no state.
pub struct Serializer;

impl Serializer {
    pub fn serialize_bool(self, v: bool) -> (r: Value)
        ensures
            r.deep() == Node::Boolean(v),
    {
        Value::Boolean(v)
    }

    pub fn serialize_i8(self, v: i8) -> (r: Value)
        ensures
            r.deep() == Node::Integer(v as int),
    {
        self.serialize_i64(v as i64)
    }

    pub fn serialize_i16(self, v: i16) -> (r: Value)
        ensures
            r.deep() == Node::Integer(v as int),
    {
        self.serialize_i64(v as i64)
    }

    pub fn serialize_i32(self, v: i32) -> (r: Value)
        ensures
            r.deep() == Node::Integer(v as int),
    {
        self.serialize_i64(v as i64)
    }

    pub fn serialize_i64(self, v: i64) -> (r: Value)
        ensures
            r.deep() == Node::Integer(v as int),
    {
        Value::Integer(Integer::from_i64(v))
    }

    pub fn serialize_u8(self, v: u8) -> (r: Value)
        ensures
            r.deep() == Node::Integer(v as int),
    {
        self.serialize_u64(v as u64)
    }

    pub fn serialize_u16(self, v: u16) -> (r: Value)
        ensures
            r.deep() == Node::Integer(v as int),
    {
        self.serialize_u64(v as u64)
    }

    pub fn serialize_u32(self, v: u32) -> (r: Value)
        ensures
            r.deep() == Node::Integer(v as int),
    {
        self.serialize_u64(v as u64)
    }

    pub fn serialize_u64(self, v: u64) -> (r: Value)
        ensures
            r.deep() == Node::Integer(v as int),
    {
        Value::Integer(Integer::from_u64(v))
    }

    /// A single-precision float, given by its bit pattern.
    pub fn serialize_f32(self, bits: u32) -> (r: Value)
        ensures
            r.deep() == Node::F32(bits),
    {
        Value::F32(bits)
    }

    /// A double-precision float, given by its bit pattern.
    pub fn serialize_f64(self, bits: u64) -> (r: Value)
        ensures
            r.deep() == Node::F64(bits),
    {
        Value::F64(bits)
    }

    pub fn serialize_char(self, c: char) -> (r: Value)
        ensures
            r.deep() == Node::Text(seq![c]),
    {
        let s = char_to_string(c);
        self.serialize_str(s.as_str())
    }

    pub fn serialize_str(self, s: &str) -> (r: Value)
        ensures
            r.deep() == Node::Text(s@),
    {
        Value::String(Utf8String::Text(s.to_owned()))
    }

    pub fn serialize_bytes(self, b: &[u8]) -> (r: Value)
        ensures
            r.deep() == Node::Binary(b@),
    {
        Value::Binary(copy_bytes(b))
    }

    pub fn serialize_unit(self) -> (r: Value)
        ensures
            r.deep() == Node::Nil,
    {
        Value::Nil
    }

    pub fn serialize_none(self) -> (r: Value)
        ensures
            r.deep() == Node::Nil,
    {
        self.serialize_unit()
    }

    /// A unit struct becomes an empty array, not nil.
    pub fn serialize_unit_struct(self) -> (r: Value)
        ensures
            r.deep() == Node::Array(Seq::empty()),
    {
        let r = Value::Array(Vec::new());
        proof {
            assert(r.deep()->Array_0 =~= Seq::<Node>::empty());
        }
        r
    }

    /// A field-less enum alternative becomes `[idx, []]`.
    pub fn serialize_unit_variant(self, idx: u32) -> (r: Value)
        ensures
            r.deep() == variant_node(idx, Seq::empty()),
    {
        let fields = self.serialize_unit_struct();
        let mut v: Vec<Value> = Vec::new();
        v.push(Serializer.serialize_u32(idx));
        v.push(fields);
        let r = Value::Array(v);
        proof {
            assert(r.deep()->Array_0 =~= variant_node(idx, Seq::empty())->Array_0);
        }
        r
    }

    /// Where a newtype struct, or a single-field enum alternative, goes: the
    /// reserved name opens an extension capture, any other name converts the
    /// field itself.
    pub fn extension_capture(self, name: &str) -> (r: Option<ExtSerializer>)
        ensures
            r is Some <==> name@ == ext_struct_name(),
            r matches Some(se) ==> se@ is None,
    {
        if is_ext_struct_name(name) {
            Some(ExtSerializer::new())
        } else {
            None
        }
    }

    /// A single-field enum alternative, its field already converted, becomes
    /// `[idx, [field]]`.
    pub fn serialize_newtype_variant(self, idx: u32, field: Value) -> (r: Value)
        ensures
            r.deep() == variant_node(idx, seq![field.deep()]),
    {
        let ghost f = field.deep();
        let mut args: Vec<Value> = Vec::new();
        args.push(field);
        let args = Value::Array(args);
        proof {
            assert(args.deep()->Array_0 =~= seq![f]);
        }
        let mut v: Vec<Value> = Vec::new();
        v.push(Serializer.serialize_u32(idx));
        v.push(args);
        let r = Value::Array(v);
        proof {
            assert(r.deep()->Array_0 =~= variant_node(idx, seq![f])->Array_0);
        }
        r
    }

    /// A sequence; the length, when known, only sizes the storage.
    pub fn serialize_seq(self, len: Option<usize>) -> (r: SerializeVec)
        ensures
            r@ == Seq::<Node>::empty(),
    {
        SerializeVec::with_len(len.unwrap_or(0))
    }

    pub fn serialize_tuple(self, len: usize) -> (r: SerializeVec)
        ensures
            r@ == Seq::<Node>::empty(),
    {
        self.serialize_seq(Some(len))
    }

    pub fn serialize_tuple_struct(self, len: usize) -> (r: SerializeVec)
        ensures
            r@ == Seq::<Node>::empty(),
    {
        self.serialize_tuple(len)
    }

    /// A struct: its fields become an array, their names are dropped.
    pub fn serialize_struct(self, len: usize) -> (r: SerializeVec)
        ensures
            r@ == Seq::<Node>::empty(),
    {
        self.serialize_tuple_struct(len)
    }

    pub fn serialize_tuple_variant(self, idx: u32, len: usize) -> (r: SerializeTupleVariant)
        ensures
            r.index() == idx,
            r@ == Seq::<Node>::empty(),
    {
        SerializeTupleVariant { idx, vec: Vec::with_capacity(len) }
    }

    pub fn serialize_map(self, len: Option<usize>) -> (r: DefaultSerializeMap)
        ensures
            r@ == (Seq::<(Node, Node)>::empty(), None::<Node>),
    {
        DefaultSerializeMap { map: Vec::with_capacity(len.unwrap_or(0)), next_key: None }
    }

    pub fn serialize_struct_variant(self, idx: u32, len: usize) -> (r: SerializeStructVariant)
        ensures
            r.index() == idx,
            r@ == Seq::<Node>::empty(),
    {
        SerializeStructVariant { idx, vec: Vec::with_capacity(len) }
    }
}

/// The models of a list of values.
pub open spec fn nodes_of(v: Seq<Value>) -> Seq<Node> {
    v.map_values(|x: Value| x.deep())
}

/// Builder of an array: a sequence, tuple, tuple struct or struct.
pub struct SerializeVec {
    vec: Vec<Value>,
}

impl View for SerializeVec {
    type V = Seq<Node>;

    closed spec fn view(&self) -> Seq<Node> {
        nodes_of(self.vec@)
    }
}

/// The array of an element list, its models being `nodes_of(v@)`.
proof fn lemma_array_of(v: Vec<Value>)
    ensures
        Value::Array(v).deep() == Node::Array(nodes_of(v@)),
{
    assert(Value::Array(v).deep()->Array_0 =~= nodes_of(v@));
}

proof fn lemma_push_nodes(v: Seq<Value>, x: Value)
    ensures
        nodes_of(v.push(x)) == nodes_of(v).push(x.deep()),
{
    assert(nodes_of(v.push(x)) =~= nodes_of(v).push(x.deep()));
}

impl SerializeVec {
    fn with_len(len: usize) -> (r: SerializeVec)
        ensures
            r@ == Seq::<Node>::empty(),
    {
        let r = SerializeVec { vec: Vec::with_capacity(len) };
        proof {
            assert(r@ =~= Seq::<Node>::empty());
        }
        r
    }

    /// Appends one converted element (or struct field).
    pub fn serialize_element(&mut self, value: Value)
        ensures
            final(self)@ == old(self)@.push(value.deep()),
    {
        proof {
            lemma_push_nodes(self.vec@, value);
        }
        self.vec.push(value);
    }

    pub fn end(self) -> (r: Value)
        ensures
            r.deep() == Node::Array(self@),
    {
        proof {
            lemma_array_of(self.vec);
        }
        Value::Array(self.vec)
    }
}

/// Builder of a tuple alternative of an enum: `[idx, [fields...]]`.
pub struct SerializeTupleVariant {
    idx: u32,
    vec: Vec<Value>,
}

impl View for SerializeTupleVariant {
    type V = Seq<Node>;

    closed spec fn view(&self) -> Seq<Node> {
        nodes_of(self.vec@)
    }
}

impl SerializeTupleVariant {
    /// The index of the alternative.
    pub closed spec fn index(&self) -> u32 {
        self.idx
    }

    pub fn serialize_field(&mut self, value: Value)
        ensures
            final(self).index() == old(self).index(),
            final(self)@ == old(self)@.push(value.deep()),
    {
        proof {
            lemma_push_nodes(self.vec@, value);
        }
        self.vec.push(value);
    }

    pub fn end(self) -> (r: Value)
        ensures
            r.deep() == variant_node(self.index(), self@),
    {
        variant_value(self.idx, self.vec)
    }
}

/// The value `[idx, fields]`.
fn variant_value(idx: u32, fields: Vec<Value>) -> (r: Value)
    ensures
        r.deep() == variant_node(idx, nodes_of(fields@)),
{
    proof {
        lemma_array_of(fields);
    }
    let mut v: Vec<Value> = Vec::new();
    v.push(Serializer.serialize_u32(idx));
    v.push(Value::Array(fields));
    let r = Value::Array(v);
    proof {
        assert(r.deep()->Array_0 =~= variant_node(idx, nodes_of(fields@))->Array_0);
    }
    r
}

/// Builder of a struct alternative of an enum: `[idx, [fields...]]`, the
/// field names dropped.
pub struct SerializeStructVariant {
    idx: u32,
    vec: Vec<Value>,
}

impl View for SerializeStructVariant {
    type V = Seq<Node>;

    closed spec fn view(&self) -> Seq<Node> {
        nodes_of(self.vec@)
    }
}

impl SerializeStructVariant {
    /// The index of the alternative.
    pub closed spec fn index(&self) -> u32 {
        self.idx
    }

    pub fn serialize_field(&mut self, value: Value)
        ensures
            final(self).index() == old(self).index(),
            final(self)@ == old(self)@.push(value.deep()),
    {
        proof {
            lemma_push_nodes(self.vec@, value);
        }
        self.vec.push(value);
    }

    pub fn end(self) -> (r: Value)
        ensures
            r.deep() == variant_node(self.index(), self@),
    {
        variant_value(self.idx, self.vec)
    }
}

/// The models of a list of key/value pairs.
pub open spec fn pairs_of(m: Seq<(Value, Value)>) -> Seq<(Node, Node)> {
    m.map_values(|p: (Value, Value)| (p.0.deep(), p.1.deep()))
}

/// Builder of a map: the pairs in the order supplied, repeated keys kept.
pub struct DefaultSerializeMap {
    map: Vec<(Value, Value)>,
    next_key: Option<Value>,
}

impl View for DefaultSerializeMap {
    /// The pairs so far, and the key that waits for its value.
    type V = (Seq<(Node, Node)>, Option<Node>);

    closed spec fn view(&self) -> (Seq<(Node, Node)>, Option<Node>) {
        (
            pairs_of(self.map@),
            match self.next_key {
                Some(k) => Some(k.deep()),
                None => None,
            },
        )
    }
}

impl DefaultSerializeMap {
    /// Holds the converted key until its value comes; a key that waited is
    /// replaced.
    pub fn serialize_key(&mut self, key: Value)
        ensures
            final(self)@ == (old(self)@.0, Some(key.deep())),
    {
        self.next_key = Some(key);
    }

    /// Whether a key waits for its value.
    pub fn has_pending_key(&self) -> (r: bool)
        ensures
            r == self@.1 is Some,
    {
        self.next_key.is_some()
    }

    /// Pairs the converted value with the waiting key. A value before its key
    /// breaks the protocol, so the key must wait.
    pub fn serialize_value(&mut self, value: Value)
        requires
            old(self)@.1 is Some,
        ensures
            final(self)@ == (old(self)@.0.push((old(self)@.1->0, value.deep())), None::<Node>),
    {
        let key = self.next_key.take().unwrap();
        proof {
            assert(pairs_of(self.map@.push((key, value))) =~= pairs_of(self.map@).push(
                (key.deep(), value.deep()),
            ));
        }
        self.map.push((key, value));
    }

    /// The map node; a key that still waits is dropped.
    pub fn end(self) -> (r: Value)
        ensures
            r.deep() == Node::Table(self@.0),
    {
        let r = Value::Table(self.map);
        proof {
            assert(r.deep()->Table_0 =~= self@.0);
        }
        r
    }
}

} // verus!
