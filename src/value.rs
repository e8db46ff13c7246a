use vstd::prelude::*;

verus! {

/// Newtype name under which a value asks to become an extension node.
pub const MSGPACK_EXT_STRUCT_NAME: &'static str = "_ExtStruct";

/// The reserved newtype name, as characters.
pub open spec fn ext_struct_name() -> Seq<char> {
    "_ExtStruct"@
}

/// Mathematical model of a value tree.
pub enum Node {
    Nil,
    Boolean(bool),
    Integer(int),
    /// IEEE 754 single precision, as its bit pattern.
    F32(u32),
    /// IEEE 754 double precision, as its bit pattern.
    F64(u64),
    /// A string node whose payload is valid UTF-8 text.
    Text(Seq<char>),
    /// A string node that kept bytes which failed UTF-8 validation.
    RawText(Seq<u8>),
    Binary(Seq<u8>),
    Array(Seq<Node>),
    Table(Seq<(Node, Node)>),
    Ext(i8, Seq<u8>),
}

/// The encoding of an enum alternative: `[index, [fields...]]`.
pub open spec fn variant_node(idx: u32, fields: Seq<Node>) -> Node {
    Node::Array(seq![Node::Integer(idx as int), Node::Array(fields)])
}

/// The integer of a node, when it is an integer that fits in `i64`.
pub open spec fn node_as_i64(n: Node) -> Option<i64> {
    match n {
        Node::Integer(i) => if i64::MIN <= i <= i64::MAX {
            Some(i as i64)
        } else {
            None
        },
        _ => None,
    }
}

/// The integer of a node, when it is an integer that fits in `u64`.
pub open spec fn node_as_u64(n: Node) -> Option<u64> {
    match n {
        Node::Integer(i) => if 0 <= i <= u64::MAX {
            Some(i as u64)
        } else {
            None
        },
        _ => None,
    }
}

#[derive(Debug, Clone, Copy, PartialEq, Eq)]
enum IntPriv {
    /// Always non-negative.
    PosInt(u64),
    /// Always negative.
    NegInt(i64),
}

/// A MessagePack integer: a `u64` or a negative `i64`.
#[derive(Debug, Clone, Copy, PartialEq, Eq)]
pub struct Integer {
    n: IntPriv,
}

impl View for Integer {
    type V = int;

    closed spec fn view(&self) -> int {
        match self.n {
            IntPriv::PosInt(v) => v as int,
            IntPriv::NegInt(v) => v as int,
        }
    }
}

impl Integer {
    pub fn from_i64(v: i64) -> (r: Integer)
        ensures
            r@ == v as int,
    {
        if v < 0 {
            Integer { n: IntPriv::NegInt(v) }
        } else {
            Integer { n: IntPriv::PosInt(v as u64) }
        }
    }

    pub fn from_u64(v: u64) -> (r: Integer)
        ensures
            r@ == v as int,
    {
        Integer { n: IntPriv::PosInt(v) }
    }

    /// Every integer fits in `i64` or in `u64`.
    pub proof fn lemma_bounds(&self)
        ensures
            i64::MIN <= self@ <= u64::MAX,
    {
    }

    pub fn as_i64(&self) -> (r: Option<i64>)
        ensures
            r == node_as_i64(Node::Integer(self@)),
    {
        match self.n {
            IntPriv::PosInt(v) => if v <= i64::MAX as u64 {
                Some(v as i64)
            } else {
                None
            },
            IntPriv::NegInt(v) => Some(v),
        }
    }

    pub fn as_u64(&self) -> (r: Option<u64>)
        ensures
            r == node_as_u64(Node::Integer(self@)),
    {
        match self.n {
            IntPriv::PosInt(v) => Some(v),
            IntPriv::NegInt(v) => if v >= 0 {
                Some(v as u64)
            } else {
                None
            },
        }
    }
}

/// The payload of a string node: text, or the bytes that failed UTF-8 validation.
#[derive(Debug, PartialEq)]
pub enum Utf8String {
    Text(String),
    Raw(Vec<u8>),
}

/// A MessagePack value tree.
#[derive(Debug, PartialEq)]
pub enum Value {
    Nil,
    Boolean(bool),
    Integer(Integer),
    /// IEEE 754 single precision, as its bit pattern.
    F32(u32),
    /// IEEE 754 double precision, as its bit pattern.
    F64(u64),
    String(Utf8String),
    Binary(Vec<u8>),
    Array(Vec<Value>),
    /// Key/value pairs in the order in which they were supplied.
    Table(Vec<(Value, Value)>),
    Ext(i8, Vec<u8>),
}

impl Value {
    /// The model of the tree.
    pub open spec fn deep(&self) -> Node
        decreases self,
    {
        match self {
            Value::Nil => Node::Nil,
            Value::Boolean(b) => Node::Boolean(*b),
            Value::Integer(i) => Node::Integer(i@),
            Value::F32(bits) => Node::F32(*bits),
            Value::F64(bits) => Node::F64(*bits),
            Value::String(Utf8String::Text(s)) => Node::Text(s@),
            Value::String(Utf8String::Raw(b)) => Node::RawText(b@),
            Value::Binary(b) => Node::Binary(b@),
            Value::Array(a) => Node::Array(
                Seq::new(
                    a@.len(),
                    |i: int|
                        if 0 <= i < a@.len() {
                            a@[i].deep()
                        } else {
                            Node::Nil
                        },
                ),
            ),
            Value::Table(m) => Node::Table(
                Seq::new(
                    m@.len(),
                    |i: int|
                        if 0 <= i < m@.len() {
                            (m@[i].0.deep(), m@[i].1.deep())
                        } else {
                            (Node::Nil, Node::Nil)
                        },
                ),
            ),
            Value::Ext(tag, b) => Node::Ext(*tag, b@),
        }
    }

    /// The integer of the value, when it is an integer that fits in `i64`.
    pub fn as_i64(&self) -> (r: Option<i64>)
        ensures
            r == node_as_i64(self.deep()),
    {
        match self {
            Value::Integer(i) => i.as_i64(),
            _ => None,
        }
    }

    /// The integer of the value, when it is an integer that fits in `u64`.
    pub fn as_u64(&self) -> (r: Option<u64>)
        ensures
            r == node_as_u64(self.deep()),
    {
        match self {
            Value::Integer(i) => i.as_u64(),
            _ => None,
        }
    }
}

/// Reading an integer node back gives the integer that was put in, in its
/// own sign class: a negative one is no `u64`.
pub proof fn lemma_integer_round_trip(s: i64, u: u64)
    ensures
        node_as_i64(Node::Integer(s as int)) == Some(s),
        node_as_u64(Node::Integer(u as int)) == Some(u),
        s < 0 ==> node_as_u64(Node::Integer(s as int)) is None,
        u > i64::MAX ==> node_as_i64(Node::Integer(u as int)) is None,
{
}

} // verus!
