use vstd::prelude::*;

use crate::error::Error;
use crate::value::{MSGPACK_EXT_STRUCT_NAME, Node, Utf8String, Value};
use crate::ser::Serializer;

verus! {

/// The tree that converting a tree gives: a string node that kept invalid
/// bytes serializes them as bytes, so it comes back as binary; every other
/// node comes back as it was.
pub open spec fn reserialized(n: Node) -> Node
    decreases n,
{
    match n {
        Node::RawText(b) => Node::Binary(b),
        Node::Array(s) => Node::Array(
            Seq::new(
                s.len(),
                |i: int|
                    if 0 <= i < s.len() {
                        reserialized(s[i])
                    } else {
                        Node::Nil
                    },
            ),
        ),
        Node::Table(s) => Node::Table(
            Seq::new(
                s.len(),
                |i: int|
                    if 0 <= i < s.len() {
                        (reserialized(s[i].0), reserialized(s[i].1))
                    } else {
                        (Node::Nil, Node::Nil)
                    },
            ),
        ),
        _ => n,
    }
}

/// A tree as conversion makes it: no string node holds invalid bytes.
pub open spec fn is_converted(n: Node) -> bool
    decreases n,
{
    match n {
        Node::RawText(_) => false,
        Node::Array(s) => forall|i: int| 0 <= i < s.len() ==> is_converted(#[trigger] s[i]),
        Node::Table(s) => forall|i: int|
            0 <= i < s.len() ==> is_converted(#[trigger] s[i].0) && is_converted(s[i].1),
        _ => true,
    }
}

/// Converts a value tree by driving the assembler with the calls that the
/// tree's own serialization makes: a node at a time, arrays and maps through
/// their builders, extensions through the reserved newtype name.
pub fn reserialize(value: &Value) -> (r: Result<Value, Error>)
    ensures
        r matches Ok(w) && w.deep() == reserialized(value.deep()),
    decreases value,
{
    match value {
        Value::Nil => Ok(Serializer.serialize_unit()),
        Value::Boolean(b) => Ok(Serializer.serialize_bool(*b)),
        Value::Integer(i) => {
            proof {
                i.lemma_bounds();
            }
            match i.as_u64() {
                Some(u) => Ok(Serializer.serialize_u64(u)),
                None => Ok(Serializer.serialize_i64(i.as_i64().unwrap())),
            }
        },
        Value::F32(bits) => Ok(Serializer.serialize_f32(*bits)),
        Value::F64(bits) => Ok(Serializer.serialize_f64(*bits)),
        Value::String(Utf8String::Text(s)) => Ok(Serializer.serialize_str(s.as_str())),
        Value::String(Utf8String::Raw(b)) => Ok(Serializer.serialize_bytes(b.as_slice())),
        Value::Binary(b) => Ok(Serializer.serialize_bytes(b.as_slice())),
        Value::Array(a) => {
            let mut state = Serializer.serialize_seq(Some(a.len()));
            let mut i: usize = 0;
            while i < a.len()
                invariant
                    *value == Value::Array(*a),
                    i <= a@.len(),
                    state@.len() == i,
                    forall|j: int|
                        0 <= j < i ==> state@[j] == reserialized(#[trigger] a@[j].deep()),
                decreases a@.len() - i,
            {
                proof {
                    assert(decreases_to!(*value => value->Array_0));
                    assert(decreases_to!(value->Array_0 => value->Array_0@));
                    assert(decreases_to!(value->Array_0@ => value->Array_0@[i as int]));
                }
                match reserialize(&a[i]) {
                    Ok(item) => state.serialize_element(item),
                    Err(e) => return Err(e),
                }
                i += 1;
            }
            let r = state.end();
            proof {
                let s = value.deep()->Array_0;
                assert(s.len() == a@.len());
                assert forall|j: int| 0 <= j < s.len() implies s[j] == a@[j].deep() by {}
                assert(reserialized(value.deep())->Array_0 =~= state@);
            }
            Ok(r)
        },
        Value::Table(m) => {
            let mut state = Serializer.serialize_map(Some(m.len()));
            let mut i: usize = 0;
            while i < m.len()
                invariant
                    *value == Value::Table(*m),
                    i <= m@.len(),
                    state@.1 is None,
                    state@.0.len() == i,
                    forall|j: int|
                        0 <= j < i ==> state@.0[j] == (
                            reserialized(#[trigger] m@[j].0.deep()),
                            reserialized(m@[j].1.deep()),
                        ),
                decreases m@.len() - i,
            {
                proof {
                    assert(decreases_to!(*value => value->Table_0));
                    assert(decreases_to!(value->Table_0 => value->Table_0@));
                    assert(decreases_to!(value->Table_0@ => value->Table_0@[i as int]));
                    assert(decreases_to!(value->Table_0@[i as int] => value->Table_0@[i as int].0));
                    assert(decreases_to!(value->Table_0@[i as int] => value->Table_0@[i as int].1));
                }
                match reserialize(&m[i].0) {
                    Ok(key) => state.serialize_key(key),
                    Err(e) => return Err(e),
                }
                match reserialize(&m[i].1) {
                    Ok(val) => state.serialize_value(val),
                    Err(e) => return Err(e),
                }
                i += 1;
            }
            let r = state.end();
            proof {
                let s = value.deep()->Table_0;
                assert(s.len() == m@.len());
                assert forall|j: int| 0 <= j < s.len() implies s[j] == (
                    m@[j].0.deep(),
                    m@[j].1.deep(),
                ) by {}
                assert(reserialized(value.deep())->Table_0 =~= state@.0);
            }
            Ok(r)
        },
        Value::Ext(tag, buf) => {
            proof {
                reveal_strlit("_ExtStruct");
            }
            let mut se = Serializer.extension_capture(MSGPACK_EXT_STRUCT_NAME).unwrap();
            se.serialize_tuple(2);
            match se.element_i8(*tag) {
                Ok(()) => {},
                Err(e) => return Err(e),
            }
            match se.element_bytes(buf.as_slice()) {
                Ok(()) => {},
                Err(e) => return Err(e),
            }
            se.value()
        },
    }
}

/// Converting a tree that conversion made gives back the same tree, node for
/// node.
pub proof fn lemma_reserialize_identity(n: Node)
    requires
        is_converted(n),
    ensures
        reserialized(n) == n,
    decreases n,
{
    match n {
        Node::Array(s) => {
            assert forall|i: int| 0 <= i < s.len() implies reserialized(s[i]) == s[i] by {
                lemma_reserialize_identity(s[i]);
            }
            assert(reserialized(n)->Array_0 =~= s);
        },
        Node::Table(s) => {
            assert forall|i: int| 0 <= i < s.len() implies (
                reserialized(s[i].0),
                reserialized(s[i].1),
            ) == s[i] by {
                lemma_reserialize_identity(s[i].0);
                lemma_reserialize_identity(s[i].1);
            }
            assert(reserialized(n)->Table_0 =~= s);
        },
        _ => {},
    }
}

/// What conversion of any tree gives is a converted tree.
pub proof fn lemma_reserialized_is_converted(n: Node)
    ensures
        is_converted(reserialized(n)),
    decreases n,
{
    match n {
        Node::Array(s) => {
            let t = reserialized(n)->Array_0;
            assert forall|i: int| 0 <= i < t.len() implies is_converted(#[trigger] t[i]) by {
                lemma_reserialized_is_converted(s[i]);
            }
        },
        Node::Table(s) => {
            let t = reserialized(n)->Table_0;
            assert forall|i: int| 0 <= i < t.len() implies is_converted(#[trigger] t[i].0)
                && is_converted(t[i].1) by {
                lemma_reserialized_is_converted(s[i].0);
                lemma_reserialized_is_converted(s[i].1);
            }
        },
        _ => {},
    }
}

/// Conversion is idempotent: converting a converted tree once more changes
/// nothing.
pub proof fn lemma_reserialize_idempotent(n: Node)
    ensures
        reserialized(reserialized(n)) == reserialized(n),
{
    lemma_reserialized_is_converted(n);
    lemma_reserialize_identity(reserialized(n));
}

} // verus!
