//! Conversion of serialization-protocol calls into a MessagePack value tree.
//!
//! The `value` module holds the tree and its mathematical model, `error` the
//! single error kind, `ser` the value assembler with its composite builders,
//! `ext` the capture of extension values through the reserved newtype name,
//! and `reserialize` the conversion of a tree through its own serialization.

mod error;
mod ext;
mod reserialize;
mod ser;
mod value;

pub use error::{Error, expected_i8_and_bytes_msg, expected_tuple_msg, second_i8_msg};
pub use ext::{
    ExtFieldSerializer, ExtSerializer, FieldState, finish_fields, lemma_ext_fields_any_order,
    lemma_ext_full_rejects_more, lemma_ext_missing_field, take_bytes, take_tag,
};
pub use reserialize::{
    is_converted, lemma_reserialize_idempotent, lemma_reserialize_identity,
    lemma_reserialized_is_converted, reserialize, reserialized,
};
pub use ser::{
    DefaultSerializeMap, SerializeStructVariant, SerializeTupleVariant, SerializeVec, Serializer,
    nodes_of, pairs_of,
};
pub use value::{
    Integer, MSGPACK_EXT_STRUCT_NAME, Node, Utf8String, Value, ext_struct_name,
    lemma_integer_round_trip, node_as_i64, node_as_u64, variant_node,
};
