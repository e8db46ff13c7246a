use vstd::prelude::*;

use crate::error::{Error, expected_i8_and_bytes_msg, expected_tuple_msg, second_i8_msg};
use crate::ser::copy_bytes;
use crate::value::{Node, Value};

verus! {

/// What the two slots of an extension tuple hold: the tag and the payload.
pub type FieldState = (Option<i8>, Option<Seq<u8>>);

/// The tag slot takes `tag`, once.
pub open spec fn take_tag(s: FieldState, tag: i8) -> Result<FieldState, Seq<char>> {
    if s.0 is None {
        Ok((Some(tag), s.1))
    } else {
        Err(second_i8_msg())
    }
}

/// The payload slot takes `bytes`, once.
pub open spec fn take_bytes(s: FieldState, bytes: Seq<u8>) -> Result<FieldState, Seq<char>> {
    if s.1 is None {
        Ok((s.0, Some(bytes)))
    } else {
        Err(expected_i8_and_bytes_msg())
    }
}

/// The extension node of two full slots; anything else is an error.
pub open spec fn finish_fields(s: FieldState) -> Result<Node, Seq<char>> {
    match s {
        (Some(tag), Some(bytes)) => Ok(Node::Ext(tag, bytes)),
        _ => Err(expected_i8_and_bytes_msg()),
    }
}

/// Inner stage of an extension capture: takes one `i8` tag and one byte
/// payload, in either order, and nothing else.
pub struct ExtFieldSerializer {
    tag: Option<i8>,
    binary: Option<Vec<u8>>,
}

impl View for ExtFieldSerializer {
    type V = FieldState;

    closed spec fn view(&self) -> FieldState {
        (
            self.tag,
            match self.binary {
                Some(b) => Some(b@),
                None => None,
            },
        )
    }
}

impl ExtFieldSerializer {
    pub fn new() -> (r: ExtFieldSerializer)
        ensures
            r@ == (None::<i8>, None::<Seq<u8>>),
    {
        ExtFieldSerializer { tag: None, binary: None }
    }

    /// A field that is an `i8`: the tag.
    pub fn serialize_i8(&mut self, value: i8) -> (r: Result<(), Error>)
        ensures
            match take_tag(old(self)@, value) {
                Ok(s) => r is Ok && final(self)@ == s,
                Err(m) => r matches Err(e) && e@ == m && final(self)@ == old(self)@,
            },
    {
        if self.tag.is_none() {
            self.tag = Some(value);
            Ok(())
        } else {
            Err(Error::second_i8())
        }
    }

    /// A field that is a byte string: the payload.
    pub fn serialize_bytes(&mut self, value: &[u8]) -> (r: Result<(), Error>)
        ensures
            match take_bytes(old(self)@, value@) {
                Ok(s) => r is Ok && final(self)@ == s,
                Err(m) => r matches Err(e) && e@ == m && final(self)@ == old(self)@,
            },
    {
        if self.binary.is_none() {
            self.binary = Some(copy_bytes(value));
            Ok(())
        } else {
            Err(Error::expected_i8_and_bytes())
        }
    }

    /// A field of any other shape.
    pub fn serialize_other(&self) -> (r: Error)
        ensures
            r@ == expected_i8_and_bytes_msg(),
    {
        Error::expected_i8_and_bytes()
    }

    pub fn value(self) -> (r: Result<Value, Error>)
        ensures
            match finish_fields(self@) {
                Ok(n) => r matches Ok(v) && v.deep() == n,
                Err(m) => r matches Err(e) && e@ == m,
            },
    {
        match (self.tag, self.binary) {
            (Some(tag), Some(binary)) => Ok(Value::Ext(tag, binary)),
            _ => Err(Error::expected_i8_and_bytes()),
        }
    }
}

/// Outer stage of an extension capture: takes one tuple, whose elements go to
/// an `ExtFieldSerializer`.
pub struct ExtSerializer {
    fields_se: Option<ExtFieldSerializer>,
}

impl View for ExtSerializer {
    /// `None` until the tuple opens, then the state of its slots.
    type V = Option<FieldState>;

    closed spec fn view(&self) -> Option<FieldState> {
        match self.fields_se {
            Some(f) => Some(f@),
            None => None,
        }
    }
}

impl ExtSerializer {
    pub fn new() -> (r: ExtSerializer)
        ensures
            r@ is None,
    {
        ExtSerializer { fields_se: None }
    }

    /// Opens the tuple, with both slots empty. Its declared length is not
    /// checked: a slot takes one field, so a third field always fails.
    pub fn serialize_tuple(&mut self, _len: usize)
        ensures
            final(self)@ == Some((None::<i8>, None::<Seq<u8>>)),
    {
        self.fields_se = Some(ExtFieldSerializer::new());
    }

    /// Any call but a tuple.
    pub fn serialize_other(&self) -> (r: Error)
        ensures
            r@ == expected_tuple_msg(),
    {
        Error::expected_tuple()
    }

    /// An element of the tuple that is an `i8`. Before the tuple opens, there
    /// is no slot and the error has an empty message.
    pub fn element_i8(&mut self, value: i8) -> (r: Result<(), Error>)
        ensures
            match old(self)@ {
                None => r matches Err(e) && e@ == Seq::<char>::empty() && final(self)@ == old(
                    self,
                )@,
                Some(f) => match take_tag(f, value) {
                    Ok(s) => r is Ok && final(self)@ == Some(s),
                    Err(m) => r matches Err(e) && e@ == m && final(self)@ == old(self)@,
                },
            },
    {
        match self.fields_se.take() {
            Some(mut se) => {
                let r = se.serialize_i8(value);
                self.fields_se = Some(se);
                r
            },
            None => Err(Error::Syntax(String::new())),
        }
    }

    /// An element of the tuple that is a byte string.
    pub fn element_bytes(&mut self, value: &[u8]) -> (r: Result<(), Error>)
        ensures
            match old(self)@ {
                None => r matches Err(e) && e@ == Seq::<char>::empty() && final(self)@ == old(
                    self,
                )@,
                Some(f) => match take_bytes(f, value@) {
                    Ok(s) => r is Ok && final(self)@ == Some(s),
                    Err(m) => r matches Err(e) && e@ == m && final(self)@ == old(self)@,
                },
            },
    {
        match self.fields_se.take() {
            Some(mut se) => {
                let r = se.serialize_bytes(value);
                self.fields_se = Some(se);
                r
            },
            None => Err(Error::Syntax(String::new())),
        }
    }

    /// An element of the tuple of any other shape.
    pub fn element_other(&self) -> (r: Error)
        ensures
            r@ == match self@ {
                None => Seq::<char>::empty(),
                Some(_) => expected_i8_and_bytes_msg(),
            },
    {
        match &self.fields_se {
            Some(se) => se.serialize_other(),
            None => Error::Syntax(String::new()),
        }
    }

    /// The extension node, once the tuple held one tag and one payload.
    pub fn value(self) -> (r: Result<Value, Error>)
        ensures
            match self@ {
                None => r matches Err(e) && e@ == expected_tuple_msg(),
                Some(f) => match finish_fields(f) {
                    Ok(n) => r matches Ok(v) && v.deep() == n,
                    Err(m) => r matches Err(e) && e@ == m,
                },
            },
    {
        match self.fields_se {
            Some(fields_se) => fields_se.value(),
            None => Err(Error::expected_tuple()),
        }
    }
}

/// The two fields of an extension tuple may come in either order: tag then
/// payload, or payload then tag, give the same slots and the node
/// `Ext(tag, bytes)`.
pub proof fn lemma_ext_fields_any_order(tag: i8, bytes: Seq<u8>)
    ensures
        take_tag((None, None), tag) matches Ok(s1) && take_bytes(s1, bytes) matches Ok(s2)
            && finish_fields(s2) == Ok::<Node, Seq<char>>(Node::Ext(tag, bytes)),
        take_bytes((None, None), bytes) matches Ok(s1) && take_tag(s1, tag) matches Ok(s2)
            && finish_fields(s2) == Ok::<Node, Seq<char>>(Node::Ext(tag, bytes)),
{
}

/// A tuple that closes with a slot still empty gives no extension.
pub proof fn lemma_ext_missing_field(s: FieldState)
    requires
        s.0 is None || s.1 is None,
    ensures
        finish_fields(s) == Err::<Node, Seq<char>>(expected_i8_and_bytes_msg()),
{
}

/// Once both slots are full, every further field fails and leaves them as
/// they are: a tuple of three fields gives no extension.
pub proof fn lemma_ext_full_rejects_more(tag: i8, bytes: Seq<u8>, t: i8, b: Seq<u8>)
    ensures
        take_tag((Some(tag), Some(bytes)), t) == Err::<FieldState, Seq<char>>(second_i8_msg()),
        take_bytes((Some(tag), Some(bytes)), b) == Err::<FieldState, Seq<char>>(
            expected_i8_and_bytes_msg(),
        ),
{
}

} // verus!
