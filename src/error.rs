use vstd::prelude::*;

verus! {

/// The one error of a conversion: a human-readable message.
#[derive(Debug, PartialEq, Eq)]
pub enum Error {
    Syntax(String),
}

impl View for Error {
    type V = Seq<char>;

    open spec fn view(&self) -> Seq<char> {
        match self {
            Error::Syntax(msg) => msg@,
        }
    }
}

/// Message of a call other than a tuple while an extension is expected.
pub open spec fn expected_tuple_msg() -> Seq<char> {
    "expected tuple"@
}

/// Message of a second tag inside one extension tuple.
pub open spec fn second_i8_msg() -> Seq<char> {
    "received second i8"@
}

/// Message of an extension tuple that holds anything but one tag and one payload.
pub open spec fn expected_i8_and_bytes_msg() -> Seq<char> {
    "expected i8 and bytes"@
}

impl Error {
    /// An error that carries `msg` as its text.
    pub fn custom(msg: &str) -> (r: Error)
        ensures
            r@ == msg@,
    {
        Error::Syntax(msg.to_owned())
    }

    pub(crate) fn expected_tuple() -> (r: Error)
        ensures
            r@ == expected_tuple_msg(),
    {
        Error::custom("expected tuple")
    }

    pub(crate) fn second_i8() -> (r: Error)
        ensures
            r@ == second_i8_msg(),
    {
        Error::custom("received second i8")
    }

    pub(crate) fn expected_i8_and_bytes() -> (r: Error)
        ensures
            r@ == expected_i8_and_bytes_msg(),
    {
        Error::custom("expected i8 and bytes")
    }
}

} // verus!
