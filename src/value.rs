use vstd::prelude::*;

verus! {

/// One reply of the store, already decoded from the wire by the transport.
#[derive(Debug, PartialEq, Eq)]
pub enum Value {
    /// Absence of a value.
    Nil,
    /// An integer reply.
    Integer(i64),
    /// A short status text, such as `OK`.
    SimpleString(String),
    /// A binary-safe string; not assumed to be text.
    BulkString(Vec<u8>),
    /// An ordered array of replies.
    Array(Vec<Value>),
    /// An error reported by the store, with its message.
    Error(String),
}

/// Why a command did not give the requested result.
#[derive(Clone, Debug, PartialEq, Eq)]
pub enum Error {
    /// The store answered with an error; its message is kept as it came.
    Redis(String),
    /// The transport could not deliver the command or its reply.
    Client(String),
    /// The reply does not have the shape that the requested type needs.
    UnexpectedReply,
    /// Text was requested and the reply's bytes are not UTF-8.
    InvalidUtf8,
    /// An integer was requested and the reply does not hold one that fits.
    InvalidInteger,
}

} // verus!
