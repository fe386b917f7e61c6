//! In-memory model of the values, messages and method calls the bus
//! protocol carries: a closed tagged union per wire kind, plus the parts of
//! a received message the client reads (type, error name, arguments and
//! attached file descriptors).

use vstd::prelude::*;

verus! {

/// A scalar wire value.  Object paths carry their own tag, distinct from
/// plain strings.
#[derive(Debug, PartialEq)]
pub enum Base {
    Str(String),
    Boolean(bool),
    Uint16(u16),
    Byte(u8),
    ObjectPath(String),
}

/// A container wire value: a self-describing variant, a uniformly typed
/// array, or a dictionary of scalar keys.  Dictionary entries keep the
/// order in which they arrived; the wire format enforces key uniqueness.
#[derive(Debug, PartialEq)]
pub enum Container {
    Variant(Box<Variant>),
    Array(Vec<Param>),
    Dict(Vec<(Base, Param)>),
}

/// A variant: one level of indirection around a value of any type.
#[derive(Debug, PartialEq)]
pub struct Variant {
    pub value: Param,
}

/// Any wire value: a scalar or a container.
#[derive(Debug, PartialEq)]
pub enum Param {
    Base(Base),
    Container(Container),
}

/// The type tag of a received message.
#[derive(Debug, Clone, Copy, PartialEq, Eq, Structural)]
pub enum MessageType {
    Call,
    Reply,
    Error,
    Signal,
    Invalid,
}

/// The parts of a received message the client reads: its type, the error
/// name of an error reply, the unmarshalled arguments, and the file
/// descriptors attached out of band.
#[derive(Debug, PartialEq)]
pub struct Msg {
    pub typ: MessageType,
    pub error_name: Option<String>,
    pub params: Vec<Param>,
    pub raw_fds: Vec<i32>,
}

/// A method call to send: destination service, object path, interface,
/// member, and the ordered argument list.
#[derive(Debug, PartialEq)]
pub struct MethodCall {
    pub destination: String,
    pub object: String,
    pub interface: String,
    pub member: String,
    pub body: Vec<Param>,
}

} // verus!
