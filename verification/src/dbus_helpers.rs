//! Narrowing accessors over the wire value tree, and the builders for the
//! two one-time service-registration calls.
//!
//! Every accessor is a total pattern match: it returns the payload when the
//! runtime tag matches and nothing otherwise, and never fails.

use vstd::prelude::*;
use vstd::string::*;

use crate::params::{Base, Container, MethodCall, Param, Variant};

verus! {

/// What `unwrap_variant` returns: the boxed variant, when the tag matches.
pub open spec fn unwrap_variant_spec(container: Container) -> Option<Box<Variant>> {
    match container {
        Container::Variant(v) => Some(v),
        _ => None,
    }
}

/// Narrows a container to a variant.
pub fn unwrap_variant(container: Container) -> (r: Option<Box<Variant>>)
    ensures
        r == unwrap_variant_spec(container),
{
    match container {
        Container::Variant(v) => Some(v),
        _ => None,
    }
}

/// What `unwrap_array` returns: the element list, when the tag matches.
pub open spec fn unwrap_array_spec(container: Container) -> Option<Vec<Param>> {
    match container {
        Container::Array(a) => Some(a),
        _ => None,
    }
}

/// Narrows a container to an array.
pub fn unwrap_array(container: Container) -> (r: Option<Vec<Param>>)
    ensures
        r == unwrap_array_spec(container),
{
    match container {
        Container::Array(a) => Some(a),
        _ => None,
    }
}

/// What `unwrap_dict` returns: the entry list, when the tag matches.
pub open spec fn unwrap_dict_spec(container: Container) -> Option<Vec<(Base, Param)>> {
    match container {
        Container::Dict(d) => Some(d),
        _ => None,
    }
}

/// Narrows a container to a dictionary's entry list.
pub fn unwrap_dict(container: Container) -> (r: Option<Vec<(Base, Param)>>)
    ensures
        r == unwrap_dict_spec(container),
{
    match container {
        Container::Dict(d) => Some(d),
        _ => None,
    }
}

/// What `unwrap_string` returns: the string payload, when the tag matches.
pub open spec fn unwrap_string_spec(base: Base) -> Option<String> {
    match base {
        Base::Str(s) => Some(s),
        _ => None,
    }
}

/// Narrows a scalar to a string.
pub fn unwrap_string(base: Base) -> (r: Option<String>)
    ensures
        r == unwrap_string_spec(base),
{
    match base {
        Base::Str(s) => Some(s),
        _ => None,
    }
}

/// What `unwrap_bool` returns: the boolean payload, when the tag matches.
pub open spec fn unwrap_bool_spec(base: Base) -> Option<bool> {
    match base {
        Base::Boolean(b) => Some(b),
        _ => None,
    }
}

/// Narrows a scalar to a boolean.
pub fn unwrap_bool(base: Base) -> (r: Option<bool>)
    ensures
        r == unwrap_bool_spec(base),
{
    match base {
        Base::Boolean(b) => Some(b),
        _ => None,
    }
}

/// What `unwrap_u16` returns: the 16-bit payload, when the tag matches.
pub open spec fn unwrap_u16_spec(base: Base) -> Option<u16> {
    match base {
        Base::Uint16(n) => Some(n),
        _ => None,
    }
}

/// Narrows a scalar to a 16-bit unsigned integer.
pub fn unwrap_u16(base: Base) -> (r: Option<u16>)
    ensures
        r == unwrap_u16_spec(base),
{
    match base {
        Base::Uint16(n) => Some(n),
        _ => None,
    }
}

/// What `unwrap_byte` returns: the byte payload, when the tag matches.
pub open spec fn unwrap_byte_spec(base: Base) -> Option<u8> {
    match base {
        Base::Byte(y) => Some(y),
        _ => None,
    }
}

/// Narrows a scalar to a byte.
pub fn unwrap_byte(base: Base) -> (r: Option<u8>)
    ensures
        r == unwrap_byte_spec(base),
{
    match base {
        Base::Byte(y) => Some(y),
        _ => None,
    }
}

/// What `unwrap_objectpath` returns: the path and the carried value, when
/// the key's tag matches.
pub open spec fn unwrap_objectpath_spec(tup: (Base, Param)) -> Option<(String, Param)> {
    match tup.0 {
        Base::ObjectPath(s) => Some((s, tup.1)),
        _ => None,
    }
}

/// Narrows a dictionary entry to an object-path key and its value.
pub fn unwrap_objectpath(tup: (Base, Param)) -> (r: Option<(String, Param)>)
    ensures
        r == unwrap_objectpath_spec(tup),
{
    let (base, param) = tup;
    match base {
        Base::ObjectPath(s) => Some((s, param)),
        _ => None,
    }
}

/// What `unwrap_container` returns: the container, when the tag matches.
pub open spec fn unwrap_container_spec(param: Param) -> Option<Container> {
    match param {
        Param::Container(c) => Some(c),
        _ => None,
    }
}

/// Narrows a value to a container.
pub fn unwrap_container(param: Param) -> (r: Option<Container>)
    ensures
        r == unwrap_container_spec(param),
{
    match param {
        Param::Container(c) => Some(c),
        _ => None,
    }
}

/// What `unwrap_base` returns: the scalar, when the tag matches.
pub open spec fn unwrap_base_spec(param: Param) -> Option<Base> {
    match param {
        Param::Base(b) => Some(b),
        _ => None,
    }
}

/// Narrows a value to a scalar.
pub fn unwrap_base(param: Param) -> (r: Option<Base>)
    ensures
        r == unwrap_base_spec(param),
{
    match param {
        Param::Base(b) => Some(b),
        _ => None,
    }
}

/// Narrowing a scalar built with a given tag through that tag's accessor
/// returns the original payload; narrowing it through any other scalar
/// accessor returns nothing.  The same holds of the value and container
/// accessors for their tags.
pub proof fn lemma_narrowing_round_trip(
    s: String,
    b: bool,
    n: u16,
    y: u8,
    p: String,
    v: Box<Variant>,
    a: Vec<Param>,
    d: Vec<(Base, Param)>,
    base: Base,
    cont: Container,
    val: Param,
)
    ensures
        unwrap_string_spec(Base::Str(s)) == Some(s),
        unwrap_bool_spec(Base::Boolean(b)) == Some(b),
        unwrap_u16_spec(Base::Uint16(n)) == Some(n),
        unwrap_byte_spec(Base::Byte(y)) == Some(y),
        unwrap_objectpath_spec((Base::ObjectPath(p), val)) == Some((p, val)),
        unwrap_string_spec(Base::Boolean(b)) is None,
        unwrap_string_spec(Base::Uint16(n)) is None,
        unwrap_string_spec(Base::Byte(y)) is None,
        unwrap_string_spec(Base::ObjectPath(p)) is None,
        unwrap_bool_spec(Base::Str(s)) is None,
        unwrap_bool_spec(Base::Uint16(n)) is None,
        unwrap_bool_spec(Base::Byte(y)) is None,
        unwrap_bool_spec(Base::ObjectPath(p)) is None,
        unwrap_u16_spec(Base::Str(s)) is None,
        unwrap_u16_spec(Base::Boolean(b)) is None,
        unwrap_u16_spec(Base::Byte(y)) is None,
        unwrap_u16_spec(Base::ObjectPath(p)) is None,
        unwrap_byte_spec(Base::Str(s)) is None,
        unwrap_byte_spec(Base::Boolean(b)) is None,
        unwrap_byte_spec(Base::Uint16(n)) is None,
        unwrap_byte_spec(Base::ObjectPath(p)) is None,
        unwrap_objectpath_spec((Base::Str(s), val)) is None,
        unwrap_objectpath_spec((Base::Boolean(b), val)) is None,
        unwrap_objectpath_spec((Base::Uint16(n), val)) is None,
        unwrap_objectpath_spec((Base::Byte(y), val)) is None,
        unwrap_variant_spec(Container::Variant(v)) == Some(v),
        unwrap_array_spec(Container::Array(a)) == Some(a),
        unwrap_dict_spec(Container::Dict(d)) == Some(d),
        unwrap_variant_spec(Container::Array(a)) is None,
        unwrap_variant_spec(Container::Dict(d)) is None,
        unwrap_array_spec(Container::Variant(v)) is None,
        unwrap_array_spec(Container::Dict(d)) is None,
        unwrap_dict_spec(Container::Variant(v)) is None,
        unwrap_dict_spec(Container::Array(a)) is None,
        unwrap_base_spec(Param::Base(base)) == Some(base),
        unwrap_container_spec(Param::Base(base)) is None,
        unwrap_container_spec(Param::Container(cont)) == Some(cont),
        unwrap_base_spec(Param::Container(cont)) is None,
{
}

/// Builds the call that asks the bus who owns the given service name.
pub fn get_name_owner(name: String) -> (r: MethodCall)
    ensures
        r.destination@ == "org.freedesktop.DBus"@,
        r.object@ == "/org/freedesktop/DBus"@,
        r.interface@ == "org.freedesktop.DBus"@,
        r.member@ == "GetNameOwner"@,
        r.body@ == seq![Param::Base(Base::Str(name))],
{
    let body = vec![Param::Base(Base::Str(name))];
    MethodCall {
        destination: String::from_str("org.freedesktop.DBus"),
        object: String::from_str("/org/freedesktop/DBus"),
        interface: String::from_str("org.freedesktop.DBus"),
        member: String::from_str("GetNameOwner"),
        body,
    }
}

/// Builds the call that registers this client as a pairing agent with the
/// daemon's agent manager.
pub fn register_agent(obj_path: &str, capability: &str) -> (r: MethodCall)
    ensures
        r.destination@ == "org.bluez"@,
        r.object@ == "/org/bluez"@,
        r.interface@ == "org.bluez.AgentManager1"@,
        r.member@ == "RegisterAgent"@,
        r.body@.len() == 2,
        r.body@[0] matches Param::Base(Base::ObjectPath(o)) && o@ == obj_path@,
        r.body@[1] matches Param::Base(Base::Str(c)) && c@ == capability@,
{
    let body = vec![
        Param::Base(Base::ObjectPath(String::from_str(obj_path))),
        Param::Base(Base::Str(String::from_str(capability))),
    ];
    MethodCall {
        destination: String::from_str("org.bluez"),
        object: String::from_str("/org/bluez"),
        interface: String::from_str("org.bluez.AgentManager1"),
        member: String::from_str("RegisterAgent"),
        body,
    }
}

} // verus!
