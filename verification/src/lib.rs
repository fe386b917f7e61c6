//! Verified client core for a bus-based Bluetooth Low Energy daemon.
//!
//! The crate models the wire protocol's value trees, builds the method-call
//! messages the daemon understands, classifies its error replies, and walks
//! its managed-object tree to resolve GATT characteristic paths.  Transport
//! I/O is left to the embedding application; everything here is pure and
//! carries a proved contract.

pub mod dbus_helpers;
pub mod error;
pub mod params;
pub mod resolver;
pub mod text;

use vstd::prelude::*;
use vstd::string::*;

use crate::error::{error_from, is_classified, Context, Error};
use crate::params::{Base, Container, MessageType, MethodCall, Msg, Param};
use crate::resolver::{device_path, device_path_spec, find_characteristic, resolve_spec};

verus! {

/// The connection name in a handshake reply: its last argument, narrowed
/// to a plain string.
pub open spec fn name_of_hello_reply(params: Seq<Param>) -> Option<Seq<char>> {
    if params.len() == 0 {
        None
    } else {
        match params.last() {
            Param::Base(Base::Str(s)) => Some(s@),
            _ => None,
        }
    }
}

/// Extracts the connection name assigned by the bus from the handshake
/// reply's arguments.  A handshake reply of any other shape is fatal.
pub fn connection_name_from_reply(params: &Vec<Param>) -> (r: Result<String, Error>)
    ensures
        match name_of_hello_reply(params@) {
            Some(nm) => r matches Ok(s) && s@ == nm,
            None => r matches Err(e) && e == Error::UnexpectedDbusReply,
        },
{
    let n = params.len();
    if n == 0 {
        return Err(Error::UnexpectedDbusReply);
    }
    match &params[n - 1] {
        Param::Base(Base::Str(s)) => Ok(s.clone()),
        _ => Err(Error::UnexpectedDbusReply),
    }
}

/// The Connected property in a property-get reply: the last argument,
/// narrowed through container, variant, scalar and boolean in turn.
pub open spec fn connected_of_reply(params: Seq<Param>) -> Option<bool> {
    if params.len() == 0 {
        None
    } else {
        match params.last() {
            Param::Container(Container::Variant(v)) => match v.value {
                Param::Base(Base::Boolean(b)) => Some(b),
                _ => None,
            },
            _ => None,
        }
    }
}

/// Builds the call that asks the daemon for its full managed-object tree.
pub fn get_managed_objects_call() -> (r: MethodCall)
    ensures
        r.destination@ == "org.bluez"@,
        r.object@ == "/"@,
        r.interface@ == "org.freedesktop.DBus.ObjectManager"@,
        r.member@ == "GetManagedObjects"@,
        r.body@ == Seq::<Param>::empty(),
{
    MethodCall {
        destination: String::from_str("org.bluez"),
        object: String::from_str("/"),
        interface: String::from_str("org.freedesktop.DBus.ObjectManager"),
        member: String::from_str("GetManagedObjects"),
        body: Vec::new(),
    }
}

/// The managed-object entries in a reply: the last argument, narrowed to a
/// dictionary's entry list.
pub open spec fn managed_entries(params: Seq<Param>) -> Option<Seq<(Base, Param)>> {
    if params.len() == 0 {
        None
    } else {
        match params.last() {
            Param::Container(Container::Dict(d)) => Some(d@),
            _ => None,
        }
    }
}

/// The pure decision core of a device session on one adapter: it builds
/// every call the session sends and interprets every reply it receives.
/// The embedding application owns the bus connection and moves the
/// messages; this type holds no connection state.
pub struct Ble {
    pub adapter_numb: u8,
}

impl Ble {
    /// A session core for the adapter with the given index.
    pub fn new(adapter_numb: u8) -> (r: Ble)
        ensures
            r.adapter_numb == adapter_numb,
    {
        Ble { adapter_numb }
    }

    /// Builds the Connect call addressed to the device's object path.
    pub fn connect_call(&self, address: &str) -> (r: MethodCall)
        ensures
            r.destination@ == "org.bluez"@,
            r.object@ == device_path_spec(self.adapter_numb as nat, address@),
            r.interface@ == "org.bluez.Device1"@,
            r.member@ == "Connect"@,
            r.body@ == Seq::<Param>::empty(),
    {
        MethodCall {
            destination: String::from_str("org.bluez"),
            object: device_path(self.adapter_numb, address),
            interface: String::from_str("org.bluez.Device1"),
            member: String::from_str("Connect"),
            body: Vec::new(),
        }
    }

    /// Interprets the reply to a Connect call: a plain reply is success, an
    /// error reply is classified in the Connect context, and any other
    /// message type breaks the protocol contract.
    pub fn connect_reply(&self, msg: &Msg) -> (r: Result<(), Error>)
        ensures
            msg.typ is Reply ==> r is Ok,
            msg.typ is Error ==> (r matches Err(e) && is_classified(e, *msg, Context::Connect)),
            !(msg.typ is Reply || msg.typ is Error) ==> (r matches Err(e) && e
                == Error::UnexpectedDbusReply),
    {
        match msg.typ {
            MessageType::Reply => Ok(()),
            MessageType::Error => Err(error_from(msg, Context::Connect)),
            _ => Err(Error::UnexpectedDbusReply),
        }
    }

    /// Builds the Disconnect call addressed to the device's object path.
    pub fn disconnect_call(&self, address: &str) -> (r: MethodCall)
        ensures
            r.destination@ == "org.bluez"@,
            r.object@ == device_path_spec(self.adapter_numb as nat, address@),
            r.interface@ == "org.bluez.Device1"@,
            r.member@ == "Disconnect"@,
            r.body@ == Seq::<Param>::empty(),
    {
        MethodCall {
            destination: String::from_str("org.bluez"),
            object: device_path(self.adapter_numb, address),
            interface: String::from_str("org.bluez.Device1"),
            member: String::from_str("Disconnect"),
            body: Vec::new(),
        }
    }

    /// Interprets the reply to a Disconnect call, classifying error replies
    /// in the Disconnect context.
    pub fn disconnect_reply(&self, msg: &Msg) -> (r: Result<(), Error>)
        ensures
            msg.typ is Reply ==> r is Ok,
            msg.typ is Error ==> (r matches Err(e) && is_classified(e, *msg, Context::Disconnect)),
            !(msg.typ is Reply || msg.typ is Error) ==> (r matches Err(e) && e
                == Error::UnexpectedDbusReply),
    {
        match msg.typ {
            MessageType::Reply => Ok(()),
            MessageType::Error => Err(error_from(msg, Context::Disconnect)),
            _ => Err(Error::UnexpectedDbusReply),
        }
    }

    /// Builds the property-get call for the device's Connected property.
    pub fn is_connected_call(&self, address: &str) -> (r: MethodCall)
        ensures
            r.destination@ == "org.bluez"@,
            r.object@ == device_path_spec(self.adapter_numb as nat, address@),
            r.interface@ == "org.freedesktop.DBus.Properties"@,
            r.member@ == "Get"@,
            r.body@.len() == 2,
            r.body@[0] matches Param::Base(Base::Str(s)) && s@ == "org.bluez.Device1"@,
            r.body@[1] matches Param::Base(Base::Str(s)) && s@ == "Connected"@,
    {
        let body = vec![
            Param::Base(Base::Str(String::from_str("org.bluez.Device1"))),
            Param::Base(Base::Str(String::from_str("Connected"))),
        ];
        MethodCall {
            destination: String::from_str("org.bluez"),
            object: device_path(self.adapter_numb, address),
            interface: String::from_str("org.freedesktop.DBus.Properties"),
            member: String::from_str("Get"),
            body,
        }
    }

    /// Narrows the property-get reply's arguments to the Connected boolean.
    /// A narrowing failure at any stage breaks the protocol contract.
    pub fn is_connected_reply(&self, params: &Vec<Param>) -> (r: Result<bool, Error>)
        ensures
            match connected_of_reply(params@) {
                Some(b) => r matches Ok(c) && c == b,
                None => r matches Err(e) && e == Error::UnexpectedDbusReply,
            },
    {
        let n = params.len();
        if n == 0 {
            return Err(Error::UnexpectedDbusReply);
        }
        match &params[n - 1] {
            Param::Container(Container::Variant(v)) => match &v.value {
                Param::Base(Base::Boolean(b)) => Ok(*b),
                _ => Err(Error::UnexpectedDbusReply),
            },
            _ => Err(Error::UnexpectedDbusReply),
        }
    }

    /// Resolves the object path of the device's characteristic with the
    /// given UUID inside a managed-object reply.  Exhausting the tree is a
    /// clean "no match"; a reply or candidate of the wrong shape breaks
    /// the protocol contract.
    pub fn path_for_char(&self, reply_params: &Vec<Param>, address: &str, char_uuid: &str) -> (r:
        Result<Option<String>, Error>)
        ensures
            match managed_entries(reply_params@) {
                None => r matches Err(e) && e == Error::UnexpectedDbusReply,
                Some(es) => match resolve_spec(
                    es,
                    device_path_spec(self.adapter_numb as nat, address@),
                    char_uuid@,
                ) {
                    Ok(Some(p)) => r matches Ok(Some(s)) && s@ == p,
                    Ok(None) => r matches Ok(o) && o is None,
                    Err(_) => r matches Err(e) && e == Error::UnexpectedDbusReply,
                },
            },
    {
        let n = reply_params.len();
        if n == 0 {
            return Err(Error::UnexpectedDbusReply);
        }
        match &reply_params[n - 1] {
            Param::Container(Container::Dict(d)) => {
                let dev = device_path(self.adapter_numb, address);
                find_characteristic(d, dev.as_str(), char_uuid)
            },
            _ => Err(Error::UnexpectedDbusReply),
        }
    }

    /// Builds the AcquireNotify call for a resolved characteristic path,
    /// carrying an empty options dictionary.
    pub fn acquire_notify_call(&self, char_path: &str) -> (r: MethodCall)
        ensures
            r.destination@ == "org.bluez"@,
            r.object@ == char_path@,
            r.interface@ == "org.bluez.GattCharacteristic1"@,
            r.member@ == "AcquireNotify"@,
            r.body@.len() == 1,
            r.body@[0] matches Param::Container(Container::Dict(d)) && d@ == Seq::<(
                Base,
                Param,
            )>::empty(),
    {
        let body = vec![Param::Container(Container::Dict(Vec::new()))];
        MethodCall {
            destination: String::from_str("org.bluez"),
            object: String::from_str(char_path),
            interface: String::from_str("org.bluez.GattCharacteristic1"),
            member: String::from_str("AcquireNotify"),
            body,
        }
    }

    /// Interprets the reply to an AcquireNotify call: an error reply is
    /// classified in the AcquireNotify context for the path, a plain reply
    /// yields the first attached file descriptor — its absence is a
    /// resource-acquisition failure — and any other message type breaks
    /// the protocol contract.
    pub fn notify_reply(&self, msg: &Msg, char_path: String) -> (r: Result<i32, Error>)
        ensures
            msg.typ is Error ==> (r matches Err(e) && is_classified(
                e,
                *msg,
                Context::AquireNotify(char_path),
            )),
            msg.typ is Reply ==> (if msg.raw_fds@.len() > 0 {
                r matches Ok(fd) && fd == msg.raw_fds@[0]
            } else {
                r matches Err(e) && e == Error::NoFdReturned
            }),
            !(msg.typ is Reply || msg.typ is Error) ==> (r matches Err(e) && e
                == Error::UnexpectedDbusReply),
    {
        match msg.typ {
            MessageType::Error => Err(error_from(msg, Context::AquireNotify(char_path))),
            MessageType::Reply => {
                if msg.raw_fds.len() > 0 {
                    Ok(msg.raw_fds[0])
                } else {
                    Err(Error::NoFdReturned)
                }
            },
            _ => Err(Error::UnexpectedDbusReply),
        }
    }
}

} // verus!

