//! Device session operations: the calls they build and how they interpret
//! replies.

use bluebus::dbus_helpers::{get_name_owner, register_agent};
use bluebus::error::{Context, Error};
use bluebus::params::{Base, Container, MessageType, Msg, Param, Variant};
use bluebus::{connection_name_from_reply, get_managed_objects_call, Ble};

fn reply_msg() -> Msg {
    Msg {
        typ: MessageType::Reply,
        error_name: None,
        params: Vec::new(),
        raw_fds: Vec::new(),
    }
}

fn bluez_failed_msg() -> Msg {
    Msg {
        typ: MessageType::Error,
        error_name: Some(String::from("org.bluez.Error.Failed")),
        params: Vec::new(),
        raw_fds: Vec::new(),
    }
}

#[test]
fn connect_call_addresses_the_device_object() {
    let ble = Ble::new(0);
    let call = ble.connect_call("AA:BB:CC:DD:EE:FF");
    assert_eq!(call.destination, "org.bluez");
    assert_eq!(call.object, "/org/bluez/hci0/dev_AA_BB_CC_DD_EE_FF");
    assert_eq!(call.interface, "org.bluez.Device1");
    assert_eq!(call.member, "Connect");
    assert!(call.body.is_empty());
}

#[test]
fn connect_reply_interprets_both_outcomes() {
    let ble = Ble::new(0);
    assert!(ble.connect_reply(&reply_msg()).is_ok());

    let err = ble.connect_reply(&bluez_failed_msg()).unwrap_err();
    assert!(matches!(err, Error::BluezFailed(Context::Connect)));
}

#[test]
fn connect_reply_rejects_other_message_types() {
    let ble = Ble::new(0);
    let mut msg = reply_msg();
    msg.typ = MessageType::Signal;
    assert_eq!(ble.connect_reply(&msg).unwrap_err(), Error::UnexpectedDbusReply);
}

#[test]
fn disconnect_call_and_reply() {
    let ble = Ble::new(1);
    let call = ble.disconnect_call("00:11:22:33:44:55");
    assert_eq!(call.object, "/org/bluez/hci1/dev_00_11_22_33_44_55");
    assert_eq!(call.member, "Disconnect");
    assert_eq!(call.interface, "org.bluez.Device1");

    let err = ble.disconnect_reply(&bluez_failed_msg()).unwrap_err();
    assert!(matches!(err, Error::BluezFailed(Context::Disconnect)));
    assert!(ble.disconnect_reply(&reply_msg()).is_ok());
}

#[test]
fn is_connected_call_asks_for_the_property() {
    let ble = Ble::new(0);
    let call = ble.is_connected_call("AA:BB:CC:DD:EE:FF");
    assert_eq!(call.interface, "org.freedesktop.DBus.Properties");
    assert_eq!(call.member, "Get");
    assert_eq!(call.body.len(), 2);
    assert!(matches!(&call.body[0], Param::Base(Base::Str(s)) if s == "org.bluez.Device1"));
    assert!(matches!(&call.body[1], Param::Base(Base::Str(s)) if s == "Connected"));
}

#[test]
fn is_connected_reply_narrows_the_variant() {
    let ble = Ble::new(0);
    let params = vec![Param::Container(Container::Variant(Box::new(Variant {
        value: Param::Base(Base::Boolean(true)),
    })))];
    assert_eq!(ble.is_connected_reply(&params).unwrap(), true);

    let params = vec![Param::Container(Container::Variant(Box::new(Variant {
        value: Param::Base(Base::Boolean(false)),
    })))];
    assert_eq!(ble.is_connected_reply(&params).unwrap(), false);
}

#[test]
fn is_connected_reply_rejects_a_mismatched_shape() {
    let ble = Ble::new(0);
    let params = vec![Param::Base(Base::Str(String::from("true")))];
    assert_eq!(
        ble.is_connected_reply(&params).unwrap_err(),
        Error::UnexpectedDbusReply
    );
    let empty = Vec::new();
    assert_eq!(
        ble.is_connected_reply(&empty).unwrap_err(),
        Error::UnexpectedDbusReply
    );
}

#[test]
fn acquire_notify_call_carries_empty_options() {
    let ble = Ble::new(0);
    let call = ble.acquire_notify_call("/org/bluez/hci0/dev_AA/char000d");
    assert_eq!(call.object, "/org/bluez/hci0/dev_AA/char000d");
    assert_eq!(call.interface, "org.bluez.GattCharacteristic1");
    assert_eq!(call.member, "AcquireNotify");
    assert!(matches!(&call.body[0], Param::Container(Container::Dict(d)) if d.is_empty()));
}

#[test]
fn notify_reply_returns_the_first_descriptor() {
    let ble = Ble::new(0);
    let mut msg = reply_msg();
    msg.raw_fds = vec![17, 23];
    let fd = ble.notify_reply(&msg, String::from("/p")).unwrap();
    assert_eq!(fd, 17);
}

#[test]
fn notify_reply_without_descriptor_is_a_resource_failure() {
    let ble = Ble::new(0);
    let err = ble.notify_reply(&reply_msg(), String::from("/p")).unwrap_err();
    assert_eq!(err, Error::NoFdReturned);
}

#[test]
fn notify_reply_classifies_error_replies_with_the_path() {
    let ble = Ble::new(0);
    let err = ble
        .notify_reply(&bluez_failed_msg(), String::from("/some/char"))
        .unwrap_err();
    match err {
        Error::BluezFailed(Context::AquireNotify(path)) => assert_eq!(path, "/some/char"),
        other => panic!("expected BluezFailed, got {:?}", other),
    }
}

#[test]
fn connection_name_comes_from_the_last_argument() {
    let params = vec![Param::Base(Base::Str(String::from(":1.42")))];
    assert_eq!(connection_name_from_reply(&params).unwrap(), ":1.42");

    let params = vec![Param::Base(Base::Boolean(true))];
    assert_eq!(
        connection_name_from_reply(&params).unwrap_err(),
        Error::UnexpectedDbusReply
    );
}

#[test]
fn registration_calls_are_fully_addressed() {
    let call = get_name_owner(String::from("org.bluez"));
    assert_eq!(call.destination, "org.freedesktop.DBus");
    assert_eq!(call.object, "/org/freedesktop/DBus");
    assert_eq!(call.interface, "org.freedesktop.DBus");
    assert_eq!(call.member, "GetNameOwner");
    assert!(matches!(&call.body[0], Param::Base(Base::Str(s)) if s == "org.bluez"));

    let call = register_agent("/test/agent", "KeyboardDisplay");
    assert_eq!(call.destination, "org.bluez");
    assert_eq!(call.object, "/org/bluez");
    assert_eq!(call.interface, "org.bluez.AgentManager1");
    assert_eq!(call.member, "RegisterAgent");
    assert!(matches!(&call.body[0], Param::Base(Base::ObjectPath(p)) if p == "/test/agent"));
    assert!(matches!(&call.body[1], Param::Base(Base::Str(c)) if c == "KeyboardDisplay"));

    let call = get_managed_objects_call();
    assert_eq!(call.destination, "org.bluez");
    assert_eq!(call.object, "/");
    assert_eq!(call.interface, "org.freedesktop.DBus.ObjectManager");
    assert_eq!(call.member, "GetManagedObjects");
    assert!(call.body.is_empty());
}
