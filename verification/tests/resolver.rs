//! Characteristic resolution over managed-object trees.

use bluebus::error::Error;
use bluebus::params::{Base, Container, Param, Variant};
use bluebus::resolver::find_characteristic;
use bluebus::Ble;

fn characteristic_entry(path: &str, uuid: &str) -> (Base, Param) {
    let uuid_prop = (
        Base::Str(String::from("UUID")),
        Param::Container(Container::Variant(Box::new(Variant {
            value: Param::Base(Base::Str(String::from(uuid))),
        }))),
    );
    let gatt_iface = (
        Base::Str(String::from("org.bluez.GattCharacteristic1")),
        Param::Container(Container::Dict(vec![uuid_prop])),
    );
    (
        Base::ObjectPath(String::from(path)),
        Param::Container(Container::Dict(vec![gatt_iface])),
    )
}

const DEVICE_PREFIX: &str = "/org/bluez/hci0/dev_AA_BB_CC_DD_EE_FF";

#[test]
fn first_matching_characteristic_wins() {
    let matching = characteristic_entry(
        "/org/bluez/hci0/dev_AA_BB_CC_DD_EE_FF/service000c/char000d",
        "9a66fd21-0800-9191-11e4-012d1540cb8e",
    );
    let descriptor = characteristic_entry(
        "/org/bluez/hci0/dev_AA_BB_CC_DD_EE_FF/service000c/char000d/desc000f",
        "9a66fd21-0800-9191-11e4-012d1540cb8e",
    );
    let other_device = characteristic_entry(
        "/org/bluez/hci0/dev_11_22_33_44_55_66/service000c/char000d",
        "9a66fd21-0800-9191-11e4-012d1540cb8e",
    );
    let entries = vec![matching, descriptor, other_device];
    let got = find_characteristic(
        &entries,
        DEVICE_PREFIX,
        "9a66fd21-0800-9191-11e4-012d1540cb8e",
    );
    assert_eq!(
        got.unwrap(),
        Some(String::from(
            "/org/bluez/hci0/dev_AA_BB_CC_DD_EE_FF/service000c/char000d"
        ))
    );
}

#[test]
fn descriptor_and_foreign_entries_are_excluded() {
    let descriptor = characteristic_entry(
        "/org/bluez/hci0/dev_AA_BB_CC_DD_EE_FF/service000c/char000d/desc000f",
        "1111",
    );
    let other_device =
        characteristic_entry("/org/bluez/hci0/dev_11_22_33_44_55_66/service000c/char000d", "1111");
    let entries = vec![descriptor, other_device];
    let got = find_characteristic(&entries, DEVICE_PREFIX, "1111");
    assert_eq!(got.unwrap(), None);
}

#[test]
fn no_entries_is_no_match_not_an_error() {
    let entries = Vec::new();
    let got = find_characteristic(&entries, DEVICE_PREFIX, "1111");
    assert_eq!(got.unwrap(), None);
}

#[test]
fn wrong_uuid_is_no_match() {
    let entry = characteristic_entry(
        "/org/bluez/hci0/dev_AA_BB_CC_DD_EE_FF/service000c/char000d",
        "2222",
    );
    let entries = vec![entry];
    let got = find_characteristic(&entries, DEVICE_PREFIX, "1111");
    assert_eq!(got.unwrap(), None);
}

#[test]
fn uuid_comparison_is_case_sensitive() {
    let entry = characteristic_entry(
        "/org/bluez/hci0/dev_AA_BB_CC_DD_EE_FF/service000c/char000d",
        "ABCD",
    );
    let entries = vec![entry];
    let got = find_characteristic(&entries, DEVICE_PREFIX, "abcd");
    assert_eq!(got.unwrap(), None);
}

#[test]
fn candidate_without_interface_breaks_the_contract() {
    let bare = (
        Base::ObjectPath(String::from(
            "/org/bluez/hci0/dev_AA_BB_CC_DD_EE_FF/service000c/char000d",
        )),
        Param::Container(Container::Dict(Vec::new())),
    );
    let entries = vec![bare];
    let got = find_characteristic(&entries, DEVICE_PREFIX, "1111");
    assert_eq!(got.unwrap_err(), Error::UnexpectedDbusReply);
}

#[test]
fn path_for_char_walks_the_reply() {
    let entry = characteristic_entry(
        "/org/bluez/hci0/dev_AA_BB_CC_DD_EE_FF/service000c/char000d",
        "1234",
    );
    let reply = vec![Param::Container(Container::Dict(vec![entry]))];
    let ble = Ble::new(0);
    let got = ble.path_for_char(&reply, "AA:BB:CC:DD:EE:FF", "1234");
    assert_eq!(
        got.unwrap(),
        Some(String::from(
            "/org/bluez/hci0/dev_AA_BB_CC_DD_EE_FF/service000c/char000d"
        ))
    );
}

#[test]
fn path_for_char_rejects_a_reply_of_the_wrong_shape() {
    let reply = vec![Param::Base(Base::Boolean(true))];
    let ble = Ble::new(0);
    let got = ble.path_for_char(&reply, "AA:BB:CC:DD:EE:FF", "1234");
    assert_eq!(got.unwrap_err(), Error::UnexpectedDbusReply);

    let empty_reply = Vec::new();
    let got = ble.path_for_char(&empty_reply, "AA:BB:CC:DD:EE:FF", "1234");
    assert_eq!(got.unwrap_err(), Error::UnexpectedDbusReply);
}
