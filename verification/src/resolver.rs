//! Resolution of a GATT characteristic's object path inside the daemon's
//! managed-object tree: computing the device's path prefix, filtering the
//! tree's entries, and comparing each candidate's UUID property.

use vstd::prelude::*;
use vstd::string::*;

use crate::error::Error;
use crate::params::{Base, Container, Param};
use crate::text::{
    contains_sub, dec_seq, lemma_dec_seq_no_colon, replace_colons, str_contains, str_eq,
    u8_decimal, underscored,
};

verus! {

/// The object-path prefix of a device: the adapter's path followed by the
/// device address with its colons replaced by underscores.
pub open spec fn device_path_spec(adapter: nat, address: Seq<char>) -> Seq<char> {
    "/org/bluez/hci"@ + dec_seq(adapter) + "/dev_"@ + underscored(address)
}

/// Computes the device's object-path prefix.
pub fn device_path(adapter_numb: u8, address: &str) -> (r: String)
    ensures
        r@ == device_path_spec(adapter_numb as nat, address@),
{
    let mut out = String::from_str("/org/bluez/hci");
    let numb = u8_decimal(adapter_numb);
    out.append(numb.as_str());
    out.append("/dev_");
    let addr = replace_colons(address);
    out.append(addr.as_str());
    proof {
        assert(out@ =~= device_path_spec(adapter_numb as nat, address@));
    }
    out
}

/// Every colon of the address maps to an underscore in the computed
/// prefix, and the prefix contains no colon at all.
pub proof fn lemma_device_path_no_colons(adapter: nat, address: Seq<char>)
    ensures
        forall|i: int|
            0 <= i < address.len() && address[i] == ':' ==> underscored(address)[i] == '_',
        forall|i: int|
            0 <= i < device_path_spec(adapter, address).len() ==> device_path_spec(
                adapter,
                address,
            )[i] != ':',
{
    lemma_dec_seq_no_colon(adapter);
    reveal_strlit("/org/bluez/hci");
    reveal_strlit("/dev_");
    let path = device_path_spec(adapter, address);
    assert forall|i: int| 0 <= i < path.len() implies path[i] != ':' by {
        let hci = "/org/bluez/hci"@;
        let dev = "/dev_"@;
        let num = dec_seq(adapter);
        let tail = underscored(address);
        if i < hci.len() {
            assert(path[i] == hci[i]);
        } else if i < hci.len() + num.len() {
            assert(path[i] == num[i - hci.len()]);
        } else if i < hci.len() + num.len() + dev.len() {
            assert(path[i] == dev[i - hci.len() - num.len()]);
        } else {
            assert(path[i] == tail[i - hci.len() - num.len() - dev.len()]);
        }
    }
}

/// The object path an entry's key carries.
pub open spec fn path_of(key: Base) -> Seq<char> {
    match key {
        Base::ObjectPath(p) => p@,
        _ => Seq::empty(),
    }
}

/// Whether an entry's key passes the candidate filter: an object path
/// that belongs to the device, names a characteristic node, and is not a
/// descriptor node nested under one.
pub open spec fn is_candidate_key(key: Base, device_path: Seq<char>) -> bool {
    &&& key matches Base::ObjectPath(p)
    &&& contains_sub(p@, device_path)
    &&& contains_sub(p@, "char"@)
    &&& !contains_sub(p@, "desc"@)
}

/// The first value in the entry list under a plain-string key.
pub open spec fn dict_lookup(entries: Seq<(Base, Param)>, key: Seq<char>) -> Option<Param>
    decreases entries.len(),
{
    if entries.len() == 0 {
        None
    } else if entries[0].0 matches Base::Str(s) && s@ == key {
        Some(entries[0].1)
    } else {
        dict_lookup(entries.drop_first(), key)
    }
}

/// Finds the first entry under a plain-string key.
fn dict_get<'a>(entries: &'a Vec<(Base, Param)>, key: &str) -> (r: Option<&'a Param>)
    ensures
        match r {
            Some(p) => dict_lookup(entries@, key@) == Some(*p),
            None => dict_lookup(entries@, key@) is None,
        },
{
    let mut i: usize = 0;
    proof {
        assert(entries@.skip(0) =~= entries@);
    }
    while i < entries.len()
        invariant
            i <= entries@.len(),
            dict_lookup(entries@, key@) == dict_lookup(entries@.skip(i as int), key@),
        decreases entries@.len() - i,
    {
        proof {
            assert(entries@.skip(i as int)[0] == entries@[i as int]);
            assert(entries@.skip(i as int).drop_first() =~= entries@.skip(i as int + 1));
        }
        match &entries[i].0 {
            Base::Str(s) => {
                if str_eq(s.as_str(), key) {
                    return Some(&entries[i].1);
                }
            },
            _ => {},
        }
        i += 1;
    }
    proof {
        assert(entries@.skip(entries@.len() as int) =~= Seq::<(Base, Param)>::empty());
    }
    None
}

/// The UUID a candidate entry carries: the characteristic interface's
/// property map, its UUID property, the wrapped variant, narrowed to a
/// string.  Nothing when any stage's shape fails.
pub open spec fn entry_uuid(val: Param) -> Option<Seq<char>> {
    match val {
        Param::Container(Container::Dict(interfaces)) => match dict_lookup(
            interfaces@,
            "org.bluez.GattCharacteristic1"@,
        ) {
            Some(Param::Container(Container::Dict(props))) => match dict_lookup(
                props@,
                "UUID"@,
            ) {
                Some(Param::Container(Container::Variant(v))) => match v.value {
                    Param::Base(Base::Str(s)) => Some(s@),
                    _ => None,
                },
                _ => None,
            },
            _ => None,
        },
        _ => None,
    }
}

/// Extracts the UUID a candidate entry carries.
fn entry_uuid_exec<'a>(val: &'a Param) -> (r: Option<&'a String>)
    ensures
        match r {
            Some(s) => entry_uuid(*val) == Some(s@),
            None => entry_uuid(*val) is None,
        },
{
    let interfaces = match val {
        Param::Container(Container::Dict(d)) => d,
        _ => {
            return None;
        },
    };
    let props_param = match dict_get(interfaces, "org.bluez.GattCharacteristic1") {
        Some(p) => p,
        None => {
            return None;
        },
    };
    let props = match props_param {
        Param::Container(Container::Dict(d)) => d,
        _ => {
            return None;
        },
    };
    let uuid_param = match dict_get(props, "UUID") {
        Some(p) => p,
        None => {
            return None;
        },
    };
    let variant = match uuid_param {
        Param::Container(Container::Variant(v)) => v,
        _ => {
            return None;
        },
    };
    match &variant.value {
        Param::Base(Base::Str(s)) => Some(s),
        _ => None,
    }
}

/// The outcome of walking the entry list in order, first match winning:
/// the path of the first candidate whose UUID equals the requested one; a
/// clean "no match" when the list is exhausted; a failure when a candidate
/// breaks the shape the daemon guarantees.
pub open spec fn resolve_spec(
    entries: Seq<(Base, Param)>,
    dev: Seq<char>,
    uuid: Seq<char>,
) -> Result<Option<Seq<char>>, ()>
    decreases entries.len(),
{
    if entries.len() == 0 {
        Ok(None)
    } else if is_candidate_key(entries[0].0, dev) {
        match entry_uuid(entries[0].1) {
            Some(u) => if u == uuid {
                Ok(Some(path_of(entries[0].0)))
            } else {
                resolve_spec(entries.drop_first(), dev, uuid)
            },
            None => Err(()),
        }
    } else {
        resolve_spec(entries.drop_first(), dev, uuid)
    }
}

/// Resolution over entries none of which passes the candidate filter is a
/// clean "no match", never an error.
pub proof fn lemma_resolve_no_candidates(
    entries: Seq<(Base, Param)>,
    dev: Seq<char>,
    uuid: Seq<char>,
)
    requires
        forall|i: int| 0 <= i < entries.len() ==> !is_candidate_key(#[trigger] entries[i].0, dev),
    ensures
        resolve_spec(entries, dev, uuid) == Ok::<Option<Seq<char>>, ()>(None),
    decreases entries.len(),
{
    if entries.len() > 0 {
        assert(!is_candidate_key(entries[0].0, dev));
        assert forall|i: int|
            0 <= i < entries.drop_first().len() implies !is_candidate_key(
            #[trigger] entries.drop_first()[i].0,
            dev,
        ) by {
            assert(entries.drop_first()[i] == entries[i + 1]);
        }
        lemma_resolve_no_candidates(entries.drop_first(), dev, uuid);
    }
}

/// Walks the managed-object entries and returns the object path of the
/// first characteristic node of the device that carries the requested
/// UUID; a candidate without the guaranteed interface or UUID shape is a
/// protocol-contract violation.
pub fn find_characteristic(
    entries: &Vec<(Base, Param)>,
    device_path: &str,
    char_uuid: &str,
) -> (r: Result<Option<String>, Error>)
    ensures
        match resolve_spec(entries@, device_path@, char_uuid@) {
            Ok(Some(p)) => r matches Ok(Some(s)) && s@ == p,
            Ok(None) => r matches Ok(o) && o is None,
            Err(_) => r matches Err(e) && e == Error::UnexpectedDbusReply,
        },
{
    let mut i: usize = 0;
    proof {
        assert(entries@.skip(0) =~= entries@);
    }
    while i < entries.len()
        invariant
            i <= entries@.len(),
            resolve_spec(entries@, device_path@, char_uuid@) == resolve_spec(
                entries@.skip(i as int),
                device_path@,
                char_uuid@,
            ),
        decreases entries@.len() - i,
    {
        proof {
            assert(entries@.skip(i as int)[0] == entries@[i as int]);
            assert(entries@.skip(i as int).drop_first() =~= entries@.skip(i as int + 1));
        }
        let entry = &entries[i];
        match &entry.0 {
            Base::ObjectPath(p) => {
                if str_contains(p.as_str(), device_path) && str_contains(p.as_str(), "char")
                    && !str_contains(p.as_str(), "desc") {
                    match entry_uuid_exec(&entry.1) {
                        Some(u) => {
                            if str_eq(u.as_str(), char_uuid) {
                                return Ok(Some(p.clone()));
                            }
                        },
                        None => {
                            return Err(Error::UnexpectedDbusReply);
                        },
                    }
                }
            },
            _ => {},
        }
        i += 1;
    }
    proof {
        assert(entries@.skip(entries@.len() as int) =~= Seq::<(Base, Param)>::empty());
    }
    Ok(None)
}

} // verus!
