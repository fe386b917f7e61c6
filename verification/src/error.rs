//! The closed domain error taxonomy and the classifier that maps a received
//! error reply, together with the call-site context, into it.
//!
//! Two domain errors compare equal exactly when they carry the same tag;
//! any carried context or payload is ignored by equality.

use vstd::prelude::*;
use vstd::string::*;

use crate::params::{Base, Msg, Param};
use crate::text::str_eq;

verus! {

/// The high-level operation during which a failure was observed.
#[derive(Debug, PartialEq)]
pub enum Context {
    Remove,
    Connect,
    Disconnect,
    Pair,
    StartDiscovery,
    StopDiscovery,
    AquireNotify(String),
    ReadValue(String),
    WriteValue(String),
}

/// The closed domain error type returned by every fallible operation.
#[derive(Debug)]
pub enum Error {
    RustbusError(String),
    DbusConnectionError(String),
    DBusUnMashallError(String),
    CouldNotConnectToDevice,
    CouldNotConnectToBus(String),
    UuidNotFound,
    DoesNotExist(Context),
    CharacteristicNotFound,
    NoFdReturned,
    UnexpectedDbusReply,
    PairingTimeOut,
    CouldNotRemoveCache(String),
    OperationNotSupported(Context),
    InvalidLength(Context),
    AuthenticationCanceled(Context),
    AuthenticationFailed(Context),
    BluezFailed(Context),
    NotPermitted(Context),
    InProgress(Context),
    UnknownErrorMessage(String),
}

impl Error {
    /// The tag of an error, with every carried payload erased.
    pub open spec fn tag(&self) -> int {
        match self {
            Error::RustbusError(_) => 0,
            Error::DbusConnectionError(_) => 1,
            Error::DBusUnMashallError(_) => 2,
            Error::CouldNotConnectToDevice => 3,
            Error::CouldNotConnectToBus(_) => 4,
            Error::UuidNotFound => 5,
            Error::DoesNotExist(_) => 6,
            Error::CharacteristicNotFound => 7,
            Error::NoFdReturned => 8,
            Error::UnexpectedDbusReply => 9,
            Error::PairingTimeOut => 10,
            Error::CouldNotRemoveCache(_) => 11,
            Error::OperationNotSupported(_) => 12,
            Error::InvalidLength(_) => 13,
            Error::AuthenticationCanceled(_) => 14,
            Error::AuthenticationFailed(_) => 15,
            Error::BluezFailed(_) => 16,
            Error::NotPermitted(_) => 17,
            Error::InProgress(_) => 18,
            Error::UnknownErrorMessage(_) => 19,
        }
    }

    /// Executable tag of an error.
    fn tag_code(&self) -> (r: u8)
        ensures
            r as int == self.tag(),
    {
        match self {
            Error::RustbusError(_) => 0,
            Error::DbusConnectionError(_) => 1,
            Error::DBusUnMashallError(_) => 2,
            Error::CouldNotConnectToDevice => 3,
            Error::CouldNotConnectToBus(_) => 4,
            Error::UuidNotFound => 5,
            Error::DoesNotExist(_) => 6,
            Error::CharacteristicNotFound => 7,
            Error::NoFdReturned => 8,
            Error::UnexpectedDbusReply => 9,
            Error::PairingTimeOut => 10,
            Error::CouldNotRemoveCache(_) => 11,
            Error::OperationNotSupported(_) => 12,
            Error::InvalidLength(_) => 13,
            Error::AuthenticationCanceled(_) => 14,
            Error::AuthenticationFailed(_) => 15,
            Error::BluezFailed(_) => 16,
            Error::NotPermitted(_) => 17,
            Error::InProgress(_) => 18,
            Error::UnknownErrorMessage(_) => 19,
        }
    }
}

impl PartialEq for Error {
    /// Equality checks the tag only, never a carried context or payload.
    fn eq(&self, other: &Error) -> (r: bool) {
        self.tag_code() == other.tag_code()
    }
}

impl vstd::std_specs::cmp::PartialEqSpecImpl for Error {
    open spec fn obeys_eq_spec() -> bool {
        true
    }

    open spec fn eq_spec(&self, other: &Error) -> bool {
        self.tag() == other.tag()
    }
}

/// Two domain errors compare equal exactly when they carry the same tag:
/// values with the same tag but different contexts are equal, values with
/// different tags never are.
pub proof fn lemma_error_eq_is_tag_only(a: Error, b: Error)
    ensures
        vstd::std_specs::cmp::PartialEqSpec::eq_spec(&a, &b) <==> a.tag() == b.tag(),
{
}

/// The trailing argument of a message, when it is a plain string.
pub open spec fn trailing_string(params: Seq<Param>) -> Option<Seq<char>> {
    if params.len() == 0 {
        None
    } else {
        match params.last() {
            Param::Base(Base::Str(s)) => Some(s@),
            _ => None,
        }
    }
}

/// The diagnostic rendering an unclassifiable error reply is carried as:
/// its error name and its trailing string argument, where present.
pub open spec fn render_spec(msg: Msg) -> Seq<char> {
    "unknown dbus error: "@ + (match msg.error_name {
        Some(n) => n@,
        None => Seq::<char>::empty(),
    }) + (match trailing_string(msg.params@) {
        Some(t) => " / "@ + t,
        None => Seq::<char>::empty(),
    })
}

/// What `error_from` returns when one of the two fixed tables matches.
/// The trailing string argument is matched before the error-name field,
/// because the daemon reuses generic error names and differentiates some
/// failures only by message text.  No match yields nothing; `error_from`
/// then falls back to the unknown-error tag.
pub open spec fn classification(msg: Msg, context: Context) -> Option<Error> {
    if trailing_string(msg.params@) == Some("Operation is not supported"@) {
        Some(Error::OperationNotSupported(context))
    } else if trailing_string(msg.params@) == Some("Invalid Length"@) {
        Some(Error::InvalidLength(context))
    } else if msg.error_name matches Some(n) && n@ == "org.bluez.Error.AuthenticationCanceled"@ {
        Some(Error::AuthenticationCanceled(context))
    } else if msg.error_name matches Some(n) && n@ == "org.bluez.Error.AuthenticationFailed"@ {
        Some(Error::AuthenticationFailed(context))
    } else if msg.error_name matches Some(n) && n@ == "org.bluez.Error.DoesNotExist"@ {
        Some(Error::DoesNotExist(context))
    } else if msg.error_name matches Some(n) && n@ == "org.bluez.Error.Failed"@ {
        Some(Error::BluezFailed(context))
    } else if msg.error_name matches Some(n) && n@ == "org.bluez.Error.NotPermitted"@ {
        Some(Error::NotPermitted(context))
    } else if msg.error_name matches Some(n) && n@ == "org.bluez.Error.InProgress"@ {
        Some(Error::InProgress(context))
    } else {
        None
    }
}

/// Whether `e` is exactly what classifying the reply in the given context
/// yields: the table entry when one matches, else the unknown-error tag
/// carrying the reply's rendering.
pub open spec fn is_classified(e: Error, msg: Msg, context: Context) -> bool {
    match classification(msg, context) {
        Some(known) => e == known,
        None => e matches Error::UnknownErrorMessage(s) && s@ == render_spec(msg),
    }
}

/// Classifies an error reply into the domain taxonomy.  Classification
/// never fails: a reply matching no table yields the unknown-error tag
/// carrying a rendering of the reply.
pub fn error_from(msg: &Msg, context: Context) -> (r: Error)
    ensures
        match classification(*msg, context) {
            Some(e) => r == e,
            None => r matches Error::UnknownErrorMessage(s) && s@ == render_spec(*msg),
        },
{
    let n = msg.params.len();
    let trailing: Option<&String> = if n == 0 {
        None
    } else {
        match &msg.params[n - 1] {
            Param::Base(Base::Str(s)) => Some(s),
            _ => None,
        }
    };
    if let Some(t) = trailing {
        if str_eq(t.as_str(), "Operation is not supported") {
            return Error::OperationNotSupported(context);
        }
        if str_eq(t.as_str(), "Invalid Length") {
            return Error::InvalidLength(context);
        }
    }
    if let Some(name) = &msg.error_name {
        if str_eq(name.as_str(), "org.bluez.Error.AuthenticationCanceled") {
            return Error::AuthenticationCanceled(context);
        }
        if str_eq(name.as_str(), "org.bluez.Error.AuthenticationFailed") {
            return Error::AuthenticationFailed(context);
        }
        if str_eq(name.as_str(), "org.bluez.Error.DoesNotExist") {
            return Error::DoesNotExist(context);
        }
        if str_eq(name.as_str(), "org.bluez.Error.Failed") {
            return Error::BluezFailed(context);
        }
        if str_eq(name.as_str(), "org.bluez.Error.NotPermitted") {
            return Error::NotPermitted(context);
        }
        if str_eq(name.as_str(), "org.bluez.Error.InProgress") {
            return Error::InProgress(context);
        }
    }
    let mut out = String::from_str("unknown dbus error: ");
    if let Some(name) = &msg.error_name {
        out.append(name.as_str());
    }
    if let Some(t) = trailing {
        out.append(" / ");
        out.append(t.as_str());
    }
    proof {
        assert(out@ =~= render_spec(*msg));
    }
    Error::UnknownErrorMessage(out)
}

} // verus!
