use vstd::prelude::*;

verus! {

/// The failure taxonomy of the hub core.
///
/// - `NoDeviceSelected`: the selection registry was empty at the point of
///   use; a distinct "unavailable" condition, so clients can tell "nothing
///   to talk to" from "talked to it and it failed".
/// - `TransientQueryError`: a poll or command against the device failed;
///   surfaced to the immediate caller, never fatal.
/// - `MalformedInput`: an unparseable numeric field in an inbound request;
///   a client error, not a server fault.
///
/// Discovery-subsystem failures never become a value of this type: they are
/// absorbed locally and the scan returns an empty result instead.
#[derive(Clone, Copy, Debug, PartialEq, Eq, Structural)]
pub enum HubError {
    NoDeviceSelected,
    TransientQueryError,
    MalformedInput,
}

/// The HTTP status code each surfaced failure maps to at the service
/// boundary: 503 for "nothing selected", 500 for a failed device query,
/// 400 for a malformed request field.
pub fn http_status(e: &HubError) -> (code: u16)
    ensures
        e is NoDeviceSelected ==> code == 503,
        e is TransientQueryError ==> code == 500,
        e is MalformedInput ==> code == 400,
{
    match e {
        HubError::NoDeviceSelected => 503,
        HubError::TransientQueryError => 500,
        HubError::MalformedInput => 400,
    }
}

} // verus!
