use vstd::prelude::*;
use vstd::string::StringExecFns;
use crate::errors::HubError;
use crate::parse::is_i32_numeral;
use crate::parse::is_u8_numeral;
use crate::parse::i32_numeral_value;
use crate::parse::parse_preset;
use crate::parse::parse_volume;
use crate::parse::u8_numeral_value;
use crate::poll::poll_target;
use crate::registry::Registry;

verus! {

/// The decision core of the set-volume endpoint: require a selected device,
/// then read the requested volume. With nothing selected the command fails
/// with `NoDeviceSelected` (the selection test runs first, so it takes precedence over
/// a malformed field); with a malformed field it fails with
/// `MalformedInput`; otherwise the target hostname and the parsed volume
/// are handed to the device client.
pub fn prepare_volume_command(registry: &Registry, input: &str) -> (r: Result<
    (String, u8),
    HubError,
>)
    ensures
        registry.spec_is_empty() ==> r == Err::<(String, u8), HubError>(
            HubError::NoDeviceSelected,
        ),
        !registry.spec_is_empty() && !is_u8_numeral(input@) ==> r == Err::<
            (String, u8),
            HubError,
        >(HubError::MalformedInput),
        !registry.spec_is_empty() && is_u8_numeral(input@) ==> (r matches Ok(p) && p.0@
            == registry@ && p.1 as nat == u8_numeral_value(input@)),
{
    match poll_target(registry) {
        Err(e) => Err(e),
        Ok(host) => match parse_volume(input) {
            Err(e) => Err(e),
            Ok(v) => Ok((host, v)),
        },
    }
}

/// The decision core of the select-preset endpoint: require a selected
/// device, then read the requested preset number. Failure order and
/// taxonomy are as for the volume command.
pub fn prepare_preset_command(registry: &Registry, input: &str) -> (r: Result<
    (String, i32),
    HubError,
>)
    ensures
        registry.spec_is_empty() ==> r == Err::<(String, i32), HubError>(
            HubError::NoDeviceSelected,
        ),
        !registry.spec_is_empty() && !is_i32_numeral(input@) ==> r == Err::<
            (String, i32),
            HubError,
        >(HubError::MalformedInput),
        !registry.spec_is_empty() && is_i32_numeral(input@) ==> (r matches Ok(p) && p.0@
            == registry@ && p.1 as int == i32_numeral_value(input@)),
{
    match poll_target(registry) {
        Err(e) => Err(e),
        Ok(host) => match parse_preset(input) {
            Err(e) => Err(e),
            Ok(v) => Ok((host, v)),
        },
    }
}

/// The decision core of the play-stream and key-press endpoints: require a
/// selected device and pass the request field through unchanged.
pub fn prepare_play_command(registry: &Registry, input: &str) -> (r: Result<
    (String, String),
    HubError,
>)
    ensures
        registry.spec_is_empty() ==> r == Err::<(String, String), HubError>(
            HubError::NoDeviceSelected,
        ),
        !registry.spec_is_empty() ==> (r matches Ok(p) && p.0@ == registry@ && p.1@ == input@),
{
    match poll_target(registry) {
        Err(e) => Err(e),
        Ok(host) => Ok((host, input.to_owned())),
    }
}

/// The control URL for an endpoint path on the selected host: the device's
/// proprietary control service listens on port 8090.
pub fn control_url(hostname: &str, path: &str) -> (r: String)
    ensures
        r@ == "http://"@ + hostname@ + ":8090/"@ + path@,
{
    String::from_str("http://").concat(hostname).concat(":8090/").concat(path)
}

/// The XML payload that selects a custom internet-radio stream on the
/// device.
pub fn stream_payload(stream_url: &str) -> (r: String)
    ensures
        r@ == "<contentItem source=\"INTERNET_RADIO\" location=\""@ + stream_url@
            + "\" sourceAccount=\"\"><itemName>Custom Stream</itemName></contentItem>"@,
{
    String::from_str("<contentItem source=\"INTERNET_RADIO\" location=\"").concat(
        stream_url,
    ).concat("\" sourceAccount=\"\"><itemName>Custom Stream</itemName></contentItem>")
}

/// The XML payload for a key press relayed to the device.
pub fn key_payload(action: &str) -> (r: String)
    ensures
        r@ == "<key state=\"press\" sender=\"Gabbo\">"@ + action@ + "</key>"@,
{
    String::from_str("<key state=\"press\" sender=\"Gabbo\">").concat(action).concat("</key>")
}

/// Map the outcome of a relayed send — reported as "the request went out
/// and came back with a success status" or not — to the hub's taxonomy:
/// any transport failure or non-success status is a transient query error,
/// surfaced to the immediate caller and never fatal.
pub fn relay_outcome(sent_ok: bool) -> (r: Result<(), HubError>)
    ensures
        sent_ok ==> r == Ok::<(), HubError>(()),
        !sent_ok ==> r == Err::<(), HubError>(HubError::TransientQueryError),
{
    if sent_ok {
        Ok(())
    } else {
        Err(HubError::TransientQueryError)
    }
}

} // verus!
