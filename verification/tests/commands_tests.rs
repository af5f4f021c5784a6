use soundtouch_hub::commands::control_url;
use soundtouch_hub::commands::key_payload;
use soundtouch_hub::commands::prepare_play_command;
use soundtouch_hub::commands::prepare_preset_command;
use soundtouch_hub::commands::prepare_volume_command;
use soundtouch_hub::commands::relay_outcome;
use soundtouch_hub::commands::stream_payload;
use soundtouch_hub::errors::http_status;
use soundtouch_hub::errors::HubError;
use soundtouch_hub::registry::Registry;

fn selected(hostname: &str) -> Registry {
    let mut r = Registry::new();
    r.set(String::from(hostname));
    r
}

#[test]
fn no_selection_takes_precedence_over_a_malformed_field() {
    let registry = Registry::new();
    assert!(matches!(
        prepare_volume_command(&registry, "not a number"),
        Err(HubError::NoDeviceSelected)
    ));
    assert!(matches!(
        prepare_preset_command(&registry, "not a number"),
        Err(HubError::NoDeviceSelected)
    ));
    assert!(matches!(prepare_play_command(&registry, "PLAY_PAUSE"), Err(HubError::NoDeviceSelected)));
}

#[test]
fn malformed_fields_are_client_errors() {
    let registry = selected("speaker.local.");
    assert!(matches!(prepare_volume_command(&registry, "loud"), Err(HubError::MalformedInput)));
    assert!(matches!(prepare_volume_command(&registry, "300"), Err(HubError::MalformedInput)));
    assert!(matches!(prepare_preset_command(&registry, "1.5"), Err(HubError::MalformedInput)));
}

#[test]
fn well_formed_commands_carry_the_selected_target() {
    let registry = selected("speaker.local.");
    let (host, volume) = prepare_volume_command(&registry, "30").unwrap();
    assert_eq!(host, "speaker.local.");
    assert_eq!(volume, 30);
    let (host, preset) = prepare_preset_command(&registry, "4").unwrap();
    assert_eq!(host, "speaker.local.");
    assert_eq!(preset, 4);
    let (host, action) = prepare_play_command(&registry, "PLAY_PAUSE").unwrap();
    assert_eq!(host, "speaker.local.");
    assert_eq!(action, "PLAY_PAUSE");
}

#[test]
fn control_url_names_host_port_and_path() {
    assert_eq!(control_url("speaker.local.", "select"), "http://speaker.local.:8090/select");
    assert_eq!(control_url("speaker.local.", "key"), "http://speaker.local.:8090/key");
}

#[test]
fn stream_payload_wraps_the_url_in_the_content_item() {
    assert_eq!(
        stream_payload("http://radio.example/stream"),
        "<contentItem source=\"INTERNET_RADIO\" location=\"http://radio.example/stream\" \
         sourceAccount=\"\"><itemName>Custom Stream</itemName></contentItem>"
    );
}

#[test]
fn key_payload_wraps_the_action_in_a_key_press() {
    assert_eq!(
        key_payload("PLAY_PAUSE"),
        "<key state=\"press\" sender=\"Gabbo\">PLAY_PAUSE</key>"
    );
}

#[test]
fn relay_outcome_maps_failures_to_transient_errors() {
    assert!(matches!(relay_outcome(true), Ok(())));
    assert!(matches!(relay_outcome(false), Err(HubError::TransientQueryError)));
}

#[test]
fn http_status_distinguishes_the_surfaced_failures() {
    assert_eq!(http_status(&HubError::NoDeviceSelected), 503);
    assert_eq!(http_status(&HubError::TransientQueryError), 500);
    assert_eq!(http_status(&HubError::MalformedInput), 400);
}
