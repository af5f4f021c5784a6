use vstd::prelude::*;
use crate::errors::HubError;
use crate::registry::Registry;

verus! {

/// One point-in-time read of the selected device's playback and volume
/// state, normalized: an unknown artist or track becomes the empty string,
/// the volume is clamped at a zero floor. Assembled fresh per poll, never
/// stored.
pub struct Status {
    pub artist: String,
    pub track: String,
    pub volume: u32,
}

/// A normalized text field: a missing reading becomes the empty string.
pub open spec fn normalized_text(raw: Option<String>) -> Seq<char> {
    match raw {
        Some(s) => s@,
        None => Seq::<char>::empty(),
    }
}

/// The normalized volume: a reading below zero is clamped to zero.
pub open spec fn clamped_volume(raw: i32) -> u32 {
    if raw >= 0 {
        raw as u32
    } else {
        0
    }
}

/// Resolve the target of a poll (or of a relayed command) from a snapshot
/// of the registry: with nothing selected it fails fast with
/// `NoDeviceSelected` — the error is produced before any network call can
/// happen, since only the returned hostname ever reaches the device client.
/// With a device selected, the target is exactly the selected hostname.
pub fn poll_target(registry: &Registry) -> (r: Result<String, HubError>)
    ensures
        registry.spec_is_empty() <==> r is Err,
        r is Err ==> r == Err::<String, HubError>(HubError::NoDeviceSelected),
        r matches Ok(h) ==> h@ == registry@,
{
    if registry.is_empty() {
        Err(HubError::NoDeviceSelected)
    } else {
        Ok(registry.get())
    }
}

/// Assemble the snapshot a poll returns from the raw device readings:
/// missing artist or track normalize to the empty string, and a negative
/// volume reading is clamped to zero.
pub fn compose_status(artist: Option<String>, track: Option<String>, volume: i32) -> (s: Status)
    ensures
        s.artist@ == normalized_text(artist),
        s.track@ == normalized_text(track),
        s.volume == clamped_volume(volume),
{
    let a = match artist {
        Some(a) => a,
        None => String::new(),
    };
    let t = match track {
        Some(t) => t,
        None => String::new(),
    };
    let v: u32 = if volume >= 0 {
        volume as u32
    } else {
        0
    };
    Status { artist: a, track: t, volume: v }
}

} // verus!
