use vstd::prelude::*;
use crate::registry::Registry;

verus! {

/// A discovered endpoint. The hostname is the stable identifier used as the
/// selection key; ip and port are advisory (the ip may be empty when
/// unresolved); `realname` is the human-readable full service name. A record
/// is immutable once constructed and lives only in one scan's result set.
pub struct Device {
    pub hostname: String,
    pub ip: String,
    pub port: u16,
    pub realname: String,
}

/// One observation made while a scan's time budget runs. The waiting itself
/// (service-advertisement listener, per-attempt timeout) happens outside;
/// the scan consumes the resulting events one by one.
pub enum ScanEvent {
    /// A resolved-service event, already converted to its plain fields.
    Resolved(Device),
    /// A per-event receive error: logged and skipped, the scan continues.
    ReceiveFailed,
    /// One short wait elapsed with nothing received: the scan continues,
    /// staying responsive until its overall budget is exhausted.
    TimedOut,
}

/// How many of the events were resolved-service events.
pub open spec fn resolved_count(events: Seq<ScanEvent>) -> nat
    decreases events.len(),
{
    if events.len() == 0 {
        0
    } else {
        resolved_count(events.drop_last()) + (if events.last() is Resolved {
            1nat
        } else {
            0nat
        })
    }
}

/// The device list a scan over these events returns: one record per
/// resolved event, in order of observation; other events contribute nothing.
pub open spec fn scan_devices(events: Seq<ScanEvent>) -> Seq<Device>
    decreases events.len(),
{
    if events.len() == 0 {
        Seq::<Device>::empty()
    } else {
        let rest = scan_devices(events.drop_last());
        match events.last() {
            ScanEvent::Resolved(d) => rest.push(d),
            _ => rest,
        }
    }
}

/// The effect of one event on the selection: the first resolved device seen
/// while nothing is selected becomes the default selection; once something
/// is selected, the scan never overwrites it.
pub open spec fn selection_step(sel: Seq<char>, event: ScanEvent) -> Seq<char> {
    match event {
        ScanEvent::Resolved(d) => if sel.len() == 0 {
            d.hostname@
        } else {
            sel
        },
        _ => sel,
    }
}

/// The selection after a scan over these events, run uninterrupted from a
/// registry state `sel` (no racing writer in between).
pub open spec fn scan_selection(sel: Seq<char>, events: Seq<ScanEvent>) -> Seq<char>
    decreases events.len(),
{
    if events.len() == 0 {
        sel
    } else {
        selection_step(scan_selection(sel, events.drop_last()), events.last())
    }
}

/// The hostname of the first resolved device among the events (the empty
/// sequence when there is none).
pub open spec fn first_resolved_hostname(events: Seq<ScanEvent>) -> Seq<char>
    decreases events.len(),
{
    if events.len() == 0 {
        Seq::<char>::empty()
    } else if resolved_count(events.drop_last()) >= 1 {
        first_resolved_hostname(events.drop_last())
    } else {
        match events.last() {
            ScanEvent::Resolved(d) => d.hostname@,
            _ => Seq::<char>::empty(),
        }
    }
}

/// One in-progress discovery scan: the result list built so far, with the
/// events that produced it as its ghost history.
pub struct Scan {
    devices: Vec<Device>,
    history: Ghost<Seq<ScanEvent>>,
}

impl Scan {
    /// The events this scan has consumed so far.
    pub closed spec fn history(&self) -> Seq<ScanEvent> {
        self.history@
    }

    /// The result list is exactly the fold of the history.
    pub closed spec fn wf(&self) -> bool {
        self.devices@ == scan_devices(self.history@)
    }

    /// A scan that has seen nothing yet.
    pub fn new() -> (s: Scan)
        ensures
            s.wf(),
            s.history() == Seq::<ScanEvent>::empty(),
    {
        Scan { devices: Vec::new(), history: Ghost(Seq::empty()) }
    }

    /// Consume one event: a resolved device is appended to the result list
    /// and, if and only if nothing is selected at that moment, becomes the
    /// default selection; receive errors and timeouts are skipped. The
    /// registry is re-read on every event, so a selection made elsewhere
    /// between events is honored.
    pub fn on_event(&mut self, registry: &mut Registry, event: ScanEvent)
        requires
            old(self).wf(),
        ensures
            final(self).wf(),
            final(self).history() == old(self).history().push(event),
            final(registry)@ == selection_step(old(registry)@, event),
    {
        let ghost e = event;
        match event {
            ScanEvent::Resolved(d) => {
                if registry.is_empty() {
                    registry.set(d.hostname.clone());
                }
                self.devices.push(d);
            },
            ScanEvent::ReceiveFailed => {},
            ScanEvent::TimedOut => {},
        }
        proof {
            self.history@ = self.history@.push(e);
            assert(self.history@.drop_last() == old(self).history());
        }
    }

    /// Scan completion (time budget exhausted): hand out the result list,
    /// one device per resolved event, in order of observation.
    pub fn finish(self) -> (devices: Vec<Device>)
        requires
            self.wf(),
        ensures
            devices@ == scan_devices(self.history()),
    {
        self.devices
    }
}

/// Law: a scan returns exactly one device per resolved event, so the result
/// length never exceeds the number of resolved events received within the
/// time budget.
pub proof fn lemma_scan_length(events: Seq<ScanEvent>)
    ensures
        scan_devices(events).len() == resolved_count(events),
    decreases events.len(),
{
    if events.len() > 0 {
        lemma_scan_length(events.drop_last());
    }
}

/// Events without a resolved device never move the selection.
pub proof fn lemma_no_resolved_keeps_selection(sel: Seq<char>, events: Seq<ScanEvent>)
    requires
        resolved_count(events) == 0,
    ensures
        scan_selection(sel, events) == sel,
    decreases events.len(),
{
    if events.len() > 0 {
        lemma_no_resolved_keeps_selection(sel, events.drop_last());
    }
}

/// Law: if nothing is selected before a scan and the scan resolves at least
/// one device, then after the scan (run with no racing writer) the selection
/// is the hostname of the first device observed. A first device whose
/// hostname is itself the empty sentinel is left out: it cannot occupy the
/// selection, so a later device would take it.
pub proof fn lemma_scan_seeds_selection(sel: Seq<char>, events: Seq<ScanEvent>)
    requires
        sel.len() == 0,
        resolved_count(events) >= 1,
        first_resolved_hostname(events).len() > 0,
    ensures
        scan_selection(sel, events) == first_resolved_hostname(events),
    decreases events.len(),
{
    let rest = events.drop_last();
    if resolved_count(rest) >= 1 {
        lemma_scan_seeds_selection(sel, rest);
    } else {
        lemma_no_resolved_keeps_selection(sel, rest);
    }
}

} // verus!
