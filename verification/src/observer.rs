//! Decision logic of the device observer.
//!
//! The observer watches the adapter for devices of interest, now and
//! continuously, and notifies a consumer by address. An unverified driver
//! owns the adapter session and the consumer channel; it distils each raw
//! adapter event into an [`AdapterEvent`], asks [`classify_event`] what the
//! event calls for, runs the qualification predicate and the address query
//! where a check is called for, and lets [`check_and_notify`] decide whether
//! an address is sent. The startup sweep over already-connected devices is
//! the same rule folded over the enumeration, [`sweep_emissions`].

use vstd::prelude::*;

verus! {

/// A domain event distilled from the adapter's raw event stream.
pub enum AdapterEvent {
    /// A device's connectivity changed. `path` is the adapter's identifier
    /// for the device; `connected` is the new state.
    ConnectivityChanged { path: String, connected: bool },
    /// Any adapter event that is not a device connectivity change.
    Other,
}

/// What the event loop does with one adapter event.
pub enum EventAction {
    /// Run the shared check-and-notify rule on the device at `path`.
    Check { path: String },
    /// Do nothing: the event is not an arrival.
    Ignore,
}

/// What check-and-notify decides for one device.
pub enum NotifyDecision {
    /// Deliver `address` to the consumer channel.
    Emit { address: String },
    /// The device does not qualify: deliver nothing.
    Skip,
    /// The device qualifies but its address could not be resolved: deliver
    /// nothing, surface a diagnostic, and keep the loop running.
    ResolveFailed,
}

/// The action the event loop owes to `e`: a check exactly for a
/// connectivity change whose new state is connected.
pub open spec fn classify_spec(e: AdapterEvent) -> EventAction {
    match e {
        AdapterEvent::ConnectivityChanged { path, connected } => if connected {
            EventAction::Check { path }
        } else {
            EventAction::Ignore
        },
        AdapterEvent::Other => EventAction::Ignore,
    }
}

/// Classify one adapter event: only an arrival — a connectivity change to
/// the connected state — calls for a device check; everything else is
/// ignored.
pub fn classify_event(e: AdapterEvent) -> (a: EventAction)
    ensures
        a == classify_spec(e),
{
    match e {
        AdapterEvent::ConnectivityChanged { path, connected } => if connected {
            EventAction::Check { path }
        } else {
            EventAction::Ignore
        },
        AdapterEvent::Other => EventAction::Ignore,
    }
}

/// A connectivity change to the disconnected state is ignored: departures
/// never trigger a device check, whatever the device.
pub proof fn lemma_disconnection_ignored(path: String)
    ensures
        (classify_spec(
            AdapterEvent::ConnectivityChanged { path, connected: false },
        ) == EventAction::Ignore),
{
}

/// An event that is not a device connectivity change is ignored.
pub proof fn lemma_other_ignored()
    ensures
        classify_spec(AdapterEvent::Other) == EventAction::Ignore,
{
}

/// What check-and-notify decides, given the predicate's verdict and the
/// outcome of the address query (`None` when the query failed).
pub open spec fn notify_spec(qualifies: bool, resolved: Option<String>) -> NotifyDecision {
    if !qualifies {
        NotifyDecision::Skip
    } else {
        match resolved {
            Some(address) => NotifyDecision::Emit { address },
            None => NotifyDecision::ResolveFailed,
        }
    }
}

/// The shared check-and-notify rule, used by the startup sweep and by the
/// event loop alike: emit the device's address exactly when the
/// qualification predicate holds and the address was resolved.
pub fn check_and_notify(qualifies: bool, resolved: Option<String>) -> (d: NotifyDecision)
    ensures
        d == notify_spec(qualifies, resolved),
{
    if !qualifies {
        NotifyDecision::Skip
    } else {
        match resolved {
            Some(address) => NotifyDecision::Emit { address },
            None => NotifyDecision::ResolveFailed,
        }
    }
}

/// Check-and-notify sends on the channel iff the predicate holds and
/// address resolution succeeded — and then sends exactly the resolved
/// address.
pub proof fn lemma_notify_emits_iff(qualifies: bool, resolved: Option<String>)
    ensures
        notify_spec(qualifies, resolved) is Emit <==> (qualifies && resolved is Some),
        notify_spec(qualifies, resolved) matches NotifyDecision::Emit { address } ==> resolved
            == Some(address),
{
}

/// One device of the startup enumeration, as the driver observed it.
pub struct DeviceReport {
    /// The connectivity query's outcome: `Some(true)` connected,
    /// `Some(false)` not connected, `None` when the query itself failed.
    pub connected: Option<bool>,
    /// The qualification predicate's verdict for the device.
    pub qualifies: bool,
    /// The address query's outcome, `None` when it failed.
    pub resolved: Option<String>,
}

/// True when the startup sweep emits for this report: the device reported
/// connected, qualified, and its address was resolved.
pub open spec fn report_emits(r: DeviceReport) -> bool {
    &&& r.connected == Some(true)
    &&& r.qualifies
    &&& r.resolved is Some
}

/// The addresses the startup sweep delivers for `reports`, in enumeration
/// order: one per emitting report, nothing else.
pub open spec fn sweep_spec(reports: Seq<DeviceReport>) -> Seq<String>
    decreases reports.len(),
{
    if reports.len() == 0 {
        Seq::empty()
    } else if report_emits(reports.last()) {
        sweep_spec(reports.drop_last()).push(reports.last().resolved->0)
    } else {
        sweep_spec(reports.drop_last())
    }
}

/// The startup sweep over one enumeration of the adapter's devices: the
/// addresses to deliver, in enumeration order.
pub fn sweep_emissions(reports: &Vec<DeviceReport>) -> (out: Vec<String>)
    ensures
        out@ == sweep_spec(reports@),
{
    let mut out: Vec<String> = Vec::new();
    let mut i: usize = 0;
    while i < reports.len()
        invariant
            i <= reports@.len(),
            out@ == sweep_spec(reports@.take(i as int)),
        decreases reports@.len() - i,
    {
        let r = &reports[i];
        let is_connected = match r.connected {
            Some(true) => true,
            _ => false,
        };
        if is_connected && r.qualifies {
            match &r.resolved {
                Some(address) => out.push(address.clone()),
                None => {},
            }
        }
        proof {
            assert(reports@.take(i + 1).drop_last() =~= reports@.take(i as int));
            assert(reports@.take(i + 1).last() == reports@[i as int]);
        }
        i = i + 1;
    }
    proof {
        assert(reports@.take(reports@.len() as int) =~= reports@);
    }
    out
}

/// A report that emits contributes exactly one delivery, its resolved
/// address, after all deliveries of the reports enumerated before it.
pub proof fn lemma_sweep_emitting_report(reports: Seq<DeviceReport>, r: DeviceReport)
    requires
        report_emits(r),
    ensures
        sweep_spec(reports.push(r)) == sweep_spec(reports).push(r.resolved->0),
{
    assert(reports.push(r).drop_last() =~= reports);
    assert(reports.push(r).last() == r);
}

/// A report that does not emit contributes nothing: the sweep's deliveries
/// are unchanged by it.
pub proof fn lemma_sweep_silent_report(reports: Seq<DeviceReport>, r: DeviceReport)
    requires
        !report_emits(r),
    ensures
        sweep_spec(reports.push(r)) == sweep_spec(reports),
{
    assert(reports.push(r).drop_last() =~= reports);
    assert(reports.push(r).last() == r);
}

/// The sweep's deliveries are exactly the resolved addresses of the
/// emitting reports, in enumeration order: each qualifying, connected,
/// resolved device is delivered exactly once, every other device not at
/// all.
pub proof fn lemma_sweep_is_emissions_in_order(reports: Seq<DeviceReport>)
    ensures
        sweep_spec(reports) == reports.filter(|r: DeviceReport| report_emits(r)).map_values(
            |r: DeviceReport| r.resolved->0,
        ),
    decreases reports.len(),
{
    reveal(Seq::filter);
    let emits = |r: DeviceReport| report_emits(r);
    let to_address = |r: DeviceReport| r.resolved->0;
    if reports.len() == 0 {
        assert(reports.filter(emits).map_values(to_address) =~= Seq::<String>::empty());
    } else {
        let dl = reports.drop_last();
        lemma_sweep_is_emissions_in_order(dl);
        if report_emits(reports.last()) {
            assert(reports.filter(emits) == dl.filter(emits).push(reports.last()));
            assert(reports.filter(emits).map_values(to_address) =~= dl.filter(emits).map_values(
                to_address,
            ).push(reports.last().resolved->0));
        } else {
            assert(reports.filter(emits) == dl.filter(emits));
        }
    }
}

/// The sweep never emits for a device whose connectivity query failed or
/// reported not connected: removing such a device from the enumeration
/// leaves the deliveries exactly as they were.
pub proof fn lemma_sweep_ignores_unconnected(reports: Seq<DeviceReport>, i: int)
    requires
        0 <= i < reports.len(),
        reports[i].connected != Some(true),
    ensures
        sweep_spec(reports) == sweep_spec(reports.remove(i)),
    decreases reports.len(),
{
    if i == reports.len() - 1 {
        assert(reports.remove(i) =~= reports.drop_last());
    } else {
        let dl = reports.drop_last();
        lemma_sweep_ignores_unconnected(dl, i);
        assert(reports.remove(i).drop_last() =~= dl.remove(i));
        assert(reports.remove(i).last() == reports.last());
    }
}

} // verus!
