//! What holds of every scan, stated over the models of the other modules and
//! proved from them.
//!
//! The world outside the library enters as two sets: the ports on which
//! something listens, and the ports whose probe breaks off abnormally. The
//! sequence of results that reaches the collector is tied to them by
//! [`delivery`].

use vstd::prelude::*;
use crate::probe::{ProbeEvent, ProbeResult, ProberView};
use crate::report::{admitted, lemma_admitted, lemma_consistent_len};
use crate::scan::{ScanView, TaskEnd};
use crate::target::TargetView;

verus! {

/// How a connection attempt on `port` ends when the ports of `listening` have
/// a listener and no other port has.
pub open spec fn attempt(listening: Set<int>, port: int) -> ProbeEvent {
    if listening.contains(port) {
        ProbeEvent::Connected
    } else {
        ProbeEvent::ConnectFailed
    }
}

/// `result` is what the prober of its own port hands over in a scan of
/// `target` against `listening`.
pub open spec fn handed_over(target: TargetView, listening: Set<int>, result: ProbeResult) -> bool {
    &&& target.contains(result.port as int)
    &&& ProberView::emitted(target.address, result.port, attempt(listening, result.port as int))
        == Some(result)
}

/// `delivered` is a sequence that can reach the collector in a scan of
/// `target` against `listening` in which the probes of the ports in `broken`
/// break off abnormally: for every other port it holds what that port's
/// prober handed over and nothing else. Neither the order of delivery nor how
/// often a result arrives is fixed, and nothing is said of the ports in
/// `broken`.
pub open spec fn delivery(
    target: TargetView,
    listening: Set<int>,
    broken: Set<int>,
    delivered: Seq<ProbeResult>,
) -> bool {
    forall|r: ProbeResult|
        !broken.contains(r.port as int) ==> (#[trigger] delivered.contains(r) <==> handed_over(
            target,
            listening,
            r,
        ))
}

/// Some result of `results` is for `port`.
pub open spec fn reports(results: Seq<ProbeResult>, port: int) -> bool {
    exists|i: int| 0 <= i < results.len() && (#[trigger] results[i]).port == port
}

/// Exactly one result of `results` is for `port`.
pub open spec fn reports_once(results: Seq<ProbeResult>, port: int) -> bool {
    exists|i: int|
        0 <= i < results.len() && (#[trigger] results[i]).port == port && forall|j: int|
            0 <= j < results.len() && (#[trigger] results[j]).port == port ==> j == i
}

/// How many of the actions with which a probe answers `events`, one after
/// another, ask for a delivery.
pub open spec fn deliveries(prober: ProberView, events: Seq<ProbeEvent>) -> nat
    decreases events.len(),
{
    if events.len() == 0 {
        0
    } else {
        let asked: nat = if prober.action(events[0]) is Some && prober.action(
            events[0],
        )->Some_0 is Deliver {
            1
        } else {
            0
        };
        asked + deliveries(prober.after(events[0]), events.drop_first())
    }
}

/// The scan after `n` launches.
pub open spec fn launches(scan: ScanView, n: nat) -> ScanView
    decreases n,
{
    if n == 0 {
        scan
    } else {
        launches(scan, (n - 1) as nat).after_launch()
    }
}

/// Whatever events a probe is given, it asks for a delivery at most once,
/// and never once its connection attempt has been answered.
pub proof fn law_at_most_one_delivery(prober: ProberView, events: Seq<ProbeEvent>)
    ensures
        deliveries(prober, events) <= 1,
        !(prober.phase is Connecting) ==> deliveries(prober, events) == 0,
    decreases events.len(),
{
    if events.len() > 0 {
        law_at_most_one_delivery(prober.after(events[0]), events.drop_first());
    }
}

/// A port outside the range is never reported, whatever reaches the
/// collector.
pub proof fn law_outside_range_never_reported(
    target: TargetView,
    delivered: Seq<ProbeResult>,
    port: int,
)
    requires
        !target.contains(port),
    ensures
        !reports(admitted(target, delivered), port),
{
    lemma_admitted(target, delivered);
}

/// A port whose probe ran to its end is reported exactly once if something
/// listens on it and not at all if nothing does, whichever other probes broke
/// off: their faults neither remove nor add a result for it.
pub proof fn law_fault_spares_other_ports(
    target: TargetView,
    listening: Set<int>,
    broken: Set<int>,
    delivered: Seq<ProbeResult>,
    port: int,
)
    requires
        target.wf(),
        delivery(target, listening, broken, delivered),
        target.contains(port),
        !broken.contains(port),
    ensures
        listening.contains(port) ==> reports_once(admitted(target, delivered), port),
        !listening.contains(port) ==> !reports(admitted(target, delivered), port),
{
    let kept = admitted(target, delivered);
    lemma_admitted(target, delivered);
    if listening.contains(port) {
        // The port's own result was handed over, so it is kept; any kept
        // result for the port equals it, and nothing is kept twice.
        let own = ProbeResult { address: target.address, port: port as u16 };
        assert(kept.contains(own));
        let i = choose|i: int| 0 <= i < kept.len() && kept[i] == own;
        assert(forall|j: int|
            0 <= j < kept.len() && (#[trigger] kept[j]).port == port ==> kept[j] == own);
    } else {
        // A kept result for the port would have been handed over.
        assert forall|i: int| 0 <= i < kept.len() implies (#[trigger] kept[i]).port != port by {
            assert(kept.contains(kept[i]));
        }
    }
}

/// A port of the range on which something listens is reported exactly once.
pub proof fn law_listening_port_reported_once(
    target: TargetView,
    listening: Set<int>,
    delivered: Seq<ProbeResult>,
    port: int,
)
    requires
        target.wf(),
        delivery(target, listening, Set::empty(), delivered),
        target.contains(port),
        listening.contains(port),
    ensures
        reports_once(admitted(target, delivered), port),
{
    law_fault_spares_other_ports(target, listening, Set::empty(), delivered, port);
}

/// A port of the range on which nothing listens is never reported.
pub proof fn law_silent_port_never_reported(
    target: TargetView,
    listening: Set<int>,
    delivered: Seq<ProbeResult>,
    port: int,
)
    requires
        target.wf(),
        delivery(target, listening, Set::empty(), delivered),
        target.contains(port),
        !listening.contains(port),
    ensures
        !reports(admitted(target, delivered), port),
{
    law_fault_spares_other_ports(target, listening, Set::empty(), delivered, port);
}

/// The scan of a single port reports one result if something listens on that
/// port and none if nothing does.
pub proof fn law_single_port_scan(
    target: TargetView,
    listening: Set<int>,
    delivered: Seq<ProbeResult>,
)
    requires
        target.wf(),
        target.start == target.end,
        delivery(target, listening, Set::empty(), delivered),
    ensures
        listening.contains(target.start) ==> admitted(target, delivered).len() == 1,
        !listening.contains(target.start) ==> admitted(target, delivered).len() == 0,
{
    let kept = admitted(target, delivered);
    lemma_admitted(target, delivered);
    lemma_consistent_len(target, kept);
    law_fault_spares_other_ports(target, listening, Set::empty(), delivered, target.start);
    if !listening.contains(target.start) && kept.len() > 0 {
        assert(kept[0].port == target.start);
    }
}

/// Two scans of one target against the same listeners report the same set of
/// results, in whatever order the results arrived in each.
pub proof fn law_same_listeners_same_report(
    target: TargetView,
    listening: Set<int>,
    first: Seq<ProbeResult>,
    second: Seq<ProbeResult>,
)
    requires
        target.wf(),
        delivery(target, listening, Set::empty(), first),
        delivery(target, listening, Set::empty(), second),
    ensures
        admitted(target, first).to_set() == admitted(target, second).to_set(),
{
    lemma_admitted(target, first);
    lemma_admitted(target, second);
}

/// A task that ended abnormally is joined like one that completed: the scan
/// is as far along after the one as after the other, and differs only in its
/// count of faults.
pub proof fn law_fault_does_not_hold_up_scan(scan: ScanView)
    requires
        scan.wf(),
    ensures
        scan.after_join(TaskEnd::Faulted).wf(),
        scan.after_join(TaskEnd::Faulted).target == scan.target,
        scan.after_join(TaskEnd::Faulted).launched == scan.launched,
        scan.after_join(TaskEnd::Faulted).joined == scan.after_join(TaskEnd::Completed).joined,
        scan.after_join(TaskEnd::Faulted).complete() == scan.after_join(
            TaskEnd::Completed,
        ).complete(),
{
}

/// Launching hands out one prober for each port of the range and no other:
/// the prober for `port` comes with launch number `port - start`, counted
/// from 0, no other launch is for that port, and after as many launches as
/// there are ports none is left.
pub proof fn law_one_prober_per_port(target: TargetView, port: int)
    requires
        target.wf(),
        target.contains(port),
    ensures
        launches(ScanView::fresh(target), (port - target.start) as nat).launching(),
        launches(ScanView::fresh(target), (port - target.start) as nat).next_port() == port,
        forall|n: nat|
            n != port - target.start && (#[trigger] launches(
                ScanView::fresh(target),
                n,
            )).launching() ==> launches(ScanView::fresh(target), n).next_port() != port,
        !launches(ScanView::fresh(target), target.count() as nat).launching(),
{
    let fresh = ScanView::fresh(target);
    lemma_launches(target, (port - target.start) as nat);
    lemma_launches(target, target.count() as nat);
    assert forall|n: nat|
        n != port - target.start && (#[trigger] launches(fresh, n)).launching() implies launches(
        fresh,
        n,
    ).next_port() != port by {
        lemma_launches(target, n);
    }
}

/// After `n` launches a fresh scan has handed out `n` probers, or one for
/// every port if there are fewer ports than that.
proof fn lemma_launches(target: TargetView, n: nat)
    requires
        target.wf(),
    ensures
        launches(ScanView::fresh(target), n) == (ScanView {
            launched: if n <= target.count() {
                n as int
            } else {
                target.count()
            },
            ..ScanView::fresh(target)
        }),
    decreases n,
{
    if n > 0 {
        lemma_launches(target, (n - 1) as nat);
    }
}

} // verus!
