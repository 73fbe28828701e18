use portscan::address::Address;
use portscan::probe::{DeliveryError, ProbeAction, ProbeEvent, ProbeResult};
use portscan::report::ScanReport;
use portscan::scan::{Scan, TaskEnd};
use portscan::target::Target;

const LOCALHOST: Address = Address::V4(0x7f00_0001);

/// Runs a whole scan without a network: a probe connects if its port is in
/// `listening`, and its task breaks off before anything else if its port is in
/// `broken`. The probes are driven in ascending order of ports, or in
/// descending order if `reversed`.
fn scan_against(target: Target, listening: &[u16], broken: &[u16], reversed: bool) -> ScanReport {
    let (mut scan, tx) = Scan::open(target);
    let mut probers = Vec::new();
    while let Some(prober) = scan.launch() {
        probers.push(prober);
    }
    assert_eq!(probers.len() as u32, target.port_count());
    if reversed {
        probers.reverse();
    }
    for mut prober in probers {
        if broken.contains(&prober.port()) {
            assert!(scan.join(TaskEnd::Faulted));
            continue;
        }
        let outcome = if listening.contains(&prober.port()) {
            ProbeEvent::Connected
        } else {
            ProbeEvent::ConnectFailed
        };
        let mut action = prober.step(outcome);
        if let Some(ProbeAction::Deliver(result)) = action {
            let sent = tx.clone().try_send(result).is_ok();
            action = prober.step(if sent {
                ProbeEvent::Delivered
            } else {
                ProbeEvent::DeliveryFailed
            });
        }
        assert_eq!(action, Some(ProbeAction::Finish(Ok(()))));
        assert!(scan.join(TaskEnd::Completed));
    }
    drop(tx);
    assert!(scan.is_complete());
    assert_eq!(scan.faulted() as usize, broken.len());
    match scan.finish() {
        Ok(report) => report,
        Err(_) => panic!("a complete scan did not finish"),
    }
}

fn ports_of(report: &ScanReport) -> Vec<u16> {
    let mut ports: Vec<u16> = report.results().iter().map(|r| r.port).collect();
    ports.sort();
    ports
}

#[test]
fn one_listener_in_a_range_of_six() {
    let target = Target::new(LOCALHOST, 8000, 8005).unwrap();
    let report = scan_against(target, &[8002], &[], false);
    assert_eq!(report.results(), &vec![ProbeResult { address: LOCALHOST, port: 8002 }]);
}

#[test]
fn launches_each_port_once_in_ascending_order() {
    let target = Target::new(LOCALHOST, 8000, 8005).unwrap();
    let (mut scan, _tx) = Scan::open(target);
    let mut ports = Vec::new();
    while let Some(prober) = scan.launch() {
        assert_eq!(prober.address(), LOCALHOST);
        ports.push(prober.port());
    }
    assert_eq!(ports, vec![8000, 8001, 8002, 8003, 8004, 8005]);
    assert!(scan.launch().is_none());
    assert!(scan.launch().is_none());
}

#[test]
fn launches_up_to_the_last_port_there_is() {
    let target = Target::new(LOCALHOST, 65533, 65535).unwrap();
    let (mut scan, _tx) = Scan::open(target);
    let mut ports = Vec::new();
    while let Some(prober) = scan.launch() {
        ports.push(prober.port());
    }
    assert_eq!(ports, vec![65533, 65534, 65535]);
}

#[test]
fn listener_outside_the_range_is_not_reported() {
    let target = Target::new(LOCALHOST, 8000, 8005).unwrap();
    let report = scan_against(target, &[7999, 8006, 80], &[], false);
    assert!(report.results().is_empty());
}

#[test]
fn every_listener_in_the_range_is_reported_once() {
    let target = Target::new(LOCALHOST, 8000, 8005).unwrap();
    let report = scan_against(target, &[8000, 8003, 8005, 8003], &[], false);
    assert_eq!(ports_of(&report), vec![8000, 8003, 8005]);
}

#[test]
fn nothing_listening_gives_an_empty_report() {
    let target = Target::new(LOCALHOST, 8000, 8005).unwrap();
    let report = scan_against(target, &[], &[], false);
    assert_eq!(report.len(), 0);
}

#[test]
fn single_port_with_a_listener() {
    let target = Target::new(LOCALHOST, 8002, 8002).unwrap();
    let report = scan_against(target, &[8002], &[], false);
    assert_eq!(report.results(), &vec![ProbeResult { address: LOCALHOST, port: 8002 }]);
}

#[test]
fn single_port_without_a_listener() {
    let target = Target::new(LOCALHOST, 8002, 8002).unwrap();
    let report = scan_against(target, &[8001, 8003], &[], false);
    assert!(report.results().is_empty());
}

#[test]
fn scanning_twice_gives_the_same_ports() {
    let target = Target::new(LOCALHOST, 8000, 8005).unwrap();
    let first = scan_against(target, &[8001, 8004], &[], false);
    let second = scan_against(target, &[8001, 8004], &[], true);
    assert_eq!(first.results().len(), 2);
    assert_eq!(second.results()[0].port, 8004);
    assert_eq!(ports_of(&first), ports_of(&second));
}

#[test]
fn a_broken_probe_leaves_the_other_results() {
    let target = Target::new(LOCALHOST, 8000, 8005).unwrap();
    let report = scan_against(target, &[8001, 8002, 8004], &[8002, 8003], false);
    assert_eq!(ports_of(&report), vec![8001, 8004]);
}

#[test]
fn many_open_ports_are_all_reported() {
    let target = Target::new(LOCALHOST, 1, 1024).unwrap();
    let listening: Vec<u16> = (1..=1024).collect();
    let report = scan_against(target, &listening, &[], false);
    assert_eq!(ports_of(&report), listening);
}

#[test]
fn the_channel_holds_one_result_for_each_port() {
    let target = Target::new(LOCALHOST, 10, 12).unwrap();
    let (_scan, tx) = Scan::open(target);
    assert_eq!(tx.max_capacity(), 3);
    let (_scan, tx) = Scan::open(Target::new(LOCALHOST, 1, 65535).unwrap());
    assert_eq!(tx.max_capacity(), 65535);
}

#[test]
fn delivery_fails_once_the_scan_is_gone() {
    let target = Target::new(LOCALHOST, 8002, 8002).unwrap();
    let (mut scan, tx) = Scan::open(target);
    let mut prober = scan.launch().unwrap();
    drop(scan);
    let result = ProbeResult { address: LOCALHOST, port: 8002 };
    assert_eq!(prober.step(ProbeEvent::Connected), Some(ProbeAction::Deliver(result)));
    assert!(tx.try_send(result).is_err());
    assert_eq!(
        prober.step(ProbeEvent::DeliveryFailed),
        Some(ProbeAction::Finish(Err(DeliveryError { result })))
    );
}

#[test]
fn joining_counts_only_launched_tasks() {
    let target = Target::new(LOCALHOST, 1, 3).unwrap();
    let (mut scan, _tx) = Scan::open(target);
    assert!(!scan.join(TaskEnd::Completed));
    assert!(!scan.join(TaskEnd::Faulted));
    assert_eq!(scan.faulted(), 0);
    scan.launch().unwrap();
    assert!(scan.join(TaskEnd::Faulted));
    assert!(!scan.join(TaskEnd::Completed));
    assert_eq!(scan.faulted(), 1);
    scan.launch().unwrap();
    scan.launch().unwrap();
    assert!(!scan.is_complete());
    assert!(scan.join(TaskEnd::Completed));
    assert!(!scan.is_complete());
    assert!(scan.join(TaskEnd::Completed));
    assert!(scan.is_complete());
    assert_eq!(scan.faulted(), 1);
    assert_eq!(scan.target().port_count(), 3);
}

#[test]
fn a_scan_with_tasks_outstanding_does_not_finish() {
    let target = Target::new(LOCALHOST, 1, 2).unwrap();
    let (mut scan, tx) = Scan::open(target);
    scan = match scan.finish() {
        Ok(_) => panic!("finished before any launch"),
        Err(scan) => scan,
    };
    scan.launch().unwrap();
    scan.launch().unwrap();
    tx.try_send(ProbeResult { address: LOCALHOST, port: 1 }).unwrap();
    assert!(scan.join(TaskEnd::Completed));
    scan = match scan.finish() {
        Ok(_) => panic!("finished with a task outstanding"),
        Err(scan) => scan,
    };
    assert!(scan.join(TaskEnd::Completed));
    let report = match scan.finish() {
        Ok(report) => report,
        Err(_) => panic!("a complete scan did not finish"),
    };
    assert_eq!(report.results(), &vec![ProbeResult { address: LOCALHOST, port: 1 }]);
}

#[test]
fn finish_takes_the_results_in_the_order_sent() {
    let target = Target::new(LOCALHOST, 20, 25).unwrap();
    let (mut scan, tx) = Scan::open(target);
    while scan.launch().is_some() {}
    for port in [25u16, 21, 23] {
        tx.try_send(ProbeResult { address: LOCALHOST, port }).unwrap();
    }
    while scan.join(TaskEnd::Completed) {}
    drop(tx);
    let report = match scan.finish() {
        Ok(report) => report,
        Err(_) => panic!("a complete scan did not finish"),
    };
    let ports: Vec<u16> = report.results().iter().map(|r| r.port).collect();
    assert_eq!(ports, vec![25, 21, 23]);
}

#[test]
fn finish_drops_what_the_scan_cannot_have_produced() {
    let target = Target::new(LOCALHOST, 20, 22).unwrap();
    let (mut scan, tx) = Scan::open(target);
    while scan.launch().is_some() {}
    tx.try_send(ProbeResult { address: LOCALHOST, port: 19 }).unwrap();
    tx.try_send(ProbeResult { address: LOCALHOST, port: 21 }).unwrap();
    tx.try_send(ProbeResult { address: LOCALHOST, port: 21 }).unwrap();
    while scan.join(TaskEnd::Completed) {}
    drop(tx);
    let report = match scan.finish() {
        Ok(report) => report,
        Err(_) => panic!("a complete scan did not finish"),
    };
    assert_eq!(report.results(), &vec![ProbeResult { address: LOCALHOST, port: 21 }]);
}

#[test]
fn scans_every_port_there_is() {
    let target = Target::new(LOCALHOST, 1, 65535).unwrap();
    let report = scan_against(target, &[1, 65535], &[], false);
    assert_eq!(ports_of(&report), vec![1, 65535]);
}
