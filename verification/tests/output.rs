use portscan::address::Address;
use portscan::output::{error_line, port_text, progress_line, result_line, result_lines};
use portscan::probe::ProbeResult;
use portscan::report::ScanReport;
use portscan::target::Target;

#[test]
fn port_numbers_are_decimal() {
    assert_eq!(port_text(0), "0");
    assert_eq!(port_text(1), "1");
    assert_eq!(port_text(9), "9");
    assert_eq!(port_text(10), "10");
    assert_eq!(port_text(99), "99");
    assert_eq!(port_text(100), "100");
    assert_eq!(port_text(1024), "1024");
    assert_eq!(port_text(8002), "8002");
    assert_eq!(port_text(60000), "60000");
    assert_eq!(port_text(65535), "65535");
}

#[test]
fn port_text_agrees_with_the_standard_rendering() {
    for port in 0..=u16::MAX {
        assert_eq!(port_text(port), format!("{}", port));
    }
}

#[test]
fn progress_line_for_version_four() {
    assert_eq!(progress_line("127.0.0.1", 8002), "? 127.0.0.1:8002");
}

#[test]
fn progress_line_for_version_six() {
    assert_eq!(progress_line("::1", 443), "? ::1:443");
}

#[test]
fn result_line_for_an_open_port() {
    assert_eq!(result_line("127.0.0.1", 8002), "= 127.0.0.1:8002");
    assert_eq!(result_line("10.0.0.7", 1), "= 10.0.0.7:1");
    assert_eq!(result_line("2001:db8::2", 65535), "= 2001:db8::2:65535");
}

#[test]
fn error_line_carries_the_message() {
    assert_eq!(error_line("channel closed"), "error: channel closed");
    assert_eq!(error_line(""), "error: ");
}

#[test]
fn result_lines_follow_the_report() {
    let host = Address::V4(0x7f00_0001);
    let target = Target::new(host, 8000, 8005).unwrap();
    let delivered = vec![
        ProbeResult { address: host, port: 8004 },
        ProbeResult { address: host, port: 8000 },
        ProbeResult { address: host, port: 8002 },
    ];
    let report = ScanReport::assemble(target, &delivered);
    assert_eq!(
        result_lines(&report, "127.0.0.1"),
        vec!["= 127.0.0.1:8004", "= 127.0.0.1:8000", "= 127.0.0.1:8002"]
    );
}

#[test]
fn an_empty_report_has_no_lines() {
    let target = Target::new(Address::V4(1), 1, 10).unwrap();
    let report = ScanReport::assemble(target, &Vec::new());
    assert!(result_lines(&report, "0.0.0.1").is_empty());
}
