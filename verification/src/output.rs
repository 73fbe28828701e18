//! The lines a scan puts out: one as each probe is launched, one for each
//! open port once the scan has finished, one for each error of a probe.
//!
//! The address stands in a line as the text that the caller gives for it.

use vstd::prelude::*;
use vstd::string::*;
use crate::report::ScanReport;

verus! {

/// The character of the decimal digit `d`.
pub open spec fn digit(d: int) -> char {
    seq!['0', '1', '2', '3', '4', '5', '6', '7', '8', '9'][d]
}

/// The decimal numeral of `n`, without leading zeros.
pub open spec fn decimal(n: nat) -> Seq<char>
    decreases n,
{
    if n < 10 {
        seq![digit(n as int)]
    } else {
        decimal(n / 10).push(digit((n % 10) as int))
    }
}

/// `<address>:<port>`, the port in decimal.
pub open spec fn endpoint_text(address: Seq<char>, port: u16) -> Seq<char> {
    address + seq![':'] + decimal(port as nat)
}

/// `? <address>:<port>`
pub open spec fn progress_text(address: Seq<char>, port: u16) -> Seq<char> {
    seq!['?', ' '] + endpoint_text(address, port)
}

/// `= <address>:<port>`
pub open spec fn result_text(address: Seq<char>, port: u16) -> Seq<char> {
    seq!['=', ' '] + endpoint_text(address, port)
}

/// `error: <message>`
pub open spec fn error_text(message: Seq<char>) -> Seq<char> {
    seq!['e', 'r', 'r', 'o', 'r', ':', ' '] + message
}

fn digit_text(d: u16) -> (text: &'static str)
    requires
        d < 10,
    ensures
        text@ == seq![digit(d as int)],
{
    proof {
        reveal_strlit("0");
        reveal_strlit("1");
        reveal_strlit("2");
        reveal_strlit("3");
        reveal_strlit("4");
        reveal_strlit("5");
        reveal_strlit("6");
        reveal_strlit("7");
        reveal_strlit("8");
        reveal_strlit("9");
    }
    if d == 0 {
        "0"
    } else if d == 1 {
        "1"
    } else if d == 2 {
        "2"
    } else if d == 3 {
        "3"
    } else if d == 4 {
        "4"
    } else if d == 5 {
        "5"
    } else if d == 6 {
        "6"
    } else if d == 7 {
        "7"
    } else if d == 8 {
        "8"
    } else {
        "9"
    }
}

/// The port number in decimal.
pub fn port_text(port: u16) -> (text: String)
    ensures
        text@ == decimal(port as nat),
    decreases port,
{
    if port < 10 {
        String::from_str(digit_text(port))
    } else {
        let mut text = port_text(port / 10);
        text.append(digit_text(port % 10));
        text
    }
}

fn endpoint_onto(line: &mut String, address: &str, port: u16)
    ensures
        final(line)@ == old(line)@ + endpoint_text(address@, port),
{
    proof {
        reveal_strlit(":");
    }
    line.append(address);
    line.append(":");
    let number = port_text(port);
    line.append(number.as_str());
}

/// The line that announces a probe, put out before its outcome is known.
pub fn progress_line(address: &str, port: u16) -> (line: String)
    ensures
        line@ == progress_text(address@, port),
{
    proof {
        reveal_strlit("? ");
    }
    let mut line = String::from_str("? ");
    endpoint_onto(&mut line, address, port);
    line
}

/// The line that reports an open port.
pub fn result_line(address: &str, port: u16) -> (line: String)
    ensures
        line@ == result_text(address@, port),
{
    proof {
        reveal_strlit("= ");
    }
    let mut line = String::from_str("= ");
    endpoint_onto(&mut line, address, port);
    line
}

/// The line that reports a probe's error, for the error stream.
pub fn error_line(message: &str) -> (line: String)
    ensures
        line@ == error_text(message@),
{
    proof {
        reveal_strlit("error: ");
    }
    let mut line = String::from_str("error: ");
    line.append(message);
    line
}

/// The result lines of a report, one for each open port, in the order of the
/// report.
pub fn result_lines(report: &ScanReport, address: &str) -> (lines: Vec<String>)
    ensures
        lines@.len() == report@.len(),
        forall|i: int|
            0 <= i < lines@.len() ==> (#[trigger] lines@[i])@ == result_text(
                address@,
                report@[i].port,
            ),
{
    let results = report.results();
    let mut lines: Vec<String> = Vec::new();
    let mut i: usize = 0;
    while i < results.len()
        invariant
            i <= results@.len(),
            results@ == report@,
            lines@.len() == i,
            forall|j: int|
                0 <= j < i ==> (#[trigger] lines@[j])@ == result_text(address@, report@[j].port),
        decreases results@.len() - i,
    {
        lines.push(result_line(address, results[i].port));
        i = i + 1;
    }
    lines
}

} // verus!
