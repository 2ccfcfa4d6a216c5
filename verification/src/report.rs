//! The report of a scan as text.

use crate::address::Ipv4Address;
use crate::results::{ScanResult, PORT_SPACE};
use vstd::prelude::*;
use vstd::string::*;

verus! {

/// The character of a decimal digit.
pub open spec fn digit(d: nat) -> char {
    if d == 0 {
        '0'
    } else if d == 1 {
        '1'
    } else if d == 2 {
        '2'
    } else if d == 3 {
        '3'
    } else if d == 4 {
        '4'
    } else if d == 5 {
        '5'
    } else if d == 6 {
        '6'
    } else if d == 7 {
        '7'
    } else if d == 8 {
        '8'
    } else {
        '9'
    }
}

/// A number in decimal, without leading zeros.
pub open spec fn decimal(n: nat) -> Seq<char>
    decreases n,
{
    if n < 10 {
        seq![digit(n)]
    } else {
        decimal(n / 10).push(digit(n % 10))
    }
}

/// An address in dotted decimal.
pub open spec fn dotted(address: Ipv4Address) -> Seq<char> {
    decimal(address.a as nat) + "."@ + decimal(address.b as nat) + "."@ + decimal(
        address.c as nat,
    ) + "."@ + decimal(address.d as nat)
}

/// The line that presents one open port.
pub open spec fn port_line(port: u16) -> Seq<char> {
    decimal(port as nat) + " Open"@
}

/// The line that sums a scan up: how many ports of the whole port space
/// were not found open, how many were, and for which target.
pub open spec fn summary_line(open_count: nat, target_ip: Ipv4Address) -> Seq<char> {
    decimal((PORT_SPACE - open_count) as nat) + " filtered/closed port(s) (RST or no response), "@
        + decimal(open_count) + " open port(s) for "@ + dotted(target_ip)
}

/// The line that announces a discovery while the scan still runs.
pub open spec fn discovery_line(port: u16) -> Seq<char> {
    "Discovered open port: "@ + decimal(port as nat) + "/tcp"@
}

/// A scan's report: its summary, and one line for each open port in
/// ascending order.
#[derive(Debug)]
pub struct Report {
    pub summary: String,
    pub lines: Vec<String>,
}

fn digit_text(d: usize) -> (text: &'static str)
    requires
        d < 10,
    ensures
        text@ == seq![digit(d as nat)],
{
    proof {
        reveal_strlit("0");
        reveal_strlit("1");
        reveal_strlit("2");
        reveal_strlit("3");
        reveal_strlit("4");
        reveal_strlit("5");
        reveal_strlit("6");
        reveal_strlit("7");
        reveal_strlit("8");
        reveal_strlit("9");
    }
    let text = if d == 0 {
        "0"
    } else if d == 1 {
        "1"
    } else if d == 2 {
        "2"
    } else if d == 3 {
        "3"
    } else if d == 4 {
        "4"
    } else if d == 5 {
        "5"
    } else if d == 6 {
        "6"
    } else if d == 7 {
        "7"
    } else if d == 8 {
        "8"
    } else {
        "9"
    };
    assert(text@ =~= seq![digit(d as nat)]);
    text
}

/// Appends a number in decimal to `text`.
pub fn push_decimal(text: &mut String, n: usize)
    ensures
        final(text)@ == old(text)@ + decimal(n as nat),
    decreases n,
{
    if n >= 10 {
        push_decimal(text, n / 10);
    }
    text.append(digit_text(n % 10));
    assert(text@ =~= old(text)@ + decimal(n as nat));
}

/// Appends an address in dotted decimal to `text`.
pub fn push_address(text: &mut String, address: Ipv4Address)
    ensures
        final(text)@ == old(text)@ + dotted(address),
{
    push_decimal(text, address.a as usize);
    text.append(".");
    push_decimal(text, address.b as usize);
    text.append(".");
    push_decimal(text, address.c as usize);
    text.append(".");
    push_decimal(text, address.d as usize);
    assert(text@ =~= old(text)@ + dotted(address));
}

/// The line that presents one open port.
pub fn render_port(port: u16) -> (line: String)
    ensures
        line@ == port_line(port),
{
    let mut line = String::new();
    push_decimal(&mut line, port as usize);
    line.append(" Open");
    assert(line@ =~= port_line(port));
    line
}

/// The line that announces a discovery while the scan still runs.
pub fn render_discovery(port: u16) -> (line: String)
    ensures
        line@ == discovery_line(port),
{
    let mut line = String::new();
    line.append("Discovered open port: ");
    push_decimal(&mut line, port as usize);
    line.append("/tcp");
    assert(line@ =~= discovery_line(port));
    line
}

/// The line that sums a scan up.
pub fn render_summary(result: &ScanResult, target_ip: Ipv4Address) -> (line: String)
    ensures
        line@ == summary_line(result@.len(), target_ip),
{
    let mut line = String::new();
    push_decimal(&mut line, result.filtered_or_closed_count());
    line.append(" filtered/closed port(s) (RST or no response), ");
    push_decimal(&mut line, result.open_count());
    line.append(" open port(s) for ");
    push_address(&mut line, target_ip);
    assert(line@ =~= summary_line(result@.len(), target_ip));
    line
}

/// Renders the report of a scan: the summary, and a line for each open
/// port, in the order of the result.
pub fn render_results(result: &ScanResult, target_ip: Ipv4Address) -> (report: Report)
    ensures
        report.summary@ == summary_line(result@.len(), target_ip),
        report.lines@.len() == result@.len(),
        forall|i: int|
            0 <= i < result@.len() ==> (#[trigger] report.lines@[i])@ == port_line(result@[i]),
{
    let summary = render_summary(result, target_ip);
    let ports = result.open_ports();
    let mut lines: Vec<String> = Vec::new();
    let mut at: usize = 0;
    while at < ports.len()
        invariant
            at <= ports@.len(),
            ports@ == result@,
            lines@.len() == at,
            forall|i: int| 0 <= i < at ==> (#[trigger] lines@[i])@ == port_line(result@[i]),
        decreases ports@.len() - at,
    {
        lines.push(render_port(ports[at]));
        at = at + 1;
    }
    Report { summary, lines }
}

} // verus!
