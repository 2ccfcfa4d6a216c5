use synscan::address::Ipv4Address;
use synscan::report::{
    push_address, push_decimal, render_discovery, render_port, render_results, render_summary,
};
use synscan::results::{ScanResult, PORT_SPACE};

fn decimal(n: usize) -> String {
    let mut text = String::new();
    push_decimal(&mut text, n);
    text
}

#[test]
fn result_is_sorted_ascending() {
    let result = ScanResult::from_discovered(vec![443, 22, 8080, 80, 1]);
    assert_eq!(result.open_ports(), &vec![1, 22, 80, 443, 8080]);
    assert_eq!(result.open_count(), 5);
    assert_eq!(result.filtered_or_closed_count(), 65530);
}

#[test]
fn repeated_reports_are_kept() {
    let result = ScanResult::from_discovered(vec![80, 22, 80, 80, 22]);
    assert_eq!(result.open_ports(), &vec![22, 22, 80, 80, 80]);
    assert_eq!(result.open_count(), 5);
    assert_eq!(result.filtered_or_closed_count(), 65530);
}

#[test]
fn empty_result_counts_the_whole_port_space_as_closed() {
    let result = ScanResult::from_discovered(Vec::new());
    assert_eq!(result.open_ports(), &Vec::<u16>::new());
    assert_eq!(result.open_count(), 0);
    assert_eq!(result.filtered_or_closed_count(), 65535);
    assert_eq!(PORT_SPACE, 65535);
}

#[test]
fn closed_count_is_taken_against_the_whole_port_space() {
    let result = ScanResult::from_discovered(vec![22]);
    assert_eq!(result.filtered_or_closed_count(), 65534);
}

#[test]
fn full_result_leaves_nothing_closed() {
    let mut every: Vec<u16> = (1..=65535).collect();
    every.reverse();
    let result = ScanResult::from_discovered(every);
    assert_eq!(result.open_count(), 65535);
    assert_eq!(result.filtered_or_closed_count(), 0);
    assert_eq!(result.open_ports()[0], 1);
    assert_eq!(result.open_ports()[65534], 65535);
}

#[test]
fn result_does_not_depend_on_the_order_of_reports() {
    let first = ScanResult::from_discovered(vec![3, 1, 2, 2, 9]);
    let second = ScanResult::from_discovered(vec![2, 9, 2, 3, 1]);
    assert_eq!(first.open_ports(), second.open_ports());
}

#[test]
fn numbers_are_written_in_decimal() {
    assert_eq!(decimal(0), "0");
    assert_eq!(decimal(7), "7");
    assert_eq!(decimal(9), "9");
    assert_eq!(decimal(10), "10");
    assert_eq!(decimal(99), "99");
    assert_eq!(decimal(100), "100");
    assert_eq!(decimal(1234567890), "1234567890");
    assert_eq!(decimal(65535), "65535");
    assert_eq!(decimal(usize::MAX), usize::MAX.to_string());
}

#[test]
fn decimal_is_appended_to_what_is_there() {
    let mut text = String::from("port ");
    push_decimal(&mut text, 8080);
    assert_eq!(text, "port 8080");
}

#[test]
fn addresses_are_written_dotted() {
    let mut text = String::new();
    push_address(&mut text, Ipv4Address::new(127, 0, 0, 1));
    assert_eq!(text, "127.0.0.1");
    let mut text = String::from("for ");
    push_address(&mut text, Ipv4Address::new(255, 255, 255, 255));
    assert_eq!(text, "for 255.255.255.255");
    let mut text = String::new();
    push_address(&mut text, Ipv4Address::new(0, 0, 0, 0));
    assert_eq!(text, "0.0.0.0");
    let mut text = String::new();
    push_address(&mut text, Ipv4Address::new(10, 200, 3, 45));
    assert_eq!(text, "10.200.3.45");
}

#[test]
fn port_line_names_the_port_as_open() {
    assert_eq!(render_port(22), "22 Open");
    assert_eq!(render_port(0), "0 Open");
    assert_eq!(render_port(65535), "65535 Open");
}

#[test]
fn discovery_line_names_the_port() {
    assert_eq!(render_discovery(443), "Discovered open port: 443/tcp");
}

#[test]
fn summary_gives_both_counts_and_the_target() {
    let result = ScanResult::from_discovered(vec![22]);
    assert_eq!(
        render_summary(&result, Ipv4Address::new(127, 0, 0, 1)),
        "65534 filtered/closed port(s) (RST or no response), 1 open port(s) for 127.0.0.1"
    );
    let none = ScanResult::from_discovered(Vec::new());
    assert_eq!(
        render_summary(&none, Ipv4Address::new(192, 168, 1, 20)),
        "65535 filtered/closed port(s) (RST or no response), 0 open port(s) for 192.168.1.20"
    );
}

#[test]
fn report_lists_the_open_ports_in_ascending_order() {
    let result = ScanResult::from_discovered(vec![8080, 22, 443]);
    let report = render_results(&result, Ipv4Address::new(10, 0, 0, 5));
    assert_eq!(
        report.summary,
        "65532 filtered/closed port(s) (RST or no response), 3 open port(s) for 10.0.0.5"
    );
    assert_eq!(report.lines, vec!["22 Open", "443 Open", "8080 Open"]);
}

#[test]
fn report_of_nothing_has_no_lines() {
    let result = ScanResult::from_discovered(Vec::new());
    let report = render_results(&result, Ipv4Address::new(10, 0, 0, 5));
    assert!(report.lines.is_empty());
}
