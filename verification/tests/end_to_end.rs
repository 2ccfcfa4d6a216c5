use synscan::address::Ipv4Address;
use synscan::config::{ScanConfig, ScanRequest};
use synscan::frame::handle_scan_response;
use synscan::packet::checksum_is_valid;
use synscan::report::{render_results, Report};
use synscan::results::ScanResult;
use synscan::scan::{ScanAction, ScanDriver};
use synscan::sender::syn_probe;

const SYN: u8 = 0x02;
const SYN_ACK: u8 = 0x12;
const RST_ACK: u8 = 0x14;

fn loopback_scan() -> ScanConfig {
    ScanConfig {
        target_ip: Ipv4Address::new(127, 0, 0, 1),
        interface_index: 1,
        source_ip: Ipv4Address::new(127, 0, 0, 1),
        source_port: 51000,
        verbose: false,
    }
}

/// The frame in which a host at 127.0.0.1 answers a SYN: from `from_port`,
/// to the port that the SYN came from, with the given flags.
fn answer(probe: &[u8], from_port: u16, flags: u8) -> Option<Vec<u8>> {
    if probe.len() < 20 || probe[13] != SYN {
        return None;
    }
    let mut frame = vec![0u8; 54];
    frame[12] = 0x08;
    frame[14] = 0x45;
    frame[16..18].copy_from_slice(&40u16.to_be_bytes());
    frame[22] = 64;
    frame[23] = 6;
    frame[26..30].copy_from_slice(&[127, 0, 0, 1]);
    frame[30..34].copy_from_slice(&[127, 0, 0, 1]);
    frame[34..36].copy_from_slice(&from_port.to_be_bytes());
    frame[36..38].copy_from_slice(&probe[0..2]);
    frame[46] = 0x50;
    frame[47] = flags;
    Some(frame)
}

/// Runs a whole scan: the driver decides, each probe is built and handed to
/// `responder`, and what it answers is handed to the listener at once.
fn scan_with(
    request: ScanRequest,
    responder: &dyn Fn(&[u8]) -> Option<Vec<u8>>,
) -> (ScanResult, Report) {
    let config = loopback_scan();
    let mut driver = ScanDriver::new(request);
    let mut channel: Option<Vec<u16>> = None;
    let mut drained: Vec<u16> = Vec::new();
    let mut finished = false;
    let mut listening = false;
    let mut outcome = None;
    loop {
        match driver.next_action() {
            ScanAction::StartListener => {
                channel = Some(Vec::new());
                listening = true;
            }
            ScanAction::Send(port) => {
                let probe = syn_probe(&config, port);
                assert_eq!(u16::from_be_bytes([probe[2], probe[3]]), port);
                assert!(checksum_is_valid(&probe, config.source_ip, config.target_ip));
                if let Some(frame) = responder(&probe) {
                    if listening {
                        let step = handle_scan_response(&frame, &config, finished);
                        if let Some(port) = step.open_port {
                            channel.as_mut().unwrap().push(port);
                        }
                        listening = step.keep_listening;
                    }
                }
            }
            ScanAction::AwaitSend => driver.send_completed(),
            ScanAction::SignalStop => finished = true,
            ScanAction::CloseResults => drained = channel.take().unwrap(),
            ScanAction::DrainResults => assert!(channel.is_none()),
            ScanAction::Present => {
                let result = ScanResult::from_discovered(std::mem::take(&mut drained));
                let report = render_results(&result, config.target_ip);
                outcome = Some((result, report));
            }
            ScanAction::Finished => break,
        }
    }
    outcome.unwrap()
}

/// A host that answers every SYN from port 22 with the given flags.
fn scan_of_port_22(flags: u8) -> (ScanResult, Report) {
    scan_with(ScanRequest::SinglePort(22), &|probe| answer(probe, 22, flags))
}

#[test]
fn open_port_on_loopback_is_reported() {
    let (result, report) = scan_of_port_22(SYN_ACK);
    assert_eq!(result.open_count(), 1);
    assert_eq!(result.open_ports(), &vec![22]);
    assert!(report.lines.contains(&String::from("22 Open")));
    assert_eq!(
        report.summary,
        "65534 filtered/closed port(s) (RST or no response), 1 open port(s) for 127.0.0.1"
    );
}

#[test]
fn reset_on_loopback_reports_no_open_port() {
    let (result, report) = scan_of_port_22(RST_ACK);
    assert_eq!(result.open_count(), 0);
    assert_eq!(result.filtered_or_closed_count(), 65535);
    assert!(report.lines.is_empty());
    assert_eq!(
        report.summary,
        "65535 filtered/closed port(s) (RST or no response), 0 open port(s) for 127.0.0.1"
    );
}

#[test]
fn same_scan_twice_gives_the_same_list() {
    let (first, first_report) = scan_of_port_22(SYN_ACK);
    let (second, second_report) = scan_of_port_22(SYN_ACK);
    assert_eq!(first.open_ports(), second.open_ports());
    assert_eq!(first_report.lines, second_report.lines);
    assert_eq!(first_report.summary, second_report.summary);
}

#[test]
fn range_scan_reports_the_ports_that_answer_syn_ack() {
    let open = [443u16, 22, 80, 8080];
    let (result, report) = scan_with(ScanRequest::PortRange { start: 1, end: 1024 }, &|probe| {
        let port = u16::from_be_bytes([probe[2], probe[3]]);
        let flags = if open.contains(&port) { SYN_ACK } else { RST_ACK };
        answer(probe, port, flags)
    });
    assert_eq!(result.open_ports(), &vec![22, 80, 443]);
    assert_eq!(report.lines, vec!["22 Open", "80 Open", "443 Open"]);
    assert_eq!(
        report.summary,
        "65532 filtered/closed port(s) (RST or no response), 3 open port(s) for 127.0.0.1"
    );
}

#[test]
fn silent_host_reports_nothing() {
    let (result, report) = scan_with(ScanRequest::PortRange { start: 1, end: 200 }, &|_| None);
    assert_eq!(result.open_count(), 0);
    assert!(report.lines.is_empty());
}

#[test]
fn repeated_answers_are_reported_as_often_as_they_come() {
    let (result, _) = scan_with(ScanRequest::PortRange { start: 20, end: 25 }, &|probe| {
        answer(probe, 22, SYN_ACK)
    });
    assert_eq!(result.open_ports(), &vec![22, 22, 22, 22, 22]);
    assert_eq!(result.filtered_or_closed_count(), 65530);
}
