use synscan::config::ScanRequest;
use synscan::scan::{ScanAction, ScanDriver, ScanPhase, MAX_IN_FLIGHT};

fn run_to_end(request: ScanRequest) -> Vec<ScanAction> {
    let mut driver = ScanDriver::new(request);
    let mut actions = Vec::new();
    loop {
        let action = driver.next_action();
        actions.push(action);
        match action {
            ScanAction::AwaitSend => driver.send_completed(),
            ScanAction::Finished => break,
            _ => {}
        }
        assert!(driver.sends_in_flight() <= 20);
    }
    actions
}

fn sent_ports(actions: &[ScanAction]) -> Vec<u16> {
    let mut ports = Vec::new();
    for action in actions {
        if let ScanAction::Send(port) = action {
            ports.push(*port);
        }
    }
    ports
}

#[test]
fn permits_are_twenty() {
    assert_eq!(MAX_IN_FLIGHT, 20);
}

#[test]
fn new_driver_has_done_nothing() {
    let driver = ScanDriver::new(ScanRequest::PortRange { start: 1, end: 10 });
    assert_eq!(driver.current_phase(), ScanPhase::Created);
    assert_eq!(driver.probes_issued(), 0);
    assert_eq!(driver.sends_in_flight(), 0);
}

#[test]
fn small_range_runs_in_order() {
    let actions = run_to_end(ScanRequest::PortRange { start: 20, end: 23 });
    assert_eq!(
        actions,
        vec![
            ScanAction::StartListener,
            ScanAction::Send(20),
            ScanAction::Send(21),
            ScanAction::Send(22),
            ScanAction::SignalStop,
            ScanAction::CloseResults,
            ScanAction::DrainResults,
            ScanAction::Present,
            ScanAction::Finished,
        ]
    );
}

#[test]
fn range_sends_each_port_once_and_excludes_its_end() {
    let actions = run_to_end(ScanRequest::PortRange { start: 100, end: 400 });
    let ports = sent_ports(&actions);
    assert_eq!(ports.len(), 300);
    let expected: Vec<u16> = (100..400).collect();
    assert_eq!(ports, expected);
}

#[test]
fn full_default_range_sends_sixty_five_thousand_five_hundred_thirty_four_probes() {
    let actions = run_to_end(ScanRequest::PortRange { start: 1, end: 65535 });
    let ports = sent_ports(&actions);
    assert_eq!(ports.len(), 65534);
    assert_eq!(ports[0], 1);
    assert_eq!(ports[65533], 65534);
    let mut at = 1;
    while at < ports.len() {
        assert!(ports[at - 1] < ports[at]);
        at += 1;
    }
}

#[test]
fn empty_and_reversed_ranges_send_nothing() {
    for request in [
        ScanRequest::PortRange { start: 5, end: 5 },
        ScanRequest::PortRange { start: 9, end: 3 },
        ScanRequest::PortRange { start: 0, end: 0 },
    ] {
        assert_eq!(request.port_count(), 0);
        assert_eq!(
            run_to_end(request),
            vec![
                ScanAction::StartListener,
                ScanAction::SignalStop,
                ScanAction::CloseResults,
                ScanAction::DrainResults,
                ScanAction::Present,
                ScanAction::Finished,
            ]
        );
    }
}

#[test]
fn single_port_waits_for_its_send_before_the_stop_signal() {
    let mut driver = ScanDriver::new(ScanRequest::SinglePort(22));
    assert_eq!(driver.next_action(), ScanAction::StartListener);
    assert_eq!(driver.next_action(), ScanAction::Send(22));
    assert_eq!(driver.sends_in_flight(), 1);
    assert_eq!(driver.next_action(), ScanAction::AwaitSend);
    assert_eq!(driver.next_action(), ScanAction::AwaitSend);
    driver.send_completed();
    assert_eq!(driver.sends_in_flight(), 0);
    assert_eq!(driver.next_action(), ScanAction::SignalStop);
    assert_eq!(driver.next_action(), ScanAction::CloseResults);
    assert_eq!(driver.next_action(), ScanAction::DrainResults);
    assert_eq!(driver.next_action(), ScanAction::Present);
    assert_eq!(driver.next_action(), ScanAction::Finished);
    assert_eq!(driver.next_action(), ScanAction::Finished);
    assert_eq!(driver.current_phase(), ScanPhase::Presented);
}

#[test]
fn range_signals_stop_right_after_its_last_probe() {
    let mut driver = ScanDriver::new(ScanRequest::PortRange { start: 1, end: 3 });
    assert_eq!(driver.next_action(), ScanAction::StartListener);
    assert_eq!(driver.next_action(), ScanAction::Send(1));
    assert_eq!(driver.next_action(), ScanAction::Send(2));
    assert_eq!(driver.sends_in_flight(), 2);
    assert_eq!(driver.next_action(), ScanAction::SignalStop);
    assert_eq!(driver.current_phase(), ScanPhase::StopSignalled);
    assert_eq!(driver.sends_in_flight(), 2);
}

#[test]
fn twenty_first_send_waits_for_a_permit() {
    let mut driver = ScanDriver::new(ScanRequest::PortRange { start: 1000, end: 1030 });
    assert_eq!(driver.next_action(), ScanAction::StartListener);
    let mut port = 1000;
    while port < 1020 {
        assert_eq!(driver.next_action(), ScanAction::Send(port));
        port += 1;
    }
    assert_eq!(driver.sends_in_flight(), 20);
    assert_eq!(driver.probes_issued(), 20);
    assert_eq!(driver.next_action(), ScanAction::AwaitSend);
    assert_eq!(driver.next_action(), ScanAction::AwaitSend);
    assert_eq!(driver.sends_in_flight(), 20);
    driver.send_completed();
    assert_eq!(driver.sends_in_flight(), 19);
    assert_eq!(driver.next_action(), ScanAction::Send(1020));
    assert_eq!(driver.sends_in_flight(), 20);
    assert_eq!(driver.next_action(), ScanAction::AwaitSend);
}

#[test]
fn in_flight_never_exceeds_twenty_under_any_completion_pattern() {
    let mut driver = ScanDriver::new(ScanRequest::PortRange { start: 1, end: 2000 });
    let mut turn: u32 = 0;
    let mut highest = 0;
    loop {
        let action = driver.next_action();
        if turn % 7 == 3 || action == ScanAction::AwaitSend {
            driver.send_completed();
        }
        if turn % 11 == 5 {
            driver.send_completed();
            driver.send_completed();
        }
        if driver.sends_in_flight() > highest {
            highest = driver.sends_in_flight();
        }
        assert!(driver.sends_in_flight() <= MAX_IN_FLIGHT);
        if action == ScanAction::Finished {
            break;
        }
        turn += 1;
    }
    assert!(highest <= 20);
    assert_eq!(driver.probes_issued(), 1999);
}

#[test]
fn completion_without_a_send_changes_nothing() {
    let mut driver = ScanDriver::new(ScanRequest::SinglePort(80));
    driver.send_completed();
    assert_eq!(driver.sends_in_flight(), 0);
    assert_eq!(driver.current_phase(), ScanPhase::Created);
    assert_eq!(driver.next_action(), ScanAction::StartListener);
    driver.send_completed();
    assert_eq!(driver.next_action(), ScanAction::Send(80));
}

#[test]
fn request_names_its_ports() {
    let range = ScanRequest::PortRange { start: 65530, end: 65535 };
    assert_eq!(range.port_count(), 5);
    assert_eq!(range.port_at(0), 65530);
    assert_eq!(range.port_at(4), 65534);
    let single = ScanRequest::SinglePort(65535);
    assert_eq!(single.port_count(), 1);
    assert_eq!(single.port_at(0), 65535);
    let zero = ScanRequest::SinglePort(0);
    assert_eq!(zero.port_at(0), 0);
}
