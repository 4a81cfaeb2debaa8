use port_scan::classify::ConnectOutcome;
use port_scan::classify::ScanOptions;
use port_scan::report::PortStatus;
use port_scan::scan::expand;
use port_scan::scan::run;
use port_scan::scan::ConfigurationError;
use port_scan::scan::PortSpec;
use port_scan::scan::Probe;
use port_scan::scan::ScanTarget;

fn closed_probes(n: usize) -> Vec<Probe> {
    (0..n).map(|_| Probe { outcome: ConnectOutcome::Closed, response: None }).collect()
}

#[test]
fn test_explicit_list_order_preserved() {
    let spec = PortSpec::Explicit(vec![443, 22, 8080]);
    let ports = expand(&spec).unwrap();
    assert_eq!(ports, vec![443, 22, 8080]);

    let target = ScanTarget::new(String::from("127.0.0.1"), &spec).unwrap();
    let options = ScanOptions { stealth: false, detect_service: false };
    let report = run(&target, options, &closed_probes(3));
    let reported: Vec<u16> = report.iter().map(|r| r.port).collect();
    assert_eq!(reported, vec![443, 22, 8080]);
}

#[test]
fn test_duplicate_ports_each_scanned() {
    let spec = PortSpec::Explicit(vec![80, 80]);
    let ports = expand(&spec).unwrap();
    assert_eq!(ports, vec![80, 80]);
}

#[test]
fn test_range_expansion_all_closed() {
    let spec = PortSpec::Range(1000, 1002);
    let target = ScanTarget::new(String::from("127.0.0.1"), &spec).unwrap();
    assert_eq!(target.ports, vec![1000, 1001, 1002]);

    let options = ScanOptions { stealth: false, detect_service: false };
    let report = run(&target, options, &closed_probes(3));
    assert_eq!(report.len(), 3);
    for (i, result) in report.iter().enumerate() {
        assert_eq!(result.port, 1000 + i as u16);
        assert_eq!(result.status, PortStatus::Closed);
        assert_eq!(result.status.label(), "closed");
        assert!(result.service.is_none());
    }
}

#[test]
fn test_invalid_range_rejected_before_scanning() {
    let spec = PortSpec::Range(100, 50);
    assert_eq!(expand(&spec), Err(ConfigurationError::InvalidRange));
    let err = ScanTarget::new(String::from("127.0.0.1"), &spec).unwrap_err();
    assert_eq!(err, ConfigurationError::InvalidRange);
    assert_eq!(err.message(), "start port exceeds end port");
}

#[test]
fn test_empty_port_list_rejected() {
    let spec = PortSpec::Explicit(vec![]);
    assert_eq!(expand(&spec), Err(ConfigurationError::EmptyPorts));
    assert_eq!(ConfigurationError::EmptyPorts.message(), "no ports requested");
}

#[test]
fn test_port_zero_rejected() {
    let spec = PortSpec::Explicit(vec![80, 0, 443]);
    assert_eq!(expand(&spec), Err(ConfigurationError::PortOutOfRange));
    let range = PortSpec::Range(0, 10);
    assert_eq!(expand(&range), Err(ConfigurationError::PortOutOfRange));
    assert_eq!(
        ConfigurationError::PortOutOfRange.message(),
        "port out of range (1 to 65535)"
    );
}

#[test]
fn test_invalid_address_message() {
    assert_eq!(ConfigurationError::InvalidAddress.message(), "invalid target address");
}

#[test]
fn test_default_spec_is_range_1_to_1024() {
    let spec = PortSpec::default();
    assert_eq!(spec, PortSpec::Range(1, 1024));
    let ports = expand(&spec).unwrap();
    assert_eq!(ports.len(), 1024);
    assert_eq!(ports[0], 1);
    assert_eq!(ports[1023], 1024);
}

#[test]
fn test_single_port_range() {
    let ports = expand(&PortSpec::Range(65535, 65535)).unwrap();
    assert_eq!(ports, vec![65535]);
}

#[test]
fn test_scan_target_keeps_address() {
    let spec = PortSpec::Explicit(vec![22]);
    let target = ScanTarget::new(String::from("192.168.0.1"), &spec).unwrap();
    assert_eq!(target.address, "192.168.0.1");
    assert_eq!(target.ports, vec![22]);
}

#[test]
fn test_same_outcomes_same_report() {
    let spec = PortSpec::Explicit(vec![80, 443, 22]);
    let target = ScanTarget::new(String::from("127.0.0.1"), &spec).unwrap();
    let options = ScanOptions { stealth: false, detect_service: true };
    let probes = vec![
        Probe {
            outcome: ConnectOutcome::Connected,
            response: Some(b"HTTP/1.1 200 OK\r\nServer: nginx\r\n\r\n".to_vec()),
        },
        Probe { outcome: ConnectOutcome::Connected, response: None },
        Probe { outcome: ConnectOutcome::Closed, response: None },
    ];
    let first = run(&target, options, &probes);
    let second = run(&target, options, &probes);
    assert_eq!(first, second);
}

#[test]
fn test_mixed_outcomes_report() {
    let target = ScanTarget { address: String::from("10.0.0.1"), ports: vec![80, 81] };
    let options = ScanOptions { stealth: false, detect_service: true };
    let probes = vec![
        Probe {
            outcome: ConnectOutcome::Connected,
            response: Some(b"HTTP/1.1 301 Moved\r\nServer: Apache\r\n\r\n".to_vec()),
        },
        Probe { outcome: ConnectOutcome::TimedOut, response: None },
    ];
    let report = run(&target, options, &probes);
    assert_eq!(report.len(), 2);
    assert_eq!(report[0].status, PortStatus::Open);
    assert_eq!(report[0].service.unwrap().label(), "Apache");
    assert_eq!(report[1].status, PortStatus::Closed);
    assert!(report[1].service.is_none());
}
