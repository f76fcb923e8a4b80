use pitchroute::device::{DeviceProbe, Registry, build_registry};
use pitchroute::device::AudioDevice;

fn good_probe(id: u32, name: &str, input_streams: u32, output_streams: u32) -> DeviceProbe {
    DeviceProbe {
        id,
        name: Ok(name.to_string()),
        input_streams: Ok(input_streams),
        output_streams: Ok(output_streams),
    }
}

#[test]
fn empty_enumeration_yields_empty_registry() {
    let reg = build_registry(&Vec::new()).unwrap();
    assert_eq!(reg.devices.len(), 0);
}

#[test]
fn stream_counts_decide_capabilities() {
    let probes = vec![
        good_probe(1, "Mic", 2, 0),
        good_probe(2, "Speakers", 0, 2),
        good_probe(3, "Duplex", 1, 1),
        good_probe(4, "Dead", 0, 0),
    ];
    let reg = build_registry(&probes).unwrap();
    assert_eq!(reg.devices.len(), 4);
    assert_eq!(reg.devices[0].name, "Mic");
    assert!(reg.devices[0].supports_input);
    assert!(!reg.devices[0].supports_output);
    assert!(!reg.devices[1].supports_input);
    assert!(reg.devices[1].supports_output);
    assert!(reg.devices[2].supports_input);
    assert!(reg.devices[2].supports_output);
    assert!(!reg.devices[3].supports_input);
    assert!(!reg.devices[3].supports_output);
    assert_eq!(reg.devices[3].id, 4);
}

#[test]
fn failed_name_query_is_fatal_with_offending_id() {
    let probes = vec![
        good_probe(1, "Mic", 1, 0),
        DeviceProbe { id: 55, name: Err(-50), input_streams: Ok(1), output_streams: Ok(0) },
        good_probe(3, "Speakers", 0, 1),
    ];
    let e = build_registry(&probes).unwrap_err();
    assert_eq!(e.device_id, 55);
    assert_eq!(e.status, -50);
}

#[test]
fn first_failed_probe_wins() {
    let probes = vec![
        DeviceProbe { id: 8, name: Ok("A".to_string()), input_streams: Err(-4), output_streams: Err(-9) },
        DeviceProbe { id: 9, name: Err(-1), input_streams: Ok(0), output_streams: Ok(0) },
    ];
    let e = build_registry(&probes).unwrap_err();
    assert_eq!(e.device_id, 8);
    assert_eq!(e.status, -4);
}

#[test]
fn failed_output_query_reports_its_status() {
    let probes = vec![
        DeviceProbe { id: 2, name: Ok("B".to_string()), input_streams: Ok(1), output_streams: Err(-7) },
    ];
    let e = build_registry(&probes).unwrap_err();
    assert_eq!(e.device_id, 2);
    assert_eq!(e.status, -7);
}

#[test]
fn find_returns_earliest_match() {
    let reg = Registry {
        devices: vec![
            AudioDevice { id: 1, name: "One".to_string(), supports_input: true, supports_output: true },
            AudioDevice { id: 2, name: "Two".to_string(), supports_input: true, supports_output: true },
            AudioDevice { id: 3, name: "Two".to_string(), supports_input: true, supports_output: true },
        ],
    };
    assert_eq!(reg.find(&"Two".to_string()), Some(1));
    assert_eq!(reg.find(&"One".to_string()), Some(0));
    assert_eq!(reg.find(&"Three".to_string()), None);
}
