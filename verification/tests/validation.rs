use pitchroute::device::{AudioDevice, Registry};
use pitchroute::platform::Scope;
use pitchroute::routing::{ConfigError, RoutingConfig, validate};

fn device(id: u32, name: &str, supports_input: bool, supports_output: bool) -> AudioDevice {
    AudioDevice { id, name: name.to_string(), supports_input, supports_output }
}

fn mic_and_speakers() -> Registry {
    Registry {
        devices: vec![
            device(7, "Mic", true, false),
            device(9, "Speakers", false, true),
        ],
    }
}

fn config(pitch_milli: i64, input_name: &str, output_name: &str) -> RoutingConfig {
    RoutingConfig {
        pitch_milli,
        input_name: input_name.to_string(),
        output_name: output_name.to_string(),
    }
}

#[test]
fn scenario_mic_speakers_resolves() {
    let r = validate(&config(1500, "Mic", "Speakers"), &mic_and_speakers()).unwrap();
    assert_eq!(r.input_id, 7);
    assert_eq!(r.output_id, 9);
    assert_eq!(r.pitch_milli, 1500);
}

#[test]
fn pitch_zero_rejected() {
    let r = validate(&config(0, "Mic", "Speakers"), &mic_and_speakers());
    assert!(matches!(r, Err(ConfigError::InvalidPitch)));
}

#[test]
fn pitch_negative_rejected() {
    let r = validate(&config(-250, "Mic", "Speakers"), &mic_and_speakers());
    assert!(matches!(r, Err(ConfigError::InvalidPitch)));
}

#[test]
fn pitch_just_above_zero_accepted() {
    let r = validate(&config(1, "Mic", "Speakers"), &mic_and_speakers());
    assert!(r.is_ok());
}

#[test]
fn pitch_checked_before_device_names() {
    let r = validate(&config(0, "NoSuchDevice", "AlsoMissing"), &mic_and_speakers());
    assert!(matches!(r, Err(ConfigError::InvalidPitch)));
}

#[test]
fn unknown_input_device() {
    let r = validate(&config(1000, "Webcam", "Speakers"), &mic_and_speakers());
    match r {
        Err(ConfigError::UnknownDevice { name, role }) => {
            assert_eq!(name, "Webcam");
            assert_eq!(role, Scope::Input);
        },
        other => panic!("expected an unknown-device error, got {:?}", other),
    }
}

#[test]
fn unknown_output_device() {
    let r = validate(&config(1000, "Mic", "Headset"), &mic_and_speakers());
    match r {
        Err(ConfigError::UnknownDevice { name, role }) => {
            assert_eq!(name, "Headset");
            assert_eq!(role, Scope::Output);
        },
        other => panic!("expected an unknown-device error, got {:?}", other),
    }
}

#[test]
fn input_without_capture_rejected() {
    let r = validate(&config(1500, "Speakers", "Speakers"), &mic_and_speakers());
    match r {
        Err(ConfigError::UnsupportedRole { name, role }) => {
            assert_eq!(name, "Speakers");
            assert_eq!(role, Scope::Input);
        },
        other => panic!("expected an unsupported-role error, got {:?}", other),
    }
}

#[test]
fn output_without_playback_rejected() {
    let r = validate(&config(1500, "Mic", "Mic"), &mic_and_speakers());
    match r {
        Err(ConfigError::UnsupportedRole { name, role }) => {
            assert_eq!(name, "Mic");
            assert_eq!(role, Scope::Output);
        },
        other => panic!("expected an unsupported-role error, got {:?}", other),
    }
}

#[test]
fn input_existence_checked_before_output() {
    let r = validate(&config(1000, "Webcam", "Headset"), &mic_and_speakers());
    match r {
        Err(ConfigError::UnknownDevice { role, .. }) => assert_eq!(role, Scope::Input),
        other => panic!("expected an unknown-device error, got {:?}", other),
    }
}

#[test]
fn duplicate_names_resolve_to_earliest() {
    let reg = Registry {
        devices: vec![
            device(3, "Duo", true, true),
            device(4, "Duo", true, true),
        ],
    };
    let r = validate(&config(1000, "Duo", "Duo"), &reg).unwrap();
    assert_eq!(r.input_id, 3);
    assert_eq!(r.output_id, 3);
}
