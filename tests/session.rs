use openscq30_lib::equalizer::{
    EqualizerConfiguration, HearId, StereoVolumeAdjustments, VolumeAdjustments,
};
use openscq30_lib::frame::{encode_frame, parse_frame, SET_SOUND_MODE, STATE_UPDATE};
use openscq30_lib::init::{FetchAction, FetchEvent, InitialStateFetch};
use openscq30_lib::profile::{profile_for, DeviceModel, SoundModesDispatcher};
use openscq30_lib::session::{DeviceSession, Error, Feature};
use openscq30_lib::state::DeviceState;
use openscq30_lib::structures::{
    AmbientSoundMode, Battery, BatteryLevel, CustomButtonModel, CustomNoiseCanceling,
    FirmwareVersion, IsBatteryCharging, NoiseCancelingMode, SingleBattery, SoundModes,
    TransparencyMode,
};

fn example_state_update_packet() -> Vec<u8> {
    vec![
        0x09, 0xff, 0x00, 0x00, 0x01, 0x01, 0x01, 0x46, 0x00, 0x05, 0x00, 0xfe, 0xfe, 0x3c, 0xb4,
        0x8f, 0xa0, 0x8e, 0xb4, 0x74, 0x88, 0x00, 0x00, 0x00, 0x00, 0x00, 0x00, 0x00, 0x00, 0x00,
        0x00, 0x00, 0x00, 0x00, 0x00, 0x00, 0x00, 0x00, 0x00, 0x00, 0x00, 0x00, 0x00, 0x00, 0x02,
        0x00, 0x01, 0x00, 0x30, 0x32, 0x2e, 0x33, 0x30, 0x33, 0x30, 0x32, 0x39, 0x30, 0x38, 0x36,
        0x45, 0x43, 0x38, 0x32, 0x46, 0x31, 0x32, 0x41, 0x43, 0x30,
    ]
}

/// Runs the initial fetch against a list of events and counts the frames
/// written, as the task that owns the connection would.
fn run_fetch(events: Vec<FetchEvent>) -> (Result<DeviceState, Error>, usize) {
    let (mut fetch, _first_request) = InitialStateFetch::start();
    let mut writes = 1;
    for event in events {
        match fetch.step(&event) {
            FetchAction::SendRequest(_) => writes += 1,
            FetchAction::KeepWaiting => {}
            FetchAction::Finished { state, follow_up } => {
                if follow_up.is_some() {
                    writes += 1;
                }
                return (Ok(state), writes);
            }
            FetchAction::Failed(err) => return (Err(err), writes),
        }
    }
    (Err(Error::NoResponse), writes)
}

fn example_session() -> DeviceSession {
    let (state, _) = run_fetch(vec![FetchEvent::Inbound(example_state_update_packet())]);
    DeviceSession::new(state.unwrap())
}

#[test]
fn test_new_with_example_state_update_packet() {
    let (state, writes) = run_fetch(vec![FetchEvent::Inbound(example_state_update_packet())]);
    let state = state.unwrap();
    assert_eq!(1, writes);
    let sound_modes = state.sound_modes.unwrap();
    assert_eq!(AmbientSoundMode::Normal, sound_modes.ambient_sound_mode);
    assert_eq!(NoiseCancelingMode::Transport, sound_modes.noise_canceling_mode);
    assert!(state.equalizer_configuration.preset_profile_id().is_none());
    assert_eq!(
        &VolumeAdjustments::new(vec![-60, 60, 23, 40, 22, 60, -4, 16]).unwrap(),
        state.equalizer_configuration.volume_adjustments(),
    )
}

#[test]
fn example_state_update_packet_fields() {
    let (state, _) = run_fetch(vec![FetchEvent::Inbound(example_state_update_packet())]);
    let state = state.unwrap();
    assert_eq!(profile_for(DeviceModel::A3028), state.device_profile);
    assert_eq!(
        Battery::Single(SingleBattery {
            is_charging: IsBatteryCharging::No,
            level: BatteryLevel(5),
        }),
        state.battery
    );
    assert_eq!(TransparencyMode::VocalMode, state.sound_modes.unwrap().transparency_mode);
    assert_eq!(Some(FirmwareVersion::new(2, 30)), state.firmware_version);
    assert_eq!("3029086EC82F12AC", state.serial_number.unwrap().as_str());
    assert_eq!(false, state.hear_id.unwrap().is_enabled);
}

#[test]
fn test_new_with_retry() {
    let (state, writes) = run_fetch(vec![
        FetchEvent::Timeout,
        FetchEvent::Inbound(example_state_update_packet()),
    ]);
    assert!(state.is_ok());
    assert_eq!(2, writes);
}

#[test]
fn test_new_max_retries() {
    let (state, writes) = run_fetch(vec![
        FetchEvent::Timeout,
        FetchEvent::Timeout,
        FetchEvent::Timeout,
        FetchEvent::Timeout,
    ]);
    assert_eq!(true, state.is_err());
    assert_eq!(Err(Error::NoResponse), state.map(|_| ()));
    assert_eq!(3, writes);
}

#[test]
fn fetch_ignores_other_packets_and_garbage() {
    let ambient = vec![
        0x09, 0xff, 0x00, 0x00, 0x01, 0x06, 0x01, 0x0e, 0x00, 0x00, 0x01, 0x01, 0x00, 0x20,
    ];
    let (state, writes) = run_fetch(vec![
        FetchEvent::Inbound(ambient),
        FetchEvent::Inbound(vec![1, 2, 3]),
        FetchEvent::Inbound(example_state_update_packet()),
    ]);
    assert!(state.is_ok());
    assert_eq!(1, writes);
}

#[test]
fn fetch_requests_firmware_version_when_snapshot_lacks_it() {
    let mut state = example_session().state;
    state.firmware_version = None;
    let (mut fetch, _) = InitialStateFetch::start();
    // An A3033 snapshot always carries the firmware version.
    let mut body = vec![0x03, 0x01, 0xfe, 0xfe];
    body.extend_from_slice(&[120; 8]);
    body.extend_from_slice(b"01.02");
    body.extend_from_slice(b"ABCDEFGHIJKLMNOP");
    body.push(1);
    let frame = encode_frame(&STATE_UPDATE, &body);
    match fetch.step(&FetchEvent::Inbound(frame)) {
        FetchAction::Finished { state, follow_up } => {
            assert!(follow_up.is_none());
            assert_eq!(profile_for(DeviceModel::A3033), state.device_profile);
            assert_eq!(Some(true), state.wear_detection);
            assert!(state.sound_modes.is_none());
        }
        _ => panic!("expected the snapshot to end the fetch"),
    }
}

#[test]
fn test_ambient_sound_mode_update_packet() {
    let mut session = example_session();
    let sound_modes = session.state().sound_modes.unwrap();
    assert_eq!(AmbientSoundMode::Normal, sound_modes.ambient_sound_mode);
    assert_eq!(NoiseCancelingMode::Transport, sound_modes.noise_canceling_mode);

    let changed = session.handle_inbound(&[
        0x09, 0xff, 0x00, 0x00, 0x01, 0x06, 0x01, 0x0e, 0x00, 0x00, 0x01, 0x01, 0x00, 0x20,
    ]);
    assert!(changed);

    let sound_modes = session.state().sound_modes.unwrap();
    assert_eq!(AmbientSoundMode::NoiseCanceling, sound_modes.ambient_sound_mode);
    assert_eq!(NoiseCancelingMode::Outdoor, sound_modes.noise_canceling_mode);
}

#[test]
fn unreadable_or_repeated_packets_change_nothing() {
    let mut session = example_session();
    assert!(!session.handle_inbound(&[1, 2, 3]));
    assert!(!session.handle_inbound(&example_state_update_packet()));
}

#[test]
fn battery_charging_update_changes_single_battery() {
    let mut session = example_session();
    let changed = session.handle_inbound(&[
        0x09, 0xff, 0x00, 0x00, 0x01, 0x01, 0x04, 0x0c, 0x00, 0x01, 0x00, 0x1b,
    ]);
    assert!(changed);
    assert_eq!(
        Battery::Single(SingleBattery {
            is_charging: IsBatteryCharging::Yes,
            level: BatteryLevel(5),
        }),
        session.state().battery
    );
}

#[test]
fn firmware_update_keeps_later_version() {
    let mut session = example_session();
    let changed = session.handle_inbound(&[
        0x09, 0xff, 0x00, 0x00, 0x01, 0x01, 0x05, 0x25, 0x00, 0x31, 0x32, 0x2e, 0x33, 0x34, 0x32,
        0x33, 0x2e, 0x34, 0x35, 0x30, 0x31, 0x32, 0x33, 0x34, 0x35, 0x36, 0x37, 0x38, 0x39, 0x41,
        0x42, 0x43, 0x44, 0x45, 0x46, 0xca,
    ]);
    assert!(changed);
    assert_eq!(Some(FirmwareVersion::new(23, 45)), session.state().firmware_version);
    assert_eq!(
        "0123456789ABCDEF",
        session.state().serial_number.as_ref().unwrap().as_str()
    );
}

#[test]
fn test_set_sound_mode_called_twice() {
    let mut session = example_session();
    let sound_modes = SoundModes {
        custom_noise_canceling: CustomNoiseCanceling::new(10),
        ..Default::default()
    };
    let response = session.set_sound_modes(sound_modes).unwrap().unwrap();
    assert_eq!(1, response.packets.len());
    let frame = parse_frame(&response.packets[0]).unwrap();
    assert_eq!(SET_SOUND_MODE, frame.command);
    assert_eq!(vec![0x02, 0x00, 0x01, 0x0a], frame.body);
    session.commit(response);
    assert!(session.set_sound_modes(sound_modes).unwrap().is_none());
}

#[test]
fn test_set_equalizer_configuration_called_twice() {
    let mut session = example_session();
    let equalizer_configuration = EqualizerConfiguration::new_custom_profile(
        VolumeAdjustments::new(vec![0, 10, 20, 30, 40, 50, 60, 70]).unwrap(),
    );
    let response = session
        .set_equalizer_configuration(&equalizer_configuration)
        .unwrap()
        .unwrap();
    assert_eq!(1, response.packets.len());
    session.commit(response);
    assert_eq!(equalizer_configuration, session.state().equalizer_configuration);
    assert!(session
        .set_equalizer_configuration(&equalizer_configuration)
        .unwrap()
        .is_none());
}

#[test]
fn equalizer_with_wrong_band_count_is_refused() {
    let session = example_session();
    let equalizer_configuration = EqualizerConfiguration::new_custom_profile(
        VolumeAdjustments::new(vec![0, 10, 20]).unwrap(),
    );
    let result = session.set_equalizer_configuration(&equalizer_configuration);
    assert_eq!(
        Some(Error::FeatureNotSupported(Feature::EqualizerBandCount)),
        result.err()
    );
}

fn sample_hear_id() -> HearId {
    HearId {
        is_enabled: true,
        volume_adjustments: StereoVolumeAdjustments {
            left: VolumeAdjustments::new(vec![10; 8]).unwrap(),
            right: VolumeAdjustments::new(vec![-10; 8]).unwrap(),
        },
        time: 7,
    }
}

#[test]
fn hear_id_on_profile_without_it_is_refused() {
    let mut state = example_session().state;
    state.device_profile.has_hear_id = false;
    state.hear_id = None;
    let session = DeviceSession::new(state);
    let result = session.set_hear_id(&sample_hear_id());
    assert_eq!(Some(Error::FeatureNotSupported(Feature::HearId)), result.err());
}

#[test]
fn hear_id_set_twice_sends_once() {
    let mut session = example_session();
    let response = session.set_hear_id(&sample_hear_id()).unwrap().unwrap();
    assert_eq!(1, response.packets.len());
    session.commit(response);
    assert!(session.set_hear_id(&sample_hear_id()).unwrap().is_none());
}

#[test]
fn sound_modes_on_profile_without_them_are_refused() {
    let mut state = example_session().state;
    state.device_profile.has_sound_modes = false;
    state.sound_modes = None;
    let session = DeviceSession::new(state);
    let result = session.set_sound_modes(SoundModes::default());
    assert_eq!(Some(Error::FeatureNotSupported(Feature::SoundModes)), result.err());
}

#[test]
fn sound_modes_missing_from_state_are_reported() {
    let mut state = example_session().state;
    state.sound_modes = None;
    let session = DeviceSession::new(state);
    let result = session.set_sound_modes(SoundModes::default());
    assert_eq!(Some(Error::MissingData(Feature::SoundModes)), result.err());
}

fn buttons(action: u8) -> CustomButtonModel {
    CustomButtonModel {
        left_single_click: action,
        left_double_click: action,
        left_long_press: action,
        right_single_click: action,
        right_double_click: action,
        right_long_press: action,
    }
}

#[test]
fn custom_button_model_errors_and_idempotence() {
    let session = example_session();
    assert_eq!(
        Some(Error::FeatureNotSupported(Feature::CustomButtonModel)),
        session.set_custom_button_model(buttons(1)).err()
    );

    let mut state = example_session().state;
    state.device_profile.has_custom_button_model = true;
    let session = DeviceSession::new(state);
    assert_eq!(
        Some(Error::MissingData(Feature::CustomButtonModel)),
        session.set_custom_button_model(buttons(1)).err()
    );

    let mut state = example_session().state;
    state.device_profile.has_custom_button_model = true;
    state.custom_button_model = Some(buttons(0));
    let mut session = DeviceSession::new(state);
    let response = session.set_custom_button_model(buttons(1)).unwrap().unwrap();
    assert_eq!(1, response.packets.len());
    session.commit(response);
    assert!(session.set_custom_button_model(buttons(1)).unwrap().is_none());
}

#[test]
fn ambient_mode_first_dispatcher_splits_the_change() {
    let mut state = example_session().state;
    state.device_profile.sound_modes_dispatcher = SoundModesDispatcher::AmbientModeFirst;
    let session = DeviceSession::new(state);
    let next = SoundModes {
        ambient_sound_mode: AmbientSoundMode::NoiseCanceling,
        noise_canceling_mode: NoiseCancelingMode::Indoor,
        transparency_mode: TransparencyMode::VocalMode,
        custom_noise_canceling: CustomNoiseCanceling::new(0),
    };
    let response = session.set_sound_modes(next).unwrap().unwrap();
    assert_eq!(2, response.packets.len());
    assert_eq!(vec![0x00, 0x00, 0x01, 0x00], parse_frame(&response.packets[0]).unwrap().body);
    assert_eq!(vec![0x00, 0x02, 0x01, 0x00], parse_frame(&response.packets[1]).unwrap().body);
    assert_eq!(Some(next), response.new_state.sound_modes);
}

#[test]
fn two_channel_profile_repeats_equalizer_bands() {
    let mut state = example_session().state;
    state.device_profile.num_equalizer_channels = 2;
    let session = DeviceSession::new(state);
    let equalizer_configuration = EqualizerConfiguration::new_custom_profile(
        VolumeAdjustments::new(vec![0; 8]).unwrap(),
    );
    let response = session
        .set_equalizer_configuration(&equalizer_configuration)
        .unwrap()
        .unwrap();
    let body = parse_frame(&response.packets[0]).unwrap().body;
    assert_eq!(2 + 16, body.len());
}
