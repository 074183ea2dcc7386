use openscq30_lib::calculate_checksum;
use openscq30_lib::equalizer::{EqualizerConfiguration, HearId, StereoVolumeAdjustments, VolumeAdjustments};
use openscq30_lib::frame::{
    encode_frame, parse_frame, take_inbound_packet_header, ParseFailure, SET_SOUND_MODE,
    SOUND_MODE_UPDATE,
};
use openscq30_lib::inbound::{InboundPacket, TwsStatusUpdatePacket};
use openscq30_lib::outbound::{
    OutboundPacket, RequestFirmwareVersionPacket, RequestStatePacket, SetCustomButtonModelPacket,
    SetEqualizerPacket, SetHearIdPacket, SetSoundModePacket,
};
use openscq30_lib::structures::{
    AmbientSoundMode, AmbientSoundModeCycle, CustomButtonModel, CustomNoiseCanceling,
    FirmwareVersion, IsBatteryCharging, NoiseCancelingMode, SerialNumber, SoundModes,
    TransparencyMode,
};

fn with_checksum(mut bytes: Vec<u8>) -> Vec<u8> {
    let checksum = calculate_checksum(&bytes);
    bytes.push(checksum);
    bytes
}

#[test]
fn checksum_is_correct_with_no_data() {
    let checksum = calculate_checksum(&[]);
    assert_eq!(0, checksum);
}

#[test]
fn checksum_is_correct_without_wrapping() {
    let checksum = calculate_checksum(&[1, 2]);
    assert_eq!(3, checksum);
}

#[test]
fn checksum_is_correct_with_wrapping() {
    let checksum = calculate_checksum(&[0xff, 0x02]);
    assert_eq!(0x01, checksum);
}

#[test]
fn it_errors_when_nothing_matches() {
    let result = take_inbound_packet_header(&[1, 2, 3]);
    assert!(result.is_err());
}

#[test]
fn tws_status_update_packet_it_parses_a_manually_crafted_packet() {
    let input: &[u8] = &[
        0x09, 0xff, 0x00, 0x00, 0x01, 0x01, 0x02, 0x0c, 0x00, 0x02, 0x01, 0x1b,
    ];
    let (body, _) = take_inbound_packet_header(input).unwrap();
    let packet = TwsStatusUpdatePacket::take(&body).unwrap();
    assert_eq!(2, packet.host_device);
    assert_eq!(true, packet.tws_status);
}

#[test]
fn battery_charging_update_packet_it_parses_a_manually_crafted_packet() {
    let input: &[u8] = &[
        0x09, 0xff, 0x00, 0x00, 0x01, 0x01, 0x04, 0x0c, 0x00, 0x01, 0x00, 0x1b,
    ];
    let InboundPacket::BatteryChargingUpdate(packet) = InboundPacket::new(input).unwrap() else {
        panic!("wrong packet type");
    };

    assert_eq!(IsBatteryCharging::Yes, packet.left);
    assert_eq!(IsBatteryCharging::No, packet.right);
}

#[test]
fn firmware_version_update_packet_it_parses_a_manually_crafted_packet() {
    let input: &[u8] = &[
        0x09, 0xff, 0x00, 0x00, 0x01, 0x01, 0x05, 0x25, 0x00, 0x31, 0x32, 0x2e, 0x33, 0x34, 0x32,
        0x33, 0x2e, 0x34, 0x35, 0x30, 0x31, 0x32, 0x33, 0x34, 0x35, 0x36, 0x37, 0x38, 0x39, 0x41,
        0x42, 0x43, 0x44, 0x45, 0x46, 0xca,
    ];
    let InboundPacket::FirmwareVersionUpdate(packet) = InboundPacket::new(input).unwrap() else {
        panic!("wrong packet type");
    };
    assert_eq!(FirmwareVersion::new(12, 34), packet.left_firmware_version);
    assert_eq!(FirmwareVersion::new(23, 45), packet.right_firmware_version);
    assert_eq!(SerialNumber("0123456789ABCDEF".into()), packet.serial_number);
    assert_eq!("0123456789ABCDEF", packet.serial_number.as_str());
}

#[test]
fn it_matches_a_manually_crafted_packet() {
    let expected: &[u8] = &[0x08, 0xee, 0x00, 0x00, 0x00, 0x01, 0x05, 0x0a, 0x00, 0x06];
    assert_eq!(expected, RequestFirmwareVersionPacket::new().bytes())
}

#[test]
fn request_state_packet_bytes() {
    let expected: &[u8] = &[0x08, 0xee, 0x00, 0x00, 0x00, 0x01, 0x01, 0x0a, 0x00, 0x02];
    assert_eq!(expected, RequestStatePacket::new().bytes())
}

#[test]
fn frame_with_wrong_checksum_is_rejected() {
    let input: &[u8] = &[
        0x09, 0xff, 0x00, 0x00, 0x01, 0x01, 0x04, 0x0c, 0x00, 0x01, 0x00, 0x1c,
    ];
    let err = InboundPacket::new(input).unwrap_err();
    assert_eq!(ParseFailure::ChecksumMismatch, err.reason);
}

#[test]
fn frame_shorter_than_header_is_rejected() {
    let err = InboundPacket::new(&[0x09, 0xff, 0x00, 0x00, 0x01, 0x01, 0x04, 0x0a, 0x00])
        .unwrap_err();
    assert_eq!(ParseFailure::TooShort, err.reason);
}

#[test]
fn unknown_command_is_rejected() {
    let input = with_checksum(vec![0x09, 0xff, 0x00, 0x00, 0x01, 0x07, 0x07, 0x0a, 0x00]);
    let err = InboundPacket::new(&input).unwrap_err();
    assert_eq!(ParseFailure::UnknownCommand, err.reason);
}

#[test]
fn malformed_body_is_rejected() {
    // An ambient sound mode id of 7 does not exist.
    let input = with_checksum(vec![
        0x09, 0xff, 0x00, 0x00, 0x01, 0x06, 0x01, 0x0e, 0x00, 0x07, 0x01, 0x01, 0x00,
    ]);
    let err = InboundPacket::new(&input).unwrap_err();
    assert_eq!(ParseFailure::MalformedBody, err.reason);
}

#[test]
fn acknowledgements_are_recognized() {
    let ok = with_checksum(vec![0x09, 0xff, 0x00, 0x00, 0x01, 0x06, 0x81, 0x0a, 0x00]);
    assert_eq!(InboundPacket::SetSoundModeOk, InboundPacket::new(&ok).unwrap());
    let ok = with_checksum(vec![0x09, 0xff, 0x00, 0x00, 0x01, 0x02, 0x81, 0x0a, 0x00]);
    assert_eq!(InboundPacket::SetEqualizerOk, InboundPacket::new(&ok).unwrap());
}

#[test]
fn empty_body_frame_round_trips() {
    let frame = encode_frame(&[1, 2, 3, 4, 5, 6, 7], &[]);
    assert_eq!(vec![1, 2, 3, 4, 5, 6, 7, 0x0a, 0x00, 0x26], frame);
    let packet = parse_frame(&frame).unwrap();
    assert_eq!([1, 2, 3, 4, 5, 6, 7], packet.command);
    assert!(packet.body.is_empty());
}

fn sample_sound_modes() -> SoundModes {
    SoundModes {
        ambient_sound_mode: AmbientSoundMode::Transparency,
        noise_canceling_mode: NoiseCancelingMode::Indoor,
        transparency_mode: TransparencyMode::FullyTransparent,
        custom_noise_canceling: CustomNoiseCanceling::new(4),
    }
}

#[test]
fn set_sound_mode_packet_bytes() {
    let bytes = SetSoundModePacket { sound_modes: sample_sound_modes() }.bytes();
    assert_eq!(
        vec![0x08, 0xee, 0x00, 0x00, 0x00, 0x06, 0x81, 0x0e, 0x00, 0x01, 0x02, 0x00, 0x04, 0x92],
        bytes
    );
}

#[test]
fn set_sound_mode_body_decodes_as_sound_mode_update() {
    let packet = SetSoundModePacket { sound_modes: sample_sound_modes() };
    let outbound = packet.bytes();
    let parsed = parse_frame(&outbound).unwrap();
    assert_eq!(SET_SOUND_MODE, parsed.command);
    let inbound = encode_frame(&SOUND_MODE_UPDATE, &parsed.body);
    let InboundPacket::SoundModeUpdate(update) = InboundPacket::new(&inbound).unwrap() else {
        panic!("wrong packet type");
    };
    assert_eq!(sample_sound_modes(), update.sound_modes);
}

#[test]
fn outbound_frames_carry_their_checksum() {
    let frames = vec![
        RequestFirmwareVersionPacket::new().bytes(),
        SetSoundModePacket { sound_modes: sample_sound_modes() }.bytes(),
        SetCustomButtonModelPacket {
            custom_button_model: CustomButtonModel {
                left_single_click: 1,
                left_double_click: 2,
                left_long_press: 3,
                right_single_click: 4,
                right_double_click: 5,
                right_long_press: 6,
            },
        }
        .bytes(),
    ];
    for frame in frames {
        let (last, rest) = frame.split_last().unwrap();
        assert_eq!(*last, calculate_checksum(rest));
    }
}

#[test]
fn set_equalizer_packet_bytes() {
    let configuration = EqualizerConfiguration::new_custom_profile(
        VolumeAdjustments::new(vec![-120, -60, 0, 10, 20, 30, 60, 135]).unwrap(),
    );
    let packet = SetEqualizerPacket::new(configuration.clone(), None);
    let bytes = packet.bytes();
    assert_eq!(
        vec![
            0x08, 0xee, 0x00, 0x00, 0x00, 0x02, 0x81, 0x14, 0x00, 0xfe, 0xfe, 0x00, 0x3c, 0x78,
            0x82, 0x8c, 0x96, 0xb4, 0xff, 0x94,
        ],
        bytes
    );
    let parsed = parse_frame(&bytes).unwrap();
    let decoded = EqualizerConfiguration::take(&parsed.body, 8).unwrap();
    assert_eq!(configuration, decoded);
}

#[test]
fn set_equalizer_packet_with_right_channel_repeats_bands() {
    let left = EqualizerConfiguration {
        profile_id: 0x0001,
        volume_adjustments: VolumeAdjustments::new(vec![0, 0]).unwrap(),
    };
    let right = EqualizerConfiguration {
        profile_id: 0x0001,
        volume_adjustments: VolumeAdjustments::new(vec![10, -10]).unwrap(),
    };
    let packet = SetEqualizerPacket::new(left, Some(right));
    assert_eq!(vec![0x01, 0x00, 0x78, 0x78, 0x82, 0x6e], packet.body());
}

#[test]
fn volume_adjustments_out_of_range_are_refused() {
    assert!(VolumeAdjustments::new(vec![0, 136]).is_none());
    assert!(VolumeAdjustments::new(vec![-121]).is_none());
    assert!(VolumeAdjustments::new(vec![-120, 135]).is_some());
}

#[test]
fn hear_id_body_round_trips() {
    let hear_id = HearId {
        is_enabled: true,
        volume_adjustments: StereoVolumeAdjustments {
            left: VolumeAdjustments::new(vec![0, 1, 2, 3, 4, 5, 6, 7]).unwrap(),
            right: VolumeAdjustments::new(vec![-1, -2, -3, -4, -5, -6, -7, -8]).unwrap(),
        },
        time: 0x01020304,
    };
    let body = SetHearIdPacket { hear_id: hear_id.clone() }.body();
    assert_eq!(21, body.len());
    assert_eq!(vec![0x04, 0x03, 0x02, 0x01], body[17..].to_vec());
    assert_eq!(hear_id, HearId::take(&body).unwrap());
}

#[test]
fn custom_noise_canceling_is_clamped() {
    assert_eq!(10, CustomNoiseCanceling::new(200).value);
    assert_eq!(3, CustomNoiseCanceling::new(3).value);
}

#[test]
fn ambient_sound_mode_cycle_bits() {
    let cycle = AmbientSoundModeCycle::from_byte(0b101);
    assert!(cycle.noise_canceling_mode);
    assert!(!cycle.transparency_mode);
    assert!(cycle.normal_mode);
    assert_eq!(0b101, cycle.to_byte());
    assert_eq!(0b111, AmbientSoundModeCycle::default().to_byte());
    assert_eq!(0, AmbientSoundModeCycle::from_byte(0xf8).to_byte());
}

#[test]
fn firmware_version_max_takes_later_version() {
    assert_eq!(
        FirmwareVersion::new(2, 30),
        FirmwareVersion::new(2, 30).max(FirmwareVersion::new(1, 99))
    );
    assert_eq!(
        FirmwareVersion::new(2, 31),
        FirmwareVersion::new(2, 30).max(FirmwareVersion::new(2, 31))
    );
}

#[test]
fn serial_number_must_be_ascii() {
    let mut bytes = b"0123456789ABCDEF".to_vec();
    assert_eq!("0123456789ABCDEF", SerialNumber::take(&bytes).unwrap().as_str());
    bytes[3] = 0xc3;
    assert!(SerialNumber::take(&bytes).is_none());
    assert!(SerialNumber::take(&bytes[..15]).is_none());
}
