use vstd::prelude::*;
use vstd::slice::slice_subrange;

use crate::equalizer::{
    adjustment_from_byte, adjustment_in_range, bands_in_range, EqualizerConfiguration, HearId,
    VolumeAdjustments,
};
use crate::frame::{
    parse_frame, same_command, spec_parse_frame, ParseFailure, TryIntoInboundPacketError,
    BATTERY_CHARGING_UPDATE, FIRMWARE_VERSION_UPDATE, SET_EQUALIZER_OK, SET_SOUND_MODE_OK,
    SOUND_MODE_UPDATE, STATE_UPDATE,
};
use crate::profile::{profile_for, spec_profile_for, DeviceModel, STANDARD_EQUALIZER_BANDS};
use crate::state::{DeviceState, DeviceStateView};
use crate::structures::{
    AgeRange, Battery, FirmwareVersion, Gender, IsBatteryCharging, SerialNumber, SingleBattery,
    SoundModes,
};

verus! {

/// Body length of a state update from an A3028.
pub const A3028_STATE_UPDATE_LEN: usize = 60;

/// Body length of a state update from an A3033.
pub const A3033_STATE_UPDATE_LEN: usize = 34;

/// Body length of a firmware version update.
pub const FIRMWARE_VERSION_UPDATE_LEN: usize = 26;

/// A boolean flag byte: 0 or 1.
pub open spec fn spec_flag(b: u8) -> Option<bool> {
    if b == 0 {
        Some(false)
    } else if b == 1 {
        Some(true)
    } else {
        None
    }
}

/// Reads a flag byte.
pub fn take_flag(b: u8) -> (r: Option<bool>)
    ensures
        r == spec_flag(b),
{
    if b == 0 {
        Some(false)
    } else if b == 1 {
        Some(true)
    } else {
        None
    }
}

/// Every parsed band lies in range.
pub proof fn lemma_parsed_bands_in_range(b: Seq<u8>)
    ensures
        bands_in_range(VolumeAdjustments::spec_parse(b)),
{
    let parsed = VolumeAdjustments::spec_parse(b);
    assert forall|i: int| 0 <= i < parsed.len() implies adjustment_in_range(#[trigger] parsed[i]) by {
        assert(VolumeAdjustments::spec_parse(b)[i] == adjustment_from_byte(b[i]));
    }
}

/// State of an A3028: battery, equalizer, gender, age range, hearing
/// calibration, sound modes, firmware version and serial number.
pub open spec fn spec_parse_a3028(b: Seq<u8>) -> Option<DeviceStateView> {
    if b.len() != A3028_STATE_UPDATE_LEN {
        None
    } else {
        match (
            SingleBattery::spec_parse(b.subrange(0, 2)),
            EqualizerConfiguration::spec_parse(b.subrange(2, 12), STANDARD_EQUALIZER_BANDS as nat),
            HearId::spec_parse(b.subrange(14, 35)),
            SoundModes::spec_parse(b.subrange(35, 39)),
            FirmwareVersion::spec_parse(b.subrange(39, 44)),
            SerialNumber::spec_parse(b.subrange(44, 60)),
        ) {
            (Some(battery), Some(eq), Some(hear_id), Some(sound_modes), Some(fw), Some(sn)) => Some(
                DeviceStateView {
                    device_profile: spec_profile_for(DeviceModel::A3028),
                    battery: Battery::Single(battery),
                    equalizer_configuration: eq,
                    sound_modes: Some(sound_modes),
                    age_range: Some(AgeRange(b[13])),
                    gender: Some(Gender(b[12])),
                    hear_id: Some(hear_id),
                    custom_button_model: None,
                    firmware_version: Some(fw),
                    serial_number: Some(sn),
                    ambient_sound_mode_cycle: None,
                    wear_detection: None,
                },
            ),
            _ => None,
        }
    }
}

/// State of an A3033: battery, equalizer, firmware version, serial number
/// and wear detection flag.
pub open spec fn spec_parse_a3033(b: Seq<u8>) -> Option<DeviceStateView> {
    if b.len() != A3033_STATE_UPDATE_LEN {
        None
    } else {
        match (
            SingleBattery::spec_parse(b.subrange(0, 2)),
            EqualizerConfiguration::spec_parse(b.subrange(2, 12), STANDARD_EQUALIZER_BANDS as nat),
            FirmwareVersion::spec_parse(b.subrange(12, 17)),
            SerialNumber::spec_parse(b.subrange(17, 33)),
            spec_flag(b[33]),
        ) {
            (Some(battery), Some(eq), Some(fw), Some(sn), Some(wear)) => Some(
                DeviceStateView {
                    device_profile: spec_profile_for(DeviceModel::A3033),
                    battery: Battery::Single(battery),
                    equalizer_configuration: eq,
                    sound_modes: None,
                    age_range: None,
                    gender: None,
                    hear_id: None,
                    custom_button_model: None,
                    firmware_version: Some(fw),
                    serial_number: Some(sn),
                    ambient_sound_mode_cycle: None,
                    wear_detection: Some(wear),
                },
            ),
            _ => None,
        }
    }
}

/// A state update body in the layout of whichever model its length belongs
/// to.
pub open spec fn spec_parse_state_update(b: Seq<u8>) -> Option<DeviceStateView> {
    if b.len() == A3028_STATE_UPDATE_LEN {
        spec_parse_a3028(b)
    } else {
        spec_parse_a3033(b)
    }
}

/// A state update of an A3028.
#[derive(Clone, Debug, PartialEq, Eq)]
pub struct A3028StateUpdatePacket {
    pub battery: SingleBattery,
    pub equalizer_configuration: EqualizerConfiguration,
    pub gender: Gender,
    pub age_range: AgeRange,
    pub hear_id: HearId,
    pub sound_modes: SoundModes,
    pub firmware_version: FirmwareVersion,
    pub serial_number: SerialNumber,
}

impl A3028StateUpdatePacket {
    pub open spec fn spec_state(&self) -> DeviceStateView {
        DeviceStateView {
            device_profile: spec_profile_for(DeviceModel::A3028),
            battery: Battery::Single(self.battery),
            equalizer_configuration: self.equalizer_configuration@,
            sound_modes: Some(self.sound_modes),
            age_range: Some(self.age_range),
            gender: Some(self.gender),
            hear_id: Some(self.hear_id@),
            custom_button_model: None,
            firmware_version: Some(self.firmware_version),
            serial_number: Some(self.serial_number@),
            ambient_sound_mode_cycle: None,
            wear_detection: None,
        }
    }

    /// Reads the sixty-byte A3028 layout.
    pub fn take(b: &[u8]) -> (r: Option<A3028StateUpdatePacket>)
        ensures
            r matches Some(p) ==> spec_parse_a3028(b@) == Some(p.spec_state()),
            r is None ==> spec_parse_a3028(b@) is None,
    {
        if b.len() != A3028_STATE_UPDATE_LEN {
            return None;
        }
        let battery = SingleBattery::take(slice_subrange(b, 0, 2));
        let eq = EqualizerConfiguration::take(slice_subrange(b, 2, 12), STANDARD_EQUALIZER_BANDS);
        let hear_id = HearId::take(slice_subrange(b, 14, 35));
        let sound_modes = SoundModes::take(slice_subrange(b, 35, 39));
        let fw = FirmwareVersion::take(slice_subrange(b, 39, 44));
        let sn = SerialNumber::take(slice_subrange(b, 44, 60));
        match (battery, eq, hear_id, sound_modes, fw, sn) {
            (Some(battery), Some(eq), Some(hear_id), Some(sound_modes), Some(fw), Some(sn)) => {
                Some(
                    A3028StateUpdatePacket {
                        battery,
                        equalizer_configuration: eq,
                        gender: Gender(b[12]),
                        age_range: AgeRange(b[13]),
                        hear_id,
                        sound_modes,
                        firmware_version: fw,
                        serial_number: sn,
                    },
                )
            },
            _ => None,
        }
    }

    pub fn into_device_state(self) -> (r: DeviceState)
        ensures
            r@ == self.spec_state(),
    {
        DeviceState {
            device_profile: profile_for(DeviceModel::A3028),
            battery: Battery::Single(self.battery),
            equalizer_configuration: self.equalizer_configuration,
            sound_modes: Some(self.sound_modes),
            age_range: Some(self.age_range),
            gender: Some(self.gender),
            hear_id: Some(self.hear_id),
            custom_button_model: None,
            firmware_version: Some(self.firmware_version),
            serial_number: Some(self.serial_number),
            ambient_sound_mode_cycle: None,
            wear_detection: None,
        }
    }
}

/// A state update of an A3033.
#[derive(Clone, Debug, PartialEq, Eq)]
pub struct A3033StateUpdatePacket {
    pub battery: SingleBattery,
    pub equalizer_configuration: EqualizerConfiguration,
    pub firmware_version: FirmwareVersion,
    pub serial_number: SerialNumber,
    pub wear_detection: bool,
}

impl A3033StateUpdatePacket {
    pub open spec fn spec_state(&self) -> DeviceStateView {
        DeviceStateView {
            device_profile: spec_profile_for(DeviceModel::A3033),
            battery: Battery::Single(self.battery),
            equalizer_configuration: self.equalizer_configuration@,
            sound_modes: None,
            age_range: None,
            gender: None,
            hear_id: None,
            custom_button_model: None,
            firmware_version: Some(self.firmware_version),
            serial_number: Some(self.serial_number@),
            ambient_sound_mode_cycle: None,
            wear_detection: Some(self.wear_detection),
        }
    }

    /// Reads the thirty-four-byte A3033 layout.
    pub fn take(b: &[u8]) -> (r: Option<A3033StateUpdatePacket>)
        ensures
            r matches Some(p) ==> spec_parse_a3033(b@) == Some(p.spec_state()),
            r is None ==> spec_parse_a3033(b@) is None,
    {
        if b.len() != A3033_STATE_UPDATE_LEN {
            return None;
        }
        let battery = SingleBattery::take(slice_subrange(b, 0, 2));
        let eq = EqualizerConfiguration::take(slice_subrange(b, 2, 12), STANDARD_EQUALIZER_BANDS);
        let fw = FirmwareVersion::take(slice_subrange(b, 12, 17));
        let sn = SerialNumber::take(slice_subrange(b, 17, 33));
        let wear = take_flag(b[33]);
        match (battery, eq, fw, sn, wear) {
            (Some(battery), Some(eq), Some(fw), Some(sn), Some(wear)) => Some(
                A3033StateUpdatePacket {
                    battery,
                    equalizer_configuration: eq,
                    firmware_version: fw,
                    serial_number: sn,
                    wear_detection: wear,
                },
            ),
            _ => None,
        }
    }

    pub fn into_device_state(self) -> (r: DeviceState)
        ensures
            r@ == self.spec_state(),
    {
        DeviceState {
            device_profile: profile_for(DeviceModel::A3033),
            battery: Battery::Single(self.battery),
            equalizer_configuration: self.equalizer_configuration,
            sound_modes: None,
            age_range: None,
            gender: None,
            hear_id: None,
            custom_button_model: None,
            firmware_version: Some(self.firmware_version),
            serial_number: Some(self.serial_number),
            ambient_sound_mode_cycle: None,
            wear_detection: Some(self.wear_detection),
        }
    }
}

/// A full snapshot of the device state.
#[derive(Clone, Debug, PartialEq, Eq)]
pub struct StateUpdatePacket {
    pub snapshot: DeviceState,
}

impl StateUpdatePacket {
    /// Reads a state update body in the layout of the model its length
    /// belongs to.
    pub fn take(b: &[u8]) -> (r: Option<StateUpdatePacket>)
        ensures
            r matches Some(p) ==> spec_parse_state_update(b@) == Some(p.snapshot@),
            r is None ==> spec_parse_state_update(b@) is None,
    {
        if b.len() == A3028_STATE_UPDATE_LEN {
            match A3028StateUpdatePacket::take(b) {
                Some(p) => Some(StateUpdatePacket { snapshot: p.into_device_state() }),
                None => None,
            }
        } else {
            match A3033StateUpdatePacket::take(b) {
                Some(p) => Some(StateUpdatePacket { snapshot: p.into_device_state() }),
                None => None,
            }
        }
    }
}

/// The sound modes the device switched to.
#[derive(Clone, Copy, Debug, PartialEq, Eq, Hash, Structural)]
pub struct SoundModeUpdatePacket {
    pub sound_modes: SoundModes,
}

/// Firmware versions of both earbuds and the serial number.
#[derive(Clone, Debug, PartialEq, Eq, Hash)]
pub struct FirmwareVersionUpdatePacket {
    pub left_firmware_version: FirmwareVersion,
    pub right_firmware_version: FirmwareVersion,
    pub serial_number: SerialNumber,
}

pub open spec fn spec_parse_firmware_version_update(b: Seq<u8>) -> Option<
    (FirmwareVersion, FirmwareVersion, Seq<char>),
> {
    if b.len() != FIRMWARE_VERSION_UPDATE_LEN {
        None
    } else {
        match (
            FirmwareVersion::spec_parse(b.subrange(0, 5)),
            FirmwareVersion::spec_parse(b.subrange(5, 10)),
            SerialNumber::spec_parse(b.subrange(10, 26)),
        ) {
            (Some(l), Some(r), Some(s)) => Some((l, r, s)),
            _ => None,
        }
    }
}

/// Reads left firmware version, right firmware version and serial number.
pub fn take_firmware_version_update_packet(b: &[u8]) -> (r: Option<FirmwareVersionUpdatePacket>)
    ensures
        r matches Some(p) ==> spec_parse_firmware_version_update(b@) == Some(
            (p.left_firmware_version, p.right_firmware_version, p.serial_number@),
        ),
        r is None ==> spec_parse_firmware_version_update(b@) is None,
{
    if b.len() != FIRMWARE_VERSION_UPDATE_LEN {
        return None;
    }
    let left = FirmwareVersion::take(slice_subrange(b, 0, 5));
    let right = FirmwareVersion::take(slice_subrange(b, 5, 10));
    let sn = SerialNumber::take(slice_subrange(b, 10, 26));
    match (left, right, sn) {
        (Some(l), Some(r), Some(s)) => Some(
            FirmwareVersionUpdatePacket {
                left_firmware_version: l,
                right_firmware_version: r,
                serial_number: s,
            },
        ),
        _ => None,
    }
}

/// Charging flags of the left and right earbud.
#[derive(Clone, Copy, Debug, PartialEq, Eq, Hash, Structural)]
pub struct BatteryChargingUpdatePacket {
    pub left: IsBatteryCharging,
    pub right: IsBatteryCharging,
}

pub open spec fn spec_parse_battery_charging_update(b: Seq<u8>) -> Option<
    BatteryChargingUpdatePacket,
> {
    if b.len() != 2 {
        None
    } else {
        match (IsBatteryCharging::spec_from_byte(b[0]), IsBatteryCharging::spec_from_byte(b[1])) {
            (Some(left), Some(right)) => Some(BatteryChargingUpdatePacket { left, right }),
            _ => None,
        }
    }
}

/// Reads the left and then the right charging flag.
pub fn take_battery_charging_update_packet(b: &[u8]) -> (r: Option<BatteryChargingUpdatePacket>)
    ensures
        r == spec_parse_battery_charging_update(b@),
{
    if b.len() != 2 {
        return None;
    }
    match (IsBatteryCharging::from_byte(b[0]), IsBatteryCharging::from_byte(b[1])) {
        (Some(left), Some(right)) => Some(BatteryChargingUpdatePacket { left, right }),
        _ => None,
    }
}

/// Which earbud is the host, and whether both earbuds are connected.
#[derive(Clone, Copy, Debug, PartialEq, Eq, Hash, Structural)]
pub struct TwsStatusUpdatePacket {
    pub host_device: u8,
    pub tws_status: bool,
}

impl TwsStatusUpdatePacket {
    pub open spec fn spec_parse(b: Seq<u8>) -> Option<TwsStatusUpdatePacket> {
        if b.len() != 2 {
            None
        } else {
            match spec_flag(b[1]) {
                Some(tws_status) => Some(TwsStatusUpdatePacket { host_device: b[0], tws_status }),
                None => None,
            }
        }
    }

    /// Reads the host device byte and the status flag.
    pub fn take(b: &[u8]) -> (r: Option<TwsStatusUpdatePacket>)
        ensures
            r == Self::spec_parse(b@),
    {
        if b.len() != 2 {
            return None;
        }
        match take_flag(b[1]) {
            Some(tws_status) => Some(TwsStatusUpdatePacket { host_device: b[0], tws_status }),
            None => None,
        }
    }
}

/// A packet that the device sends.
#[derive(Clone, Debug, PartialEq, Eq)]
pub enum InboundPacket {
    StateUpdate(StateUpdatePacket),
    SoundModeUpdate(SoundModeUpdatePacket),
    FirmwareVersionUpdate(FirmwareVersionUpdatePacket),
    BatteryChargingUpdate(BatteryChargingUpdatePacket),
    SetSoundModeOk,
    SetEqualizerOk,
}

/// An inbound packet as plain values.
pub enum InboundPacketView {
    StateUpdate(DeviceStateView),
    SoundModeUpdate(SoundModes),
    FirmwareVersionUpdate(FirmwareVersion, FirmwareVersion, Seq<char>),
    BatteryChargingUpdate(IsBatteryCharging, IsBatteryCharging),
    SetSoundModeOk,
    SetEqualizerOk,
}

impl View for InboundPacket {
    type V = InboundPacketView;

    open spec fn view(&self) -> InboundPacketView {
        match self {
            InboundPacket::StateUpdate(p) => InboundPacketView::StateUpdate(p.snapshot@),
            InboundPacket::SoundModeUpdate(p) => InboundPacketView::SoundModeUpdate(p.sound_modes),
            InboundPacket::FirmwareVersionUpdate(p) => InboundPacketView::FirmwareVersionUpdate(
                p.left_firmware_version,
                p.right_firmware_version,
                p.serial_number@,
            ),
            InboundPacket::BatteryChargingUpdate(p) => InboundPacketView::BatteryChargingUpdate(
                p.left,
                p.right,
            ),
            InboundPacket::SetSoundModeOk => InboundPacketView::SetSoundModeOk,
            InboundPacket::SetEqualizerOk => InboundPacketView::SetEqualizerOk,
        }
    }
}

/// The packet that `body` stands for under `command`.
pub open spec fn spec_parse_body(command: Seq<u8>, body: Seq<u8>) -> Result<
    InboundPacketView,
    ParseFailure,
> {
    if command == STATE_UPDATE@ {
        match spec_parse_state_update(body) {
            Some(s) => Ok(InboundPacketView::StateUpdate(s)),
            None => Err(ParseFailure::MalformedBody),
        }
    } else if command == SOUND_MODE_UPDATE@ {
        match SoundModes::spec_parse(body) {
            Some(m) => Ok(InboundPacketView::SoundModeUpdate(m)),
            None => Err(ParseFailure::MalformedBody),
        }
    } else if command == FIRMWARE_VERSION_UPDATE@ {
        match spec_parse_firmware_version_update(body) {
            Some((l, r, s)) => Ok(InboundPacketView::FirmwareVersionUpdate(l, r, s)),
            None => Err(ParseFailure::MalformedBody),
        }
    } else if command == BATTERY_CHARGING_UPDATE@ {
        match spec_parse_battery_charging_update(body) {
            Some(p) => Ok(InboundPacketView::BatteryChargingUpdate(p.left, p.right)),
            None => Err(ParseFailure::MalformedBody),
        }
    } else if command == SET_SOUND_MODE_OK@ {
        Ok(InboundPacketView::SetSoundModeOk)
    } else if command == SET_EQUALIZER_OK@ {
        Ok(InboundPacketView::SetEqualizerOk)
    } else {
        Err(ParseFailure::UnknownCommand)
    }
}

/// The packet that a whole frame stands for.
pub open spec fn spec_parse_inbound(bytes: Seq<u8>) -> Result<InboundPacketView, ParseFailure> {
    match spec_parse_frame(bytes) {
        Ok((command, body)) => spec_parse_body(command, body),
        Err(e) => Err(e),
    }
}

impl InboundPacketView {
    /// A state snapshot in it keeps the invariants of a device state, and
    /// sound modes in it are well formed.
    pub open spec fn wf(self) -> bool {
        &&& (self matches InboundPacketView::StateUpdate(s) ==> s.wf())
        &&& (self matches InboundPacketView::SoundModeUpdate(m) ==> m.wf())
    }
}

/// Whatever a state update body parses to keeps the state invariants.
pub proof fn lemma_parsed_state_wf(b: Seq<u8>)
    ensures
        spec_parse_state_update(b) matches Some(s) ==> s.wf(),
{
    if b.len() == A3028_STATE_UPDATE_LEN {
        lemma_parsed_bands_in_range(b.subrange(2, 12).subrange(2, 10));
        lemma_parsed_bands_in_range(b.subrange(14, 35).subrange(1, 9));
        lemma_parsed_bands_in_range(b.subrange(14, 35).subrange(9, 17));
    } else {
        lemma_parsed_bands_in_range(b.subrange(2, 12).subrange(2, 10));
    }
}

impl InboundPacket {
    /// Reads one frame: checks its length and checksum, then reads the body
    /// that its command calls for.
    pub fn new(bytes: &[u8]) -> (r: Result<InboundPacket, TryIntoInboundPacketError>)
        ensures
            match r {
                Ok(p) => spec_parse_inbound(bytes@) == Ok::<_, ParseFailure>(p@) && p@.wf(),
                Err(e) => spec_parse_inbound(bytes@) == Err::<InboundPacketView, _>(e.reason),
            },
    {
        let packet = match parse_frame(bytes) {
            Ok(p) => p,
            Err(e) => return Err(e),
        };
        let body = packet.body.as_slice();
        let malformed = TryIntoInboundPacketError { reason: ParseFailure::MalformedBody };
        if same_command(&packet.command, &STATE_UPDATE) {
            proof {
                lemma_parsed_state_wf(body@);
            }
            match StateUpdatePacket::take(body) {
                Some(p) => Ok(InboundPacket::StateUpdate(p)),
                None => Err(malformed),
            }
        } else if same_command(&packet.command, &SOUND_MODE_UPDATE) {
            match SoundModes::take(body) {
                Some(m) => Ok(
                    InboundPacket::SoundModeUpdate(SoundModeUpdatePacket { sound_modes: m }),
                ),
                None => Err(malformed),
            }
        } else if same_command(&packet.command, &FIRMWARE_VERSION_UPDATE) {
            match take_firmware_version_update_packet(body) {
                Some(p) => Ok(InboundPacket::FirmwareVersionUpdate(p)),
                None => Err(malformed),
            }
        } else if same_command(&packet.command, &BATTERY_CHARGING_UPDATE) {
            match take_battery_charging_update_packet(body) {
                Some(p) => Ok(InboundPacket::BatteryChargingUpdate(p)),
                None => Err(malformed),
            }
        } else if same_command(&packet.command, &SET_SOUND_MODE_OK) {
            Ok(InboundPacket::SetSoundModeOk)
        } else if same_command(&packet.command, &SET_EQUALIZER_OK) {
            Ok(InboundPacket::SetEqualizerOk)
        } else {
            Err(TryIntoInboundPacketError { reason: ParseFailure::UnknownCommand })
        }
    }
}

} // verus!
