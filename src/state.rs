use vstd::prelude::*;

use crate::equalizer::{bands_in_range, EqualizerConfiguration, HearId, HEAR_ID_BANDS};
use crate::profile::DeviceProfile;
use crate::structures::{
    AgeRange, AmbientSoundModeCycle, Battery, CustomButtonModel, FirmwareVersion, Gender,
    SerialNumber, SoundModes,
};

verus! {

/// The known state of a connected device.
#[derive(Clone, Debug, PartialEq, Eq)]
pub struct DeviceState {
    pub device_profile: DeviceProfile,
    pub battery: Battery,
    pub equalizer_configuration: EqualizerConfiguration,
    pub sound_modes: Option<SoundModes>,
    pub age_range: Option<AgeRange>,
    pub gender: Option<Gender>,
    pub hear_id: Option<HearId>,
    pub custom_button_model: Option<CustomButtonModel>,
    pub firmware_version: Option<FirmwareVersion>,
    pub serial_number: Option<SerialNumber>,
    pub ambient_sound_mode_cycle: Option<AmbientSoundModeCycle>,
    pub wear_detection: Option<bool>,
}

/// A hearing calibration as plain values: enabled flag, left bands, right
/// bands, time.
pub type HearIdView = (bool, Seq<i16>, Seq<i16>, u32);

/// The device state as plain values.
pub struct DeviceStateView {
    pub device_profile: DeviceProfile,
    pub battery: Battery,
    pub equalizer_configuration: (u16, Seq<i16>),
    pub sound_modes: Option<SoundModes>,
    pub age_range: Option<AgeRange>,
    pub gender: Option<Gender>,
    pub hear_id: Option<HearIdView>,
    pub custom_button_model: Option<CustomButtonModel>,
    pub firmware_version: Option<FirmwareVersion>,
    pub serial_number: Option<Seq<char>>,
    pub ambient_sound_mode_cycle: Option<AmbientSoundModeCycle>,
    pub wear_detection: Option<bool>,
}

pub open spec fn hear_id_view(h: Option<HearId>) -> Option<HearIdView> {
    match h {
        Some(h) => Some(h@),
        None => None,
    }
}

pub open spec fn serial_number_view(s: Option<SerialNumber>) -> Option<Seq<char>> {
    match s {
        Some(s) => Some(s@),
        None => None,
    }
}

pub open spec fn hear_id_view_wf(h: HearIdView) -> bool {
    &&& h.1.len() == HEAR_ID_BANDS
    &&& h.2.len() == HEAR_ID_BANDS
    &&& bands_in_range(h.1)
    &&& bands_in_range(h.2)
}

impl DeviceStateView {
    /// The equalizer has as many bands as the profile declares, and a setting
    /// that the profile lacks is never present.
    pub open spec fn wf(self) -> bool {
        &&& self.device_profile.wf()
        &&& self.equalizer_configuration.1.len() == self.device_profile.num_equalizer_bands
        &&& bands_in_range(self.equalizer_configuration.1)
        &&& (self.sound_modes matches Some(m) ==> self.device_profile.has_sound_modes && m.wf())
        &&& (self.hear_id matches Some(h) ==> self.device_profile.has_hear_id && hear_id_view_wf(
            h,
        ))
        &&& (self.custom_button_model is Some ==> self.device_profile.has_custom_button_model)
        &&& (self.wear_detection is Some ==> self.device_profile.has_wear_detection)
    }
}

impl View for DeviceState {
    type V = DeviceStateView;

    open spec fn view(&self) -> DeviceStateView {
        DeviceStateView {
            device_profile: self.device_profile,
            battery: self.battery,
            equalizer_configuration: self.equalizer_configuration@,
            sound_modes: self.sound_modes,
            age_range: self.age_range,
            gender: self.gender,
            hear_id: hear_id_view(self.hear_id),
            custom_button_model: self.custom_button_model,
            firmware_version: self.firmware_version,
            serial_number: serial_number_view(self.serial_number),
            ambient_sound_mode_cycle: self.ambient_sound_mode_cycle,
            wear_detection: self.wear_detection,
        }
    }
}

impl DeviceState {
    pub open spec fn wf(&self) -> bool {
        self@.wf()
    }

    pub fn duplicate(&self) -> (r: DeviceState)
        ensures
            r@ == self@,
    {
        let hear_id = match &self.hear_id {
            Some(h) => Some(h.duplicate()),
            None => None,
        };
        let serial_number = match &self.serial_number {
            Some(s) => Some(s.duplicate()),
            None => None,
        };
        DeviceState {
            device_profile: self.device_profile,
            battery: self.battery,
            equalizer_configuration: self.equalizer_configuration.duplicate(),
            sound_modes: self.sound_modes,
            age_range: self.age_range,
            gender: self.gender,
            hear_id,
            custom_button_model: self.custom_button_model,
            firmware_version: self.firmware_version,
            serial_number,
            ambient_sound_mode_cycle: self.ambient_sound_mode_cycle,
            wear_detection: self.wear_detection,
        }
    }

    /// Compares every field.
    pub fn same_as(&self, other: &DeviceState) -> (r: bool)
        ensures
            r == (self@ == other@),
    {
        let hear_id_same = match (&self.hear_id, &other.hear_id) {
            (Some(a), Some(b)) => a.same_as(b),
            (None, None) => true,
            _ => false,
        };
        let serial_same = match (&self.serial_number, &other.serial_number) {
            (Some(a), Some(b)) => a.0 == b.0,
            (None, None) => true,
            _ => false,
        };
        self.device_profile == other.device_profile && self.battery == other.battery
            && self.equalizer_configuration.same_as(&other.equalizer_configuration)
            && self.sound_modes == other.sound_modes && self.age_range == other.age_range
            && self.gender == other.gender && hear_id_same && self.custom_button_model
            == other.custom_button_model && self.firmware_version == other.firmware_version
            && serial_same && self.ambient_sound_mode_cycle == other.ambient_sound_mode_cycle
            && self.wear_detection == other.wear_detection
    }
}

} // verus!
