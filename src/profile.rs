use vstd::prelude::*;

verus! {

/// How a profile turns a sound mode change into packets.
#[derive(Clone, Copy, Debug, PartialEq, Eq, Hash, Structural)]
pub enum SoundModesDispatcher {
    /// One packet with the new sound modes.
    Standard,
    /// Devices that ignore other settings while the ambient mode changes:
    /// first a packet that changes the ambient mode alone, then one with the
    /// full new sound modes.
    AmbientModeFirst,
}

/// What one hardware model supports.
#[derive(Clone, Copy, Debug, PartialEq, Eq, Hash, Structural)]
pub struct DeviceProfile {
    pub has_sound_modes: bool,
    pub has_hear_id: bool,
    pub has_custom_button_model: bool,
    pub has_wear_detection: bool,
    pub num_equalizer_channels: u8,
    pub num_equalizer_bands: usize,
    pub sound_modes_dispatcher: SoundModesDispatcher,
}

/// The hardware models this library knows.
#[derive(Clone, Copy, Debug, PartialEq, Eq, Hash, Structural)]
pub enum DeviceModel {
    /// Over-ear headphones with noise canceling and hearing calibration.
    A3028,
    /// Over-ear headphones with equalizer and wear detection only.
    A3033,
}

/// Most equalizer bands a profile may declare.
pub const MAX_EQUALIZER_BANDS: usize = 64;

/// Bands of the equalizer of every known model.
pub const STANDARD_EQUALIZER_BANDS: usize = 8;

impl DeviceProfile {
    pub open spec fn wf(self) -> bool {
        self.num_equalizer_bands <= MAX_EQUALIZER_BANDS
    }
}

pub open spec fn spec_profile_for(model: DeviceModel) -> DeviceProfile {
    match model {
        DeviceModel::A3028 => DeviceProfile {
            has_sound_modes: true,
            has_hear_id: true,
            has_custom_button_model: false,
            has_wear_detection: false,
            num_equalizer_channels: 1,
            num_equalizer_bands: STANDARD_EQUALIZER_BANDS,
            sound_modes_dispatcher: SoundModesDispatcher::Standard,
        },
        DeviceModel::A3033 => DeviceProfile {
            has_sound_modes: false,
            has_hear_id: false,
            has_custom_button_model: false,
            has_wear_detection: true,
            num_equalizer_channels: 1,
            num_equalizer_bands: STANDARD_EQUALIZER_BANDS,
            sound_modes_dispatcher: SoundModesDispatcher::Standard,
        },
    }
}

/// The capabilities of `model`.
pub fn profile_for(model: DeviceModel) -> (r: DeviceProfile)
    ensures
        r == spec_profile_for(model),
{
    match model {
        DeviceModel::A3028 => DeviceProfile {
            has_sound_modes: true,
            has_hear_id: true,
            has_custom_button_model: false,
            has_wear_detection: false,
            num_equalizer_channels: 1,
            num_equalizer_bands: STANDARD_EQUALIZER_BANDS,
            sound_modes_dispatcher: SoundModesDispatcher::Standard,
        },
        DeviceModel::A3033 => DeviceProfile {
            has_sound_modes: false,
            has_hear_id: false,
            has_custom_button_model: false,
            has_wear_detection: true,
            num_equalizer_channels: 1,
            num_equalizer_bands: STANDARD_EQUALIZER_BANDS,
            sound_modes_dispatcher: SoundModesDispatcher::Standard,
        },
    }
}

} // verus!
