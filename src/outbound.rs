use vstd::prelude::*;

use crate::equalizer::{EqualizerConfiguration, HearId, VolumeAdjustments};
use crate::frame::{
    carries_checksum, encode_frame, spec_frame, MAX_FRAME_LEN, MIN_FRAME_LEN,
    REQUEST_FIRMWARE_VERSION, REQUEST_STATE, SET_CUSTOM_BUTTON_MODEL, SET_EQUALIZER, SET_HEAR_ID,
    SET_SOUND_MODE,
};
use crate::profile::MAX_EQUALIZER_BANDS;
use crate::structures::{CustomButtonModel, SoundModes};

verus! {

/// A packet sent to the device: a command and a body, framed with length and
/// checksum.
pub trait OutboundPacket {
    spec fn spec_command(&self) -> Seq<u8>;

    spec fn spec_body(&self) -> Seq<u8>;

    /// The packet's values are valid and its frame fits the length field.
    spec fn wf(&self) -> bool;

    fn command(&self) -> (r: [u8; 7])
        ensures
            r@ == self.spec_command(),
    ;

    fn body(&self) -> (r: Vec<u8>)
        requires
            self.wf(),
        ensures
            r@ == self.spec_body(),
            r@.len() + MIN_FRAME_LEN <= MAX_FRAME_LEN,
    ;

    /// The whole frame.
    fn bytes(&self) -> (r: Vec<u8>)
        requires
            self.wf(),
        ensures
            r@ == spec_frame(self.spec_command(), self.spec_body()),
            carries_checksum(r@),
    {
        let command = self.command();
        let body = self.body();
        encode_frame(&command, body.as_slice())
    }
}

/// Asks the device for a full state update.
#[derive(Clone, Copy, Debug, PartialEq, Eq, Hash, Structural)]
pub struct RequestStatePacket {}

impl RequestStatePacket {
    pub fn new() -> (r: RequestStatePacket) {
        RequestStatePacket {  }
    }
}

impl OutboundPacket for RequestStatePacket {
    open spec fn spec_command(&self) -> Seq<u8> {
        REQUEST_STATE@
    }

    open spec fn spec_body(&self) -> Seq<u8> {
        Seq::empty()
    }

    open spec fn wf(&self) -> bool {
        true
    }

    fn command(&self) -> (r: [u8; 7]) {
        REQUEST_STATE
    }

    fn body(&self) -> (r: Vec<u8>) {
        Vec::new()
    }
}

/// Asks the device for its firmware versions and serial number.
#[derive(Clone, Copy, Debug, PartialEq, Eq, Hash, Structural)]
pub struct RequestFirmwareVersionPacket {}

impl RequestFirmwareVersionPacket {
    pub fn new() -> (r: RequestFirmwareVersionPacket) {
        RequestFirmwareVersionPacket {  }
    }
}

impl OutboundPacket for RequestFirmwareVersionPacket {
    open spec fn spec_command(&self) -> Seq<u8> {
        REQUEST_FIRMWARE_VERSION@
    }

    open spec fn spec_body(&self) -> Seq<u8> {
        Seq::empty()
    }

    open spec fn wf(&self) -> bool {
        true
    }

    fn command(&self) -> (r: [u8; 7]) {
        REQUEST_FIRMWARE_VERSION
    }

    fn body(&self) -> (r: Vec<u8>) {
        Vec::new()
    }
}

/// Sets the sound modes.
#[derive(Clone, Copy, Debug, PartialEq, Eq, Hash, Structural)]
pub struct SetSoundModePacket {
    pub sound_modes: SoundModes,
}

impl OutboundPacket for SetSoundModePacket {
    open spec fn spec_command(&self) -> Seq<u8> {
        SET_SOUND_MODE@
    }

    open spec fn spec_body(&self) -> Seq<u8> {
        self.sound_modes.spec_bytes()
    }

    open spec fn wf(&self) -> bool {
        self.sound_modes.wf()
    }

    fn command(&self) -> (r: [u8; 7]) {
        SET_SOUND_MODE
    }

    fn body(&self) -> (r: Vec<u8>) {
        self.sound_modes.bytes()
    }
}

/// Sets the equalizer: the profile id and the left channel's bands, followed
/// by the right channel's bands on devices with two channels.
#[derive(Clone, Debug, PartialEq, Eq, Hash)]
pub struct SetEqualizerPacket {
    pub configuration: EqualizerConfiguration,
    pub right_volume_adjustments: Option<VolumeAdjustments>,
}

impl SetEqualizerPacket {
    /// Takes the profile id from the left configuration and the right
    /// channel's bands from the right one.
    pub fn new(
        left_configuration: EqualizerConfiguration,
        right_configuration: Option<EqualizerConfiguration>,
    ) -> (r: SetEqualizerPacket)
        ensures
            r.configuration == left_configuration,
            match right_configuration {
                Some(c) => r.right_volume_adjustments == Some(c.volume_adjustments),
                None => r.right_volume_adjustments is None,
            },
    {
        SetEqualizerPacket {
            configuration: left_configuration,
            right_volume_adjustments: match right_configuration {
                Some(c) => Some(c.volume_adjustments),
                None => None,
            },
        }
    }
}

impl OutboundPacket for SetEqualizerPacket {
    open spec fn spec_command(&self) -> Seq<u8> {
        SET_EQUALIZER@
    }

    open spec fn spec_body(&self) -> Seq<u8> {
        match self.right_volume_adjustments {
            Some(right) => self.configuration.spec_bytes() + right.spec_bytes(),
            None => self.configuration.spec_bytes(),
        }
    }

    open spec fn wf(&self) -> bool {
        &&& self.configuration.wf()
        &&& self.configuration.volume_adjustments@.len() <= MAX_EQUALIZER_BANDS
        &&& (self.right_volume_adjustments matches Some(right) ==> right.wf() && right@.len()
            <= MAX_EQUALIZER_BANDS)
    }

    fn command(&self) -> (r: [u8; 7]) {
        SET_EQUALIZER
    }

    fn body(&self) -> (r: Vec<u8>) {
        let mut r = self.configuration.bytes();
        match &self.right_volume_adjustments {
            Some(right) => {
                let mut b = right.bytes();
                r.append(&mut b);
            },
            None => {},
        }
        r
    }
}

/// Sets the hearing calibration.
#[derive(Clone, Debug, PartialEq, Eq, Hash)]
pub struct SetHearIdPacket {
    pub hear_id: HearId,
}

impl OutboundPacket for SetHearIdPacket {
    open spec fn spec_command(&self) -> Seq<u8> {
        SET_HEAR_ID@
    }

    open spec fn spec_body(&self) -> Seq<u8> {
        self.hear_id.spec_bytes()
    }

    open spec fn wf(&self) -> bool {
        self.hear_id.wf()
    }

    fn command(&self) -> (r: [u8; 7]) {
        SET_HEAR_ID
    }

    fn body(&self) -> (r: Vec<u8>) {
        self.hear_id.bytes()
    }
}

/// Sets the button actions.
#[derive(Clone, Copy, Debug, PartialEq, Eq, Hash, Structural)]
pub struct SetCustomButtonModelPacket {
    pub custom_button_model: CustomButtonModel,
}

impl OutboundPacket for SetCustomButtonModelPacket {
    open spec fn spec_command(&self) -> Seq<u8> {
        SET_CUSTOM_BUTTON_MODEL@
    }

    open spec fn spec_body(&self) -> Seq<u8> {
        self.custom_button_model.spec_bytes()
    }

    open spec fn wf(&self) -> bool {
        true
    }

    fn command(&self) -> (r: [u8; 7]) {
        SET_CUSTOM_BUTTON_MODEL
    }

    fn body(&self) -> (r: Vec<u8>) {
        self.custom_button_model.bytes()
    }
}

} // verus!
