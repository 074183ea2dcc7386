use vstd::prelude::*;

use crate::equalizer::{bands_bytes, hear_id_bytes, u16_le_bytes, EqualizerConfiguration, HearId};
use crate::frame::{spec_frame, SET_CUSTOM_BUTTON_MODEL, SET_EQUALIZER, SET_HEAR_ID, SET_SOUND_MODE};
use crate::outbound::{
    OutboundPacket, SetCustomButtonModelPacket, SetEqualizerPacket, SetHearIdPacket,
    SetSoundModePacket,
};
use crate::profile::{DeviceProfile, SoundModesDispatcher, MAX_EQUALIZER_BANDS};
use crate::state::{DeviceState, DeviceStateView};
use crate::structures::{CustomButtonModel, SoundModes};

verus! {

/// Frames to send and the state to adopt once they are written.
pub struct CommandResponse {
    pub packets: Vec<Vec<u8>>,
    pub new_state: DeviceState,
}

/// A command response as plain values.
pub struct CommandPlan {
    pub packets: Seq<Seq<u8>>,
    pub new_state: DeviceStateView,
}

/// The bytes of each frame.
pub open spec fn packets_view(packets: Seq<Vec<u8>>) -> Seq<Seq<u8>> {
    packets.map_values(|p: Vec<u8>| p@)
}

impl View for CommandResponse {
    type V = CommandPlan;

    open spec fn view(&self) -> CommandPlan {
        CommandPlan { packets: packets_view(self.packets@), new_state: self.new_state@ }
    }
}

/// Frames that change the sound modes from `prev` to `next`.
pub open spec fn spec_sound_mode_packets(
    dispatcher: SoundModesDispatcher,
    prev: SoundModes,
    next: SoundModes,
) -> Seq<Seq<u8>> {
    let intermediate = SoundModes { ambient_sound_mode: next.ambient_sound_mode, ..prev };
    match dispatcher {
        SoundModesDispatcher::AmbientModeFirst => if prev.ambient_sound_mode
            != next.ambient_sound_mode && intermediate != next {
            seq![
                spec_frame(SET_SOUND_MODE@, intermediate.spec_bytes()),
                spec_frame(SET_SOUND_MODE@, next.spec_bytes()),
            ]
        } else {
            seq![spec_frame(SET_SOUND_MODE@, next.spec_bytes())]
        },
        SoundModesDispatcher::Standard => seq![spec_frame(SET_SOUND_MODE@, next.spec_bytes())],
    }
}

/// Body of a set-equalizer packet: profile id and bands, with the bands
/// repeated for the right channel on two-channel devices.
pub open spec fn spec_equalizer_body(channels: u8, c: (u16, Seq<i16>)) -> Seq<u8> {
    if channels >= 2 {
        u16_le_bytes(c.0) + bands_bytes(c.1) + bands_bytes(c.1)
    } else {
        u16_le_bytes(c.0) + bands_bytes(c.1)
    }
}

/// The operations whose packets a profile decides.
#[derive(Clone, Copy, Debug, PartialEq, Eq, Hash, Structural)]
pub struct Dispatcher {
    pub sound_modes: SoundModesDispatcher,
}

/// The dispatcher that `profile` calls for.
pub fn dispatcher_for(profile: &DeviceProfile) -> (r: Dispatcher)
    ensures
        r.sound_modes == profile.sound_modes_dispatcher,
{
    Dispatcher { sound_modes: profile.sound_modes_dispatcher }
}

impl Dispatcher {
    /// Frames that change the sound modes from `prev` to `next`, and the
    /// state with `next` in it.
    pub fn build_sound_modes_command(
        &self,
        state: &DeviceState,
        prev: SoundModes,
        next: SoundModes,
    ) -> (r: CommandResponse)
        requires
            prev.wf(),
            next.wf(),
        ensures
            r@.packets == spec_sound_mode_packets(self.sound_modes, prev, next),
            r@.new_state == (DeviceStateView { sound_modes: Some(next), ..state@ }),
    {
        let mut new_state = state.duplicate();
        new_state.sound_modes = Some(next);
        let last = SetSoundModePacket { sound_modes: next }.bytes();
        let intermediate = SoundModes { ambient_sound_mode: next.ambient_sound_mode, ..prev };
        let packets = match self.sound_modes {
            SoundModesDispatcher::AmbientModeFirst => {
                if prev.ambient_sound_mode != next.ambient_sound_mode && intermediate != next {
                    let first = SetSoundModePacket { sound_modes: intermediate }.bytes();
                    vec![first, last]
                } else {
                    vec![last]
                }
            },
            SoundModesDispatcher::Standard => vec![last],
        };
        let r = CommandResponse { packets, new_state };
        assert(r@.packets =~= spec_sound_mode_packets(self.sound_modes, prev, next));
        r
    }

    /// One set-equalizer frame for the profile's channels, and the state with
    /// the new configuration.
    pub fn build_equalizer_command(
        &self,
        state: &DeviceState,
        configuration: &EqualizerConfiguration,
    ) -> (r: CommandResponse)
        requires
            configuration.wf(),
            configuration.volume_adjustments@.len() <= MAX_EQUALIZER_BANDS,
        ensures
            r@.packets == seq![
                spec_frame(
                    SET_EQUALIZER@,
                    spec_equalizer_body(state.device_profile.num_equalizer_channels, configuration@),
                ),
            ],
            r@.new_state == (DeviceStateView { equalizer_configuration: configuration@, ..state@ }),
    {
        let mut new_state = state.duplicate();
        new_state.equalizer_configuration = configuration.duplicate();
        let right = if state.device_profile.num_equalizer_channels >= 2 {
            Some(configuration.volume_adjustments.duplicate())
        } else {
            None
        };
        let packet = SetEqualizerPacket {
            configuration: configuration.duplicate(),
            right_volume_adjustments: right,
        };
        let bytes = packet.bytes();
        let r = CommandResponse { packets: vec![bytes], new_state };
        assert(r@.packets =~= seq![
            spec_frame(
                SET_EQUALIZER@,
                spec_equalizer_body(state.device_profile.num_equalizer_channels, configuration@),
            ),
        ]);
        r
    }

    /// One set-hear-id frame, and the state with the new calibration.
    pub fn build_hear_id_command(&self, state: &DeviceState, hear_id: &HearId) -> (r: CommandResponse)
        requires
            hear_id.wf(),
        ensures
            r@.packets == seq![spec_frame(SET_HEAR_ID@, hear_id_bytes(hear_id@))],
            r@.new_state == (DeviceStateView { hear_id: Some(hear_id@), ..state@ }),
    {
        let mut new_state = state.duplicate();
        new_state.hear_id = Some(hear_id.duplicate());
        let bytes = SetHearIdPacket { hear_id: hear_id.duplicate() }.bytes();
        let r = CommandResponse { packets: vec![bytes], new_state };
        assert(r@.packets =~= seq![spec_frame(SET_HEAR_ID@, hear_id_bytes(hear_id@))]);
        r
    }

    /// One set-button-model frame, and the state with the new model.
    pub fn build_button_model_command(
        &self,
        state: &DeviceState,
        custom_button_model: CustomButtonModel,
    ) -> (r: CommandResponse)
        ensures
            r@.packets == seq![
                spec_frame(SET_CUSTOM_BUTTON_MODEL@, custom_button_model.spec_bytes()),
            ],
            r@.new_state == (DeviceStateView {
                custom_button_model: Some(custom_button_model),
                ..state@
            }),
    {
        let mut new_state = state.duplicate();
        new_state.custom_button_model = Some(custom_button_model);
        let bytes = SetCustomButtonModelPacket { custom_button_model }.bytes();
        let r = CommandResponse { packets: vec![bytes], new_state };
        assert(r@.packets =~= seq![
            spec_frame(SET_CUSTOM_BUTTON_MODEL@, custom_button_model.spec_bytes()),
        ]);
        r
    }
}

} // verus!
