use vstd::prelude::*;

use crate::dispatch::{
    dispatcher_for, spec_equalizer_body, spec_sound_mode_packets, CommandPlan, CommandResponse,
};
use crate::equalizer::{hear_id_bytes, EqualizerConfiguration, HearId};
use crate::frame::{spec_frame, SET_CUSTOM_BUTTON_MODEL, SET_EQUALIZER, SET_HEAR_ID};
use crate::inbound::{spec_parse_inbound, InboundPacket};
use crate::state::{DeviceState, DeviceStateView, HearIdView};
use crate::structures::{CustomButtonModel, SoundModes};
use crate::transform::{spec_transform, transform_state};

verus! {

/// A setting that a command changes.
#[derive(Clone, Copy, Debug, PartialEq, Eq, Hash, Structural)]
pub enum Feature {
    SoundModes,
    Equalizer,
    /// The equalizer configuration has another number of bands than the
    /// device.
    EqualizerBandCount,
    HearId,
    CustomButtonModel,
}

/// Why a device operation failed.
#[derive(Clone, Copy, Debug, PartialEq, Eq, Hash, Structural)]
pub enum Error {
    /// The transport failed.
    Connection,
    /// No state snapshot arrived during initialization.
    NoResponse,
    /// The device's profile lacks the feature.
    FeatureNotSupported(Feature),
    /// The state lacks a value that the command depends on.
    MissingData(Feature),
}

/// The outcome of a sound mode change: an error, nothing to do, or the frames
/// to send and the state that follows.
pub open spec fn spec_set_sound_modes(s: DeviceStateView, m: SoundModes) -> Result<
    Option<CommandPlan>,
    Error,
> {
    if !s.device_profile.has_sound_modes {
        Err(Error::FeatureNotSupported(Feature::SoundModes))
    } else {
        match s.sound_modes {
            None => Err(Error::MissingData(Feature::SoundModes)),
            Some(prev) => if prev == m {
                Ok(None)
            } else {
                Ok(
                    Some(
                        CommandPlan {
                            packets: spec_sound_mode_packets(
                                s.device_profile.sound_modes_dispatcher,
                                prev,
                                m,
                            ),
                            new_state: DeviceStateView { sound_modes: Some(m), ..s },
                        },
                    ),
                )
            },
        }
    }
}

/// The outcome of an equalizer change: refused when the device has no
/// equalizer or another band count, nothing to do when unchanged.
pub open spec fn spec_set_equalizer_configuration(
    s: DeviceStateView,
    c: (u16, Seq<i16>),
) -> Result<Option<CommandPlan>, Error> {
    if s.device_profile.num_equalizer_channels == 0 {
        Err(Error::FeatureNotSupported(Feature::Equalizer))
    } else if c.1.len() != s.device_profile.num_equalizer_bands {
        Err(Error::FeatureNotSupported(Feature::EqualizerBandCount))
    } else if c == s.equalizer_configuration {
        Ok(None)
    } else {
        Ok(
            Some(
                CommandPlan {
                    packets: seq![
                        spec_frame(
                            SET_EQUALIZER@,
                            spec_equalizer_body(s.device_profile.num_equalizer_channels, c),
                        ),
                    ],
                    new_state: DeviceStateView { equalizer_configuration: c, ..s },
                },
            ),
        )
    }
}

/// The outcome of a hearing calibration change: refused when the profile has
/// none, nothing to do when unchanged.
pub open spec fn spec_set_hear_id(s: DeviceStateView, h: HearIdView) -> Result<
    Option<CommandPlan>,
    Error,
> {
    if !s.device_profile.has_hear_id {
        Err(Error::FeatureNotSupported(Feature::HearId))
    } else if s.hear_id == Some(h) {
        Ok(None)
    } else {
        Ok(
            Some(
                CommandPlan {
                    packets: seq![spec_frame(SET_HEAR_ID@, hear_id_bytes(h))],
                    new_state: DeviceStateView { hear_id: Some(h), ..s },
                },
            ),
        )
    }
}

/// The outcome of a button model change: refused when the profile has none,
/// missing data when the state holds no model yet, nothing to do when
/// unchanged.
pub open spec fn spec_set_custom_button_model(s: DeviceStateView, m: CustomButtonModel) -> Result<
    Option<CommandPlan>,
    Error,
> {
    if !s.device_profile.has_custom_button_model {
        Err(Error::FeatureNotSupported(Feature::CustomButtonModel))
    } else {
        match s.custom_button_model {
            None => Err(Error::MissingData(Feature::CustomButtonModel)),
            Some(prev) => if prev == m {
                Ok(None)
            } else {
                Ok(
                    Some(
                        CommandPlan {
                            packets: seq![spec_frame(SET_CUSTOM_BUTTON_MODEL@, m.spec_bytes())],
                            new_state: DeviceStateView { custom_button_model: Some(m), ..s },
                        },
                    ),
                )
            },
        }
    }
}

/// What a planned command looks like as plain values.
pub open spec fn plan_view(r: Result<Option<CommandResponse>, Error>) -> Result<
    Option<CommandPlan>,
    Error,
> {
    match r {
        Ok(Some(resp)) => Ok(Some(resp@)),
        Ok(None) => Ok(None),
        Err(e) => Err(e),
    }
}

/// The state of one connected device and the decisions about it. The caller
/// owns the connection: it writes the frames that a command returns and
/// commits the command once they are written.
pub struct DeviceSession {
    pub state: DeviceState,
}

impl DeviceSession {
    pub open spec fn wf(&self) -> bool {
        self.state@.wf()
    }

    pub fn new(state: DeviceState) -> (r: DeviceSession)
        requires
            state@.wf(),
        ensures
            r.state@ == state@,
            r.wf(),
    {
        DeviceSession { state }
    }

    pub fn state(&self) -> (r: &DeviceState)
        ensures
            r == &self.state,
    {
        &self.state
    }

    /// Folds inbound bytes into the state. Bytes that do not parse leave it
    /// as it is. Returns whether the state changed, which is when the new
    /// snapshot is to be published.
    pub fn handle_inbound(&mut self, bytes: &[u8]) -> (changed: bool)
        requires
            old(self).wf(),
        ensures
            final(self).wf(),
            final(self).state@ == match spec_parse_inbound(bytes@) {
                Ok(p) => spec_transform(old(self).state@, p),
                Err(_) => old(self).state@,
            },
            changed == (final(self).state@ != old(self).state@),
    {
        match InboundPacket::new(bytes) {
            Ok(packet) => {
                let new_state = transform_state(&packet, &self.state);
                if new_state.same_as(&self.state) {
                    false
                } else {
                    self.state = new_state;
                    true
                }
            },
            Err(_) => false,
        }
    }

    /// Decides a sound mode change.
    pub fn set_sound_modes(&self, sound_modes: SoundModes) -> (r: Result<
        Option<CommandResponse>,
        Error,
    >)
        requires
            self.wf(),
            sound_modes.wf(),
        ensures
            plan_view(r) == spec_set_sound_modes(self.state@, sound_modes),
            r matches Ok(Some(resp)) ==> resp.new_state@.wf(),
    {
        if !self.state.device_profile.has_sound_modes {
            return Err(Error::FeatureNotSupported(Feature::SoundModes));
        }
        let prev = match self.state.sound_modes {
            Some(prev) => prev,
            None => return Err(Error::MissingData(Feature::SoundModes)),
        };
        if prev == sound_modes {
            return Ok(None);
        }
        let dispatcher = dispatcher_for(&self.state.device_profile);
        Ok(Some(dispatcher.build_sound_modes_command(&self.state, prev, sound_modes)))
    }

    /// Decides an equalizer change.
    pub fn set_equalizer_configuration(
        &self,
        equalizer_configuration: &EqualizerConfiguration,
    ) -> (r: Result<Option<CommandResponse>, Error>)
        requires
            self.wf(),
            equalizer_configuration.wf(),
        ensures
            plan_view(r) == spec_set_equalizer_configuration(
                self.state@,
                equalizer_configuration@,
            ),
            r matches Ok(Some(resp)) ==> resp.new_state@.wf(),
    {
        if self.state.device_profile.num_equalizer_channels == 0 {
            return Err(Error::FeatureNotSupported(Feature::Equalizer));
        }
        if equalizer_configuration.volume_adjustments.len()
            != self.state.device_profile.num_equalizer_bands {
            return Err(Error::FeatureNotSupported(Feature::EqualizerBandCount));
        }
        if equalizer_configuration.same_as(&self.state.equalizer_configuration) {
            return Ok(None);
        }
        let dispatcher = dispatcher_for(&self.state.device_profile);
        Ok(Some(dispatcher.build_equalizer_command(&self.state, equalizer_configuration)))
    }

    /// Decides a hearing calibration change.
    pub fn set_hear_id(&self, hear_id: &HearId) -> (r: Result<Option<CommandResponse>, Error>)
        requires
            self.wf(),
            hear_id.wf(),
        ensures
            plan_view(r) == spec_set_hear_id(self.state@, hear_id@),
            r matches Ok(Some(resp)) ==> resp.new_state@.wf(),
    {
        if !self.state.device_profile.has_hear_id {
            return Err(Error::FeatureNotSupported(Feature::HearId));
        }
        let same = match &self.state.hear_id {
            Some(h) => h.same_as(hear_id),
            None => false,
        };
        if same {
            return Ok(None);
        }
        let dispatcher = dispatcher_for(&self.state.device_profile);
        Ok(Some(dispatcher.build_hear_id_command(&self.state, hear_id)))
    }

    /// Decides a button model change.
    pub fn set_custom_button_model(&self, custom_button_model: CustomButtonModel) -> (r: Result<
        Option<CommandResponse>,
        Error,
    >)
        requires
            self.wf(),
        ensures
            plan_view(r) == spec_set_custom_button_model(self.state@, custom_button_model),
            r matches Ok(Some(resp)) ==> resp.new_state@.wf(),
    {
        if !self.state.device_profile.has_custom_button_model {
            return Err(Error::FeatureNotSupported(Feature::CustomButtonModel));
        }
        let prev = match self.state.custom_button_model {
            Some(prev) => prev,
            None => return Err(Error::MissingData(Feature::CustomButtonModel)),
        };
        if prev == custom_button_model {
            return Ok(None);
        }
        let dispatcher = dispatcher_for(&self.state.device_profile);
        Ok(Some(dispatcher.build_button_model_command(&self.state, custom_button_model)))
    }

    /// Adopts the state of a command whose frames were written.
    pub fn commit(&mut self, response: CommandResponse)
        requires
            response.new_state@.wf(),
        ensures
            final(self).state@ == response.new_state@,
            final(self).wf(),
    {
        self.state = response.new_state;
    }
}

} // verus!
