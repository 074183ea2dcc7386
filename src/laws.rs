use vstd::prelude::*;

use crate::dispatch::CommandPlan;
use crate::equalizer::{EqualizerConfiguration, HearId};
use crate::frame::{
    carries_checksum, lemma_frame_round_trip, spec_frame, spec_parse_frame, ParseFailure,
    COMMAND_LEN, MAX_FRAME_LEN, MIN_FRAME_LEN, SOUND_MODE_UPDATE,
};
use crate::init::{
    request_state_frame, spec_fetch_start, spec_fetch_step, FetchActionView, FetchEventView,
};
use crate::inbound::{spec_parse_inbound, InboundPacketView};
use crate::outbound::{
    OutboundPacket, SetCustomButtonModelPacket, SetEqualizerPacket, SetHearIdPacket,
    SetSoundModePacket,
};
use crate::registry::{spec_acquire, spec_register, spec_release, RegistryView};
use crate::session::{
    spec_set_custom_button_model, spec_set_equalizer_configuration, spec_set_hear_id,
    spec_set_sound_modes, Error, Feature,
};
use crate::state::{DeviceStateView, HearIdView};
use crate::structures::{CustomButtonModel, SoundModes};

verus! {

/// Every outbound frame ends with the wrapping sum of the bytes before it,
/// and reads back as the command and body it was built from.
pub proof fn lemma_outbound_frame_round_trip<P: OutboundPacket>(packet: P)
    requires
        packet.spec_command().len() == COMMAND_LEN,
        packet.spec_body().len() + MIN_FRAME_LEN <= MAX_FRAME_LEN,
    ensures
        carries_checksum(spec_frame(packet.spec_command(), packet.spec_body())),
        spec_parse_frame(spec_frame(packet.spec_command(), packet.spec_body())) == Ok::<
            _,
            ParseFailure,
        >((packet.spec_command(), packet.spec_body())),
{
    lemma_frame_round_trip(packet.spec_command(), packet.spec_body());
}

/// The body of a set-sound-mode packet, framed as a sound mode update from
/// the device, decodes to the same sound modes.
pub proof fn lemma_sound_modes_round_trip(packet: SetSoundModePacket)
    requires
        packet.wf(),
    ensures
        spec_parse_inbound(spec_frame(SOUND_MODE_UPDATE@, packet.spec_body())) == Ok::<
            _,
            ParseFailure,
        >(InboundPacketView::SoundModeUpdate(packet.sound_modes)),
{
    let body = packet.spec_body();
    lemma_frame_round_trip(SOUND_MODE_UPDATE@, body);
    packet.sound_modes.lemma_round_trip();
    assert(SOUND_MODE_UPDATE@[5] != crate::frame::STATE_UPDATE@[5]);
}

/// The body of a one-channel set-equalizer packet decodes to the same
/// configuration.
pub proof fn lemma_equalizer_round_trip(packet: SetEqualizerPacket)
    requires
        packet.wf(),
        packet.right_volume_adjustments is None,
    ensures
        EqualizerConfiguration::spec_parse(
            packet.spec_body(),
            packet.configuration.volume_adjustments@.len(),
        ) == Some(packet.configuration@),
{
    packet.configuration.lemma_round_trip();
}

/// The body of a set-hear-id packet decodes to the same calibration.
pub proof fn lemma_hear_id_round_trip(packet: SetHearIdPacket)
    requires
        packet.wf(),
    ensures
        HearId::spec_parse(packet.spec_body()) == Some(packet.hear_id@),
{
    packet.hear_id.lemma_round_trip();
}

/// The body of a set-button-model packet decodes to the same model.
pub proof fn lemma_custom_button_model_round_trip(packet: SetCustomButtonModelPacket)
    ensures
        CustomButtonModel::spec_parse(packet.spec_body()) == Some(packet.custom_button_model),
{
    packet.custom_button_model.lemma_round_trip();
}

/// Setting a new equalizer configuration twice writes one frame: the first
/// call sends it, and the second, on the state that the first one produced,
/// sends nothing.
pub proof fn lemma_equalizer_set_twice(s: DeviceStateView, c: (u16, Seq<i16>))
    requires
        s.wf(),
        s.device_profile.num_equalizer_channels != 0,
        c.1.len() == s.device_profile.num_equalizer_bands,
        c != s.equalizer_configuration,
    ensures
        spec_set_equalizer_configuration(s, c) matches Ok(Some(plan)) && plan.packets.len() == 1
            && spec_set_equalizer_configuration(plan.new_state, c) == Ok::<
            Option<CommandPlan>,
            Error,
        >(None),
{
}

/// Setting new sound modes twice sends frames only on the first call.
pub proof fn lemma_sound_modes_set_twice(s: DeviceStateView, m: SoundModes)
    requires
        s.wf(),
        s.sound_modes matches Some(prev) && prev != m,
    ensures
        spec_set_sound_modes(s, m) matches Ok(Some(plan)) && plan.packets.len() >= 1
            && spec_set_sound_modes(plan.new_state, m) == Ok::<Option<CommandPlan>, Error>(None),
{
}

/// Setting a new hearing calibration twice sends a frame only on the first
/// call.
pub proof fn lemma_hear_id_set_twice(s: DeviceStateView, h: HearIdView)
    requires
        s.wf(),
        s.device_profile.has_hear_id,
        s.hear_id != Some(h),
    ensures
        spec_set_hear_id(s, h) matches Ok(Some(plan)) && plan.packets.len() == 1
            && spec_set_hear_id(plan.new_state, h) == Ok::<Option<CommandPlan>, Error>(None),
{
}

/// Setting a new button model twice sends a frame only on the first call.
pub proof fn lemma_custom_button_model_set_twice(s: DeviceStateView, m: CustomButtonModel)
    requires
        s.wf(),
        s.custom_button_model matches Some(prev) && prev != m,
    ensures
        spec_set_custom_button_model(s, m) matches Ok(Some(plan)) && plan.packets.len() == 1
            && spec_set_custom_button_model(plan.new_state, m) == Ok::<
            Option<CommandPlan>,
            Error,
        >(None),
{
}

/// A hearing calibration on a profile without one fails with
/// `FeatureNotSupported` and sends nothing.
pub proof fn lemma_hear_id_requires_profile(s: DeviceStateView, h: HearIdView)
    requires
        !s.device_profile.has_hear_id,
    ensures
        spec_set_hear_id(s, h) == Err::<Option<CommandPlan>, _>(
            Error::FeatureNotSupported(Feature::HearId),
        ),
{
}

/// An equalizer configuration whose band count differs from the profile's
/// is refused before anything is sent.
pub proof fn lemma_equalizer_band_count_enforced(s: DeviceStateView, c: (u16, Seq<i16>))
    requires
        c.1.len() != s.device_profile.num_equalizer_bands,
    ensures
        spec_set_equalizer_configuration(s, c) is Err,
{
}

/// Without a snapshot, the fetch sends three state requests, one at the
/// start and one after each of the first two timeouts, and fails with
/// `NoResponse` at the third timeout.
pub proof fn lemma_fetch_gives_up_after_three_attempts()
    ensures
        ({
            let (f0, first) = spec_fetch_start();
            let (f1, a1) = spec_fetch_step(f0, FetchEventView::Timeout);
            let (f2, a2) = spec_fetch_step(f1, FetchEventView::Timeout);
            let (f3, a3) = spec_fetch_step(f2, FetchEventView::Timeout);
            &&& first == request_state_frame()
            &&& a1 == FetchActionView::SendRequest(request_state_frame())
            &&& a2 == FetchActionView::SendRequest(request_state_frame())
            &&& a3 == FetchActionView::Failed(Error::NoResponse)
            &&& f3.done
        }),
{
}

/// Inbound bytes that are no snapshot change nothing during the fetch.
pub proof fn lemma_fetch_ignores_other_packets(
    f: crate::init::InitialStateFetch,
    bytes: Seq<u8>,
)
    requires
        !(spec_parse_inbound(bytes) matches Ok(InboundPacketView::StateUpdate(_))),
    ensures
        spec_fetch_step(f, FetchEventView::Inbound(bytes)) == (f, FetchActionView::KeepWaiting),
{
}

/// A snapshot that arrives after the second request ends the fetch with
/// that snapshot, and nothing after it leads to another request.
pub proof fn lemma_fetch_succeeds_on_second_attempt(bytes: Seq<u8>, later: FetchEventView)
    requires
        spec_parse_inbound(bytes) matches Ok(InboundPacketView::StateUpdate(_)),
    ensures
        ({
            let (f0, _) = spec_fetch_start();
            let (f1, a1) = spec_fetch_step(f0, FetchEventView::Timeout);
            let (f2, a2) = spec_fetch_step(f1, FetchEventView::Inbound(bytes));
            let (f3, a3) = spec_fetch_step(f2, later);
            &&& a1 == FetchActionView::SendRequest(request_state_frame())
            &&& f2.attempt == 2
            &&& (a2 matches FetchActionView::Finished(s, _) && spec_parse_inbound(bytes) == Ok::<
                _,
                ParseFailure,
            >(InboundPacketView::StateUpdate(s)))
            &&& a3 == FetchActionView::KeepWaiting
            &&& f3 == f2
        }),
{
}

/// Two callers asking for the same address, with no live connection, open
/// one connection and share its handle; once both let go, the next caller
/// opens a new one with a new handle.
pub proof fn lemma_registry_shares_one_connection(v: RegistryView, address: u64)
    requires
        v.wf(),
        !v.entries.contains_key(address),
        v.next_handle < u64::MAX - 1,
        v.opened < u64::MAX - 1,
    ensures
        ({
            let (v1, first) = spec_acquire(v, address);
            let (v2, handle) = spec_register(v1, address);
            let (v3, second) = spec_acquire(v2, address);
            let v4 = spec_release(spec_release(v3, address), address);
            let (v5, third) = spec_acquire(v4, address);
            let (v6, new_handle) = spec_register(v5, address);
            &&& first is None
            &&& second == Some(handle)
            &&& v3.opened == v.opened + 1
            &&& !v4.entries.contains_key(address)
            &&& third is None
            &&& v6.opened == v.opened + 2
            &&& new_handle != handle
        }),
{
}

} // verus!
