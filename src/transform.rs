use vstd::prelude::*;

use crate::inbound::{
    spec_parse_firmware_version_update, take_firmware_version_update_packet,
    BatteryChargingUpdatePacket, FirmwareVersionUpdatePacket, InboundPacket, InboundPacketView,
    SoundModeUpdatePacket, StateUpdatePacket,
};
use crate::state::{DeviceState, DeviceStateView};
use crate::structures::{Battery, DualBattery, IsBatteryCharging, SingleBattery, SoundModes};

verus! {

/// The batteries after a charging update: a single battery takes the left
/// flag, a pair takes both.
pub open spec fn spec_battery_charging(
    battery: Battery,
    left: IsBatteryCharging,
    right: IsBatteryCharging,
) -> Battery {
    match battery {
        Battery::Single(b) => Battery::Single(SingleBattery { is_charging: left, ..b }),
        Battery::Dual(d) => Battery::Dual(
            DualBattery {
                left: SingleBattery { is_charging: left, ..d.left },
                right: SingleBattery { is_charging: right, ..d.right },
            },
        ),
    }
}

/// The state after the device sent `packet`: a snapshot replaces it, an
/// update changes the fields it carries, an acknowledgement leaves it as it
/// is. Sound modes reach only a profile that has them.
pub open spec fn spec_transform(
    state: DeviceStateView,
    packet: InboundPacketView,
) -> DeviceStateView {
    match packet {
        InboundPacketView::StateUpdate(s) => s,
        InboundPacketView::SoundModeUpdate(m) => spec_sound_mode_update(state, m),
        InboundPacketView::FirmwareVersionUpdate(l, r, sn) => DeviceStateView {
            firmware_version: Some(l.spec_max(r)),
            serial_number: Some(sn),
            ..state
        },
        InboundPacketView::BatteryChargingUpdate(l, r) => DeviceStateView {
            battery: spec_battery_charging(state.battery, l, r),
            ..state
        },
        InboundPacketView::SetSoundModeOk => state,
        InboundPacketView::SetEqualizerOk => state,
    }
}

pub open spec fn spec_sound_mode_update(state: DeviceStateView, m: SoundModes) -> DeviceStateView {
    if state.device_profile.has_sound_modes {
        DeviceStateView { sound_modes: Some(m), ..state }
    } else {
        state
    }
}

/// A packet that changes the device state when it arrives.
pub trait DeviceStateTransformer {
    spec fn spec_apply(&self, state: DeviceStateView) -> DeviceStateView;

    fn transform(&self, state: &DeviceState) -> (r: DeviceState)
        ensures
            r@ == self.spec_apply(state@),
    ;
}

impl DeviceStateTransformer for StateUpdatePacket {
    open spec fn spec_apply(&self, state: DeviceStateView) -> DeviceStateView {
        self.snapshot@
    }

    fn transform(&self, state: &DeviceState) -> (r: DeviceState) {
        self.snapshot.duplicate()
    }
}

impl DeviceStateTransformer for SoundModeUpdatePacket {
    open spec fn spec_apply(&self, state: DeviceStateView) -> DeviceStateView {
        spec_sound_mode_update(state, self.sound_modes)
    }

    fn transform(&self, state: &DeviceState) -> (r: DeviceState) {
        let mut r = state.duplicate();
        if state.device_profile.has_sound_modes {
            r.sound_modes = Some(self.sound_modes);
        }
        r
    }
}

impl DeviceStateTransformer for FirmwareVersionUpdatePacket {
    open spec fn spec_apply(&self, state: DeviceStateView) -> DeviceStateView {
        DeviceStateView {
            firmware_version: Some(
                self.left_firmware_version.spec_max(self.right_firmware_version),
            ),
            serial_number: Some(self.serial_number@),
            ..state
        }
    }

    fn transform(&self, state: &DeviceState) -> (r: DeviceState) {
        let mut r = state.duplicate();
        r.firmware_version = Some(self.left_firmware_version.max(self.right_firmware_version));
        r.serial_number = Some(self.serial_number.duplicate());
        r
    }
}

impl DeviceStateTransformer for BatteryChargingUpdatePacket {
    open spec fn spec_apply(&self, state: DeviceStateView) -> DeviceStateView {
        DeviceStateView {
            battery: spec_battery_charging(state.battery, self.left, self.right),
            ..state
        }
    }

    fn transform(&self, state: &DeviceState) -> (r: DeviceState) {
        let mut r = state.duplicate();
        r.battery = match state.battery {
            Battery::Single(b) => Battery::Single(
                SingleBattery { is_charging: self.left, level: b.level },
            ),
            Battery::Dual(d) => Battery::Dual(
                DualBattery {
                    left: SingleBattery { is_charging: self.left, level: d.left.level },
                    right: SingleBattery { is_charging: self.right, level: d.right.level },
                },
            ),
        };
        r
    }
}

/// Folds the body of a firmware version update into the state: the later of
/// the two versions and the serial number. A body that does not parse leaves
/// the state as it is.
pub fn firmware_version_update_handler(input: &[u8], state: DeviceState) -> (r: DeviceState)
    ensures
        r@ == match spec_parse_firmware_version_update(input@) {
            Some((l, rv, sn)) => DeviceStateView {
                firmware_version: Some(l.spec_max(rv)),
                serial_number: Some(sn),
                ..state@
            },
            None => state@,
        },
{
    match take_firmware_version_update_packet(input) {
        Some(packet) => packet.transform(&state),
        None => state,
    }
}

/// Folds one inbound packet into the state.
pub fn transform_state(packet: &InboundPacket, state: &DeviceState) -> (r: DeviceState)
    ensures
        r@ == spec_transform(state@, packet@),
        state@.wf() && packet@.wf() ==> r@.wf(),
{
    match packet {
        InboundPacket::StateUpdate(p) => p.transform(state),
        InboundPacket::SoundModeUpdate(p) => p.transform(state),
        InboundPacket::FirmwareVersionUpdate(p) => p.transform(state),
        InboundPacket::BatteryChargingUpdate(p) => p.transform(state),
        InboundPacket::SetSoundModeOk => state.duplicate(),
        InboundPacket::SetEqualizerOk => state.duplicate(),
    }
}

} // verus!
