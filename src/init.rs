use vstd::prelude::*;

use crate::frame::{spec_frame, REQUEST_FIRMWARE_VERSION, REQUEST_STATE};
use crate::inbound::{spec_parse_inbound, InboundPacket, InboundPacketView};
use crate::outbound::{OutboundPacket, RequestFirmwareVersionPacket, RequestStatePacket};
use crate::session::Error;
use crate::state::{DeviceState, DeviceStateView};

verus! {

/// How many times a state request is sent before initialization gives up.
pub const MAX_INITIAL_STATE_ATTEMPTS: u8 = 3;

/// Seconds to wait for a snapshot after each state request.
pub const INITIAL_STATE_TIMEOUT_SECS: u64 = 1;

/// What happened while waiting for the first snapshot.
pub enum FetchEvent {
    /// The device sent these bytes.
    Inbound(Vec<u8>),
    /// The wait after the last request ran out.
    Timeout,
}

pub enum FetchEventView {
    Inbound(Seq<u8>),
    Timeout,
}

impl View for FetchEvent {
    type V = FetchEventView;

    open spec fn view(&self) -> FetchEventView {
        match self {
            FetchEvent::Inbound(b) => FetchEventView::Inbound(b@),
            FetchEvent::Timeout => FetchEventView::Timeout,
        }
    }
}

/// What to do next while waiting for the first snapshot.
pub enum FetchAction {
    /// Write this state request, then wait for the timeout.
    SendRequest(Vec<u8>),
    /// Keep listening.
    KeepWaiting,
    /// The snapshot arrived. Write `follow_up`, if any, once, and start the
    /// session with `state`.
    Finished { state: DeviceState, follow_up: Option<Vec<u8>> },
    /// Initialization failed.
    Failed(Error),
}

pub enum FetchActionView {
    SendRequest(Seq<u8>),
    KeepWaiting,
    Finished(DeviceStateView, Option<Seq<u8>>),
    Failed(Error),
}

impl View for FetchAction {
    type V = FetchActionView;

    open spec fn view(&self) -> FetchActionView {
        match self {
            FetchAction::SendRequest(b) => FetchActionView::SendRequest(b@),
            FetchAction::KeepWaiting => FetchActionView::KeepWaiting,
            FetchAction::Finished { state, follow_up } => FetchActionView::Finished(
                state@,
                match follow_up {
                    Some(b) => Some(b@),
                    None => None,
                },
            ),
            FetchAction::Failed(e) => FetchActionView::Failed(*e),
        }
    }
}

/// The frame that asks for a state snapshot.
pub open spec fn request_state_frame() -> Seq<u8> {
    spec_frame(REQUEST_STATE@, Seq::empty())
}

/// The frame that asks for firmware versions and serial number.
pub open spec fn request_firmware_version_frame() -> Seq<u8> {
    spec_frame(REQUEST_FIRMWARE_VERSION@, Seq::empty())
}

/// Progress of fetching the first snapshot: how many requests were sent, and
/// whether the fetch has ended.
#[derive(Clone, Copy, Debug, PartialEq, Eq, Hash, Structural)]
pub struct InitialStateFetch {
    pub attempt: u8,
    pub done: bool,
}

pub open spec fn spec_fetch_start() -> (InitialStateFetch, Seq<u8>) {
    (InitialStateFetch { attempt: 1, done: false }, request_state_frame())
}

/// One step of the fetch. A snapshot ends it, asking for the firmware version
/// when the snapshot lacks it. Other packets and unreadable bytes are
/// ignored. A timeout sends the next request, or ends the fetch with
/// `NoResponse` after the last one.
pub open spec fn spec_fetch_step(f: InitialStateFetch, e: FetchEventView) -> (
    InitialStateFetch,
    FetchActionView,
) {
    if f.done {
        (f, FetchActionView::KeepWaiting)
    } else {
        match e {
            FetchEventView::Inbound(b) => match spec_parse_inbound(b) {
                Ok(InboundPacketView::StateUpdate(s)) => (
                    InitialStateFetch { done: true, ..f },
                    FetchActionView::Finished(
                        s,
                        if s.firmware_version is None {
                            Some(request_firmware_version_frame())
                        } else {
                            None
                        },
                    ),
                ),
                _ => (f, FetchActionView::KeepWaiting),
            },
            FetchEventView::Timeout => if f.attempt < MAX_INITIAL_STATE_ATTEMPTS {
                (
                    InitialStateFetch { attempt: (f.attempt + 1) as u8, done: false },
                    FetchActionView::SendRequest(request_state_frame()),
                )
            } else {
                (InitialStateFetch { done: true, ..f }, FetchActionView::Failed(Error::NoResponse))
            },
        }
    }
}

impl InitialStateFetch {
    pub open spec fn wf(self) -> bool {
        1 <= self.attempt <= MAX_INITIAL_STATE_ATTEMPTS
    }

    /// Starts the fetch: the first state request is to be written.
    pub fn start() -> (r: (InitialStateFetch, Vec<u8>))
        ensures
            (r.0, r.1@) == spec_fetch_start(),
            r.0.wf(),
    {
        (InitialStateFetch { attempt: 1, done: false }, RequestStatePacket::new().bytes())
    }

    /// Advances the fetch by one event and says what to do next.
    pub fn step(&mut self, event: &FetchEvent) -> (r: FetchAction)
        requires
            old(self).wf(),
        ensures
            (*final(self), r@) == spec_fetch_step(*old(self), event@),
            final(self).wf(),
            r matches FetchAction::Finished { state, .. } ==> state@.wf(),
    {
        if self.done {
            return FetchAction::KeepWaiting;
        }
        match event {
            FetchEvent::Inbound(bytes) => match InboundPacket::new(bytes.as_slice()) {
                Ok(InboundPacket::StateUpdate(p)) => {
                    self.done = true;
                    let follow_up = if p.snapshot.firmware_version.is_none() {
                        Some(RequestFirmwareVersionPacket::new().bytes())
                    } else {
                        None
                    };
                    FetchAction::Finished { state: p.snapshot, follow_up }
                },
                _ => FetchAction::KeepWaiting,
            },
            FetchEvent::Timeout => {
                if self.attempt < MAX_INITIAL_STATE_ATTEMPTS {
                    self.attempt = self.attempt + 1;
                    FetchAction::SendRequest(RequestStatePacket::new().bytes())
                } else {
                    self.done = true;
                    FetchAction::Failed(Error::NoResponse)
                }
            },
        }
    }
}

} // verus!
