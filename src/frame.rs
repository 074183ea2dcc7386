use vstd::prelude::*;
use vstd::slice::{slice_subrange, slice_to_vec};

use crate::checksum::{calculate_checksum, checksum_of};
use crate::equalizer::u16_le_bytes;

verus! {

/// Bytes of the command that opens every frame.
pub const COMMAND_LEN: usize = 7;

/// Command plus the two-byte declared length.
pub const HEADER_LEN: usize = 9;

/// Header and checksum around an empty body.
pub const MIN_FRAME_LEN: usize = 10;

/// Largest length the two-byte length field can declare.
pub const MAX_FRAME_LEN: usize = 65535;

/// Full device state.
pub const STATE_UPDATE: [u8; 7] = [0x09, 0xff, 0x00, 0x00, 0x01, 0x01, 0x01];

/// Sound modes changed on the device.
pub const SOUND_MODE_UPDATE: [u8; 7] = [0x09, 0xff, 0x00, 0x00, 0x01, 0x06, 0x01];

/// Firmware versions and serial number.
pub const FIRMWARE_VERSION_UPDATE: [u8; 7] = [0x09, 0xff, 0x00, 0x00, 0x01, 0x01, 0x05];

/// Charging flags of both earbuds.
pub const BATTERY_CHARGING_UPDATE: [u8; 7] = [0x09, 0xff, 0x00, 0x00, 0x01, 0x01, 0x04];

/// Which earbud is the host and whether both are paired.
pub const TWS_STATUS_UPDATE: [u8; 7] = [0x09, 0xff, 0x00, 0x00, 0x01, 0x01, 0x02];

/// Acknowledges a sound mode change.
pub const SET_SOUND_MODE_OK: [u8; 7] = [0x09, 0xff, 0x00, 0x00, 0x01, 0x06, 0x81];

/// Acknowledges an equalizer change.
pub const SET_EQUALIZER_OK: [u8; 7] = [0x09, 0xff, 0x00, 0x00, 0x01, 0x02, 0x81];

/// Asks for a full state update.
pub const REQUEST_STATE: [u8; 7] = [0x08, 0xee, 0x00, 0x00, 0x00, 0x01, 0x01];

/// Asks for the firmware versions and serial number.
pub const REQUEST_FIRMWARE_VERSION: [u8; 7] = [0x08, 0xee, 0x00, 0x00, 0x00, 0x01, 0x05];

/// Sets the sound modes.
pub const SET_SOUND_MODE: [u8; 7] = [0x08, 0xee, 0x00, 0x00, 0x00, 0x06, 0x81];

/// Sets the equalizer configuration.
pub const SET_EQUALIZER: [u8; 7] = [0x08, 0xee, 0x00, 0x00, 0x00, 0x02, 0x81];

/// Sets the hearing calibration.
pub const SET_HEAR_ID: [u8; 7] = [0x08, 0xee, 0x00, 0x00, 0x00, 0x03, 0x81];

/// Sets the button actions.
pub const SET_CUSTOM_BUTTON_MODEL: [u8; 7] = [0x08, 0xee, 0x00, 0x00, 0x00, 0x04, 0x84];

/// A frame split into its command and its body.
#[derive(Clone, Debug, PartialEq, Eq)]
pub struct Packet {
    pub command: [u8; 7],
    pub body: Vec<u8>,
}

/// Why inbound bytes were not accepted.
#[derive(Clone, Copy, Debug, PartialEq, Eq, Hash, Structural)]
pub enum ParseFailure {
    /// Fewer bytes than a header and a checksum.
    TooShort,
    /// The last byte is not the checksum of the others.
    ChecksumMismatch,
    /// The command is none that this library reads.
    UnknownCommand,
    /// The body does not have the shape its command calls for.
    MalformedBody,
}

/// Inbound bytes that could not be read as a packet.
#[derive(Clone, Copy, Debug, PartialEq, Eq, Hash, Structural)]
pub struct TryIntoInboundPacketError {
    pub reason: ParseFailure,
}

/// The frame that carries `body` under `command`: command, total length as
/// two little-endian bytes, body, and the checksum of all of that.
pub open spec fn spec_frame(command: Seq<u8>, body: Seq<u8>) -> Seq<u8> {
    let prefix = command + u16_le_bytes((body.len() + MIN_FRAME_LEN) as u16) + body;
    prefix.push(checksum_of(prefix))
}

/// Command and body of a frame. The declared length is not checked.
pub open spec fn spec_parse_frame(b: Seq<u8>) -> Result<(Seq<u8>, Seq<u8>), ParseFailure> {
    if b.len() < MIN_FRAME_LEN {
        Err(ParseFailure::TooShort)
    } else if checksum_of(b.drop_last()) != b.last() {
        Err(ParseFailure::ChecksumMismatch)
    } else {
        Ok((b.subrange(0, COMMAND_LEN as int), b.subrange(HEADER_LEN as int, b.len() - 1)))
    }
}

/// True when the last byte of `b` is the checksum of the bytes before it.
pub open spec fn carries_checksum(b: Seq<u8>) -> bool {
    b.len() > 0 && b.last() == checksum_of(b.drop_last())
}

/// Builds the frame for `command` and `body`.
pub fn encode_frame(command: &[u8; 7], body: &[u8]) -> (r: Vec<u8>)
    requires
        body@.len() + MIN_FRAME_LEN <= MAX_FRAME_LEN,
    ensures
        r@ == spec_frame(command@, body@),
        carries_checksum(r@),
{
    let len = (body.len() + MIN_FRAME_LEN) as u16;
    let mut r: Vec<u8> = vec![
        command[0],
        command[1],
        command[2],
        command[3],
        command[4],
        command[5],
        command[6],
        (len % 256) as u8,
        (len / 256) as u8,
    ];
    assert(r@ == command@ + u16_le_bytes(len));
    let mut b = slice_to_vec(body);
    r.append(&mut b);
    let c = calculate_checksum(r.as_slice());
    r.push(c);
    assert(r@.drop_last() == command@ + u16_le_bytes(len) + body@);
    r
}

/// Splits a frame into command and body after checking its checksum.
pub fn parse_frame(b: &[u8]) -> (r: Result<Packet, TryIntoInboundPacketError>)
    ensures
        match r {
            Ok(p) => spec_parse_frame(b@) == Ok::<_, ParseFailure>((p.command@, p.body@)),
            Err(e) => spec_parse_frame(b@) == Err::<(Seq<u8>, Seq<u8>), _>(e.reason),
        },
{
    if b.len() < MIN_FRAME_LEN {
        return Err(TryIntoInboundPacketError { reason: ParseFailure::TooShort });
    }
    let last = b.len() - 1;
    let c = calculate_checksum(slice_subrange(b, 0, last));
    assert(b@.subrange(0, last as int) == b@.drop_last());
    if c != b[last] {
        return Err(TryIntoInboundPacketError { reason: ParseFailure::ChecksumMismatch });
    }
    let command: [u8; 7] = [b[0], b[1], b[2], b[3], b[4], b[5], b[6]];
    assert(command@ == b@.subrange(0, COMMAND_LEN as int));
    let body = slice_to_vec(slice_subrange(b, HEADER_LEN, last));
    Ok(Packet { command, body })
}

/// Reads a frame's header: the body that follows it and the command.
pub fn take_inbound_packet_header(input: &[u8]) -> (r: Result<
    (Vec<u8>, [u8; 7]),
    TryIntoInboundPacketError,
>)
    ensures
        match r {
            Ok((body, command)) => spec_parse_frame(input@) == Ok::<_, ParseFailure>(
                (command@, body@),
            ),
            Err(e) => spec_parse_frame(input@) == Err::<(Seq<u8>, Seq<u8>), _>(e.reason),
        },
{
    match parse_frame(input) {
        Ok(p) => Ok((p.body, p.command)),
        Err(e) => Err(e),
    }
}

/// Compares two commands byte by byte.
pub fn same_command(a: &[u8; 7], b: &[u8; 7]) -> (r: bool)
    ensures
        r == (a@ == b@),
{
    let mut i: usize = 0;
    while i < COMMAND_LEN
        invariant
            i <= COMMAND_LEN,
            a@.len() == COMMAND_LEN,
            b@.len() == COMMAND_LEN,
            forall|j: int| 0 <= j < i ==> a@[j] == b@[j],
        decreases COMMAND_LEN - i,
    {
        if a[i] != b[i] {
            return false;
        }
        i += 1;
    }
    assert(a@ == b@);
    true
}

/// A frame that this library builds reads back as the command and body it
/// was built from.
pub proof fn lemma_frame_round_trip(command: Seq<u8>, body: Seq<u8>)
    requires
        command.len() == COMMAND_LEN,
        body.len() + MIN_FRAME_LEN <= MAX_FRAME_LEN,
    ensures
        spec_parse_frame(spec_frame(command, body)) == Ok::<_, ParseFailure>((command, body)),
        carries_checksum(spec_frame(command, body)),
{
    let f = spec_frame(command, body);
    let len = (body.len() + MIN_FRAME_LEN) as u16;
    let prefix = command + u16_le_bytes(len) + body;
    assert(f.drop_last() == prefix);
    assert(f.subrange(0, COMMAND_LEN as int) == command);
    assert(f.subrange(HEADER_LEN as int, f.len() - 1) == body);
}

} // verus!
