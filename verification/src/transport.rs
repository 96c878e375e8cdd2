//! Small transport framing helpers for higher-level split protocols.
//!
//! The ESB core transmits arbitrary payload bytes. A split protocol adds only a
//! thin transport header for routing and duplicate suppression.

use crate::bytes;
use crate::bytes::{copy_into, get_u16_le, put_u16_le};
use crate::error::Error;
use crate::header::EsbHeader;
use vstd::prelude::*;

verus! {

/// Current ESB transport framing version.
pub const TRANSPORT_VERSION: u8 = 1;

/// Header size in bytes.
pub const TRANSPORT_HEADER_LEN: usize = 5;

/// Maximum higher-level payload length that can fit in one framed ESB packet.
pub const MAX_TRANSPORT_PAYLOAD_LEN: usize = 247;

/// Frame carries an application-level acknowledgement.
pub const FLAG_ACK: u8 = 0x01;

/// Frame carries a retransmitted application message.
pub const FLAG_RETRANSMIT: u8 = 0x02;

/// Flags currently defined by transport version 1.
pub const FLAGS_V1_MASK: u8 = 0x03;

/// Transport acknowledgement marker carried inside an ESB ACK payload ("TA",
/// little-endian on wire).
pub const TRANSPORT_ACK_MAGIC: u16 = 0x4154;

/// Encoded transport acknowledgement length in bytes.
pub const TRANSPORT_ACK_LEN: usize = 4;

/// Return the ESB payload length required to carry a framed higher-level
/// payload of `payload_len` bytes.
pub fn required_esb_payload_len(payload_len: usize) -> (n: usize)
    requires
        payload_len + TRANSPORT_HEADER_LEN <= usize::MAX,
    ensures
        n == payload_len + TRANSPORT_HEADER_LEN,
{
    TRANSPORT_HEADER_LEN + payload_len
}

/// A framed payload of `payload_len` bytes fits into ESB payloads of `esb_len`.
pub open spec fn fits(esb_len: u8, payload_len: int) -> bool {
    esb_len <= EsbHeader::MAX_PAYLOAD && payload_len + TRANSPORT_HEADER_LEN <= esb_len
}

/// Return whether an ESB `payload_length` can carry a framed higher-level
/// payload of `payload_len` bytes.
pub fn fits_esb_payload(esb_payload_len: u8, payload_len: usize) -> (r: bool)
    ensures
        r == fits(esb_payload_len, payload_len as int),
{
    payload_len <= MAX_TRANSPORT_PAYLOAD_LEN && esb_payload_len <= EsbHeader::MAX_PAYLOAD
        && required_esb_payload_len(payload_len) <= esb_payload_len as usize
}

/// Validate that an ESB `payload_length` can carry a framed higher-level
/// payload of `payload_len` bytes.
///
/// This is separate from `EsbConfig::validate()`: the base configuration cannot
/// know which higher-level transport, if any, will wrap the payload.
pub fn validate_payload_length(esb_payload_len: u8, payload_len: usize) -> (r: Result<(), Error>)
    ensures
        r == (if fits(esb_payload_len, payload_len as int) {
            Ok(())
        } else {
            Err(Error::InvalidParam)
        }),
{
    if fits_esb_payload(esb_payload_len, payload_len) {
        Ok(())
    } else {
        Err(Error::InvalidParam)
    }
}

/// Header used by higher-level split protocols carried over ESB.
///
/// ```text
/// byte 0: protocol version
/// byte 1: device id
/// byte 2: sequence number
/// byte 3: flags
/// byte 4: payload length
/// byte 5..: serialized higher-level payload
/// ```
#[derive(Debug, Clone, Copy, PartialEq, Eq, Structural)]
pub struct TransportHeader {
    /// Framing version. Must match [`TRANSPORT_VERSION`].
    pub version: u8,
    /// Application-level device id.
    pub device_id: u8,
    /// Application-level sequence number for duplicate suppression.
    pub sequence: u8,
    /// Transport flags.
    pub flags: u8,
    /// Serialized payload length after the header.
    pub payload_len: u8,
}

/// Only flags of version 1 are set.
pub open spec fn flags_ok(flags: u8) -> bool {
    flags & !FLAGS_V1_MASK == 0
}

/// A version 1 header, where one exists for the arguments.
pub open spec fn new_header(device_id: u8, sequence: u8, flags: u8, payload_len: int) -> Result<
    TransportHeader,
    Error,
> {
    if payload_len > MAX_TRANSPORT_PAYLOAD_LEN || !flags_ok(flags) {
        Err(Error::InvalidParam)
    } else {
        Ok(
            TransportHeader {
                version: TRANSPORT_VERSION,
                device_id,
                sequence,
                flags,
                payload_len: payload_len as u8,
            },
        )
    }
}

/// The header that the first five bytes of a frame stand for, unchecked.
pub open spec fn raw_header(frame: Seq<u8>) -> TransportHeader {
    TransportHeader {
        version: frame[0],
        device_id: frame[1],
        sequence: frame[2],
        flags: frame[3],
        payload_len: frame[4],
    }
}

/// The buffer starts with a header of this version, and holds the payload that
/// the header announces.
pub open spec fn frame_ok(frame: Seq<u8>) -> bool {
    &&& frame.len() >= TRANSPORT_HEADER_LEN
    &&& frame[0] == TRANSPORT_VERSION
    &&& flags_ok(frame[3])
    &&& frame.len() >= TRANSPORT_HEADER_LEN + frame[4]
}

/// The payload of a frame.
pub open spec fn frame_payload(frame: Seq<u8>) -> Seq<u8> {
    frame.subrange(5, 5 + frame[4])
}

impl TransportHeader {
    /// The header on the wire.
    pub open spec fn encoded(self) -> Seq<u8> {
        seq![self.version, self.device_id, self.sequence, self.flags, self.payload_len]
    }

    /// Create a v1 header.
    pub fn new(device_id: u8, sequence: u8, flags: u8, payload_len: usize) -> (r: Result<
        Self,
        Error,
    >)
        ensures
            r == new_header(device_id, sequence, flags, payload_len as int),
    {
        if payload_len > MAX_TRANSPORT_PAYLOAD_LEN || flags & !FLAGS_V1_MASK != 0 {
            return Err(Error::InvalidParam);
        }
        Ok(
            TransportHeader {
                version: TRANSPORT_VERSION,
                device_id,
                sequence,
                flags,
                payload_len: payload_len as u8,
            },
        )
    }

    /// Encode the header into the beginning of `out`. A refused header leaves
    /// it unchanged.
    pub fn encode_into(&self, out: &mut [u8]) -> (r: Result<usize, Error>)
        ensures
            r == (if self.version != TRANSPORT_VERSION || old(out)@.len() < TRANSPORT_HEADER_LEN {
                Err(Error::InvalidParam)
            } else {
                Ok(TRANSPORT_HEADER_LEN)
            }),
            final(out)@ == (if r is Ok {
                bytes::splice(old(out)@, 0, self.encoded())
            } else {
                old(out)@
            }),
    {
        if self.version != TRANSPORT_VERSION || out.len() < TRANSPORT_HEADER_LEN {
            return Err(Error::InvalidParam);
        }
        out[0] = self.version;
        out[1] = self.device_id;
        out[2] = self.sequence;
        out[3] = self.flags;
        out[4] = self.payload_len;
        Ok(TRANSPORT_HEADER_LEN)
    }

    /// Decode a header from a full frame buffer.
    pub fn decode(frame: &[u8]) -> (r: Result<Self, Error>)
        ensures
            r == (if frame_ok(frame@) {
                Ok(raw_header(frame@))
            } else {
                Err(Error::InvalidParam)
            }),
    {
        if frame.len() < TRANSPORT_HEADER_LEN {
            return Err(Error::InvalidParam);
        }
        let header = TransportHeader {
            version: frame[0],
            device_id: frame[1],
            sequence: frame[2],
            flags: frame[3],
            payload_len: frame[4],
        };
        if header.version != TRANSPORT_VERSION {
            return Err(Error::InvalidParam);
        }
        if header.flags & !FLAGS_V1_MASK != 0 {
            return Err(Error::InvalidParam);
        }
        let total_len: usize = TRANSPORT_HEADER_LEN + header.payload_len as usize;
        if frame.len() < total_len {
            return Err(Error::InvalidParam);
        }
        Ok(header)
    }
}

/// A complete frame on the wire.
pub open spec fn frame_of(device_id: u8, sequence: u8, flags: u8, payload: Seq<u8>) -> Seq<u8> {
    (TransportHeader {
        version: TRANSPORT_VERSION,
        device_id,
        sequence,
        flags,
        payload_len: payload.len() as u8,
    }).encoded() + payload
}

/// Encode a complete frame into `out`, and return its length. A refused frame
/// leaves `out` unchanged.
pub fn encode_frame(device_id: u8, sequence: u8, flags: u8, payload: &[u8], out: &mut [u8]) -> (r:
    Result<usize, Error>)
    ensures
        r == (if payload@.len() <= MAX_TRANSPORT_PAYLOAD_LEN && flags_ok(flags) && old(out)@.len()
            >= TRANSPORT_HEADER_LEN + payload@.len() {
            Ok((TRANSPORT_HEADER_LEN + payload@.len()) as usize)
        } else {
            Err(Error::InvalidParam)
        }),
        final(out)@ == (if r is Ok {
            bytes::splice(old(out)@, 0, frame_of(device_id, sequence, flags, payload@))
        } else {
            old(out)@
        }),
{
    let header = match TransportHeader::new(device_id, sequence, flags, payload.len()) {
        Ok(header) => header,
        Err(e) => {
            return Err(e);
        },
    };
    let total_len: usize = TRANSPORT_HEADER_LEN + payload.len();
    if out.len() < total_len {
        return Err(Error::InvalidParam);
    }
    match header.encode_into(out) {
        Ok(_) => {},
        Err(e) => {
            return Err(e);
        },
    }
    copy_into(out, TRANSPORT_HEADER_LEN, payload);
    Ok(total_len)
}

/// Decode a complete frame into `(header, payload)`. Bytes behind the announced
/// payload are ignored.
pub fn decode_frame(frame: &[u8]) -> (r: Result<(TransportHeader, &[u8]), Error>)
    ensures
        match r {
            Ok((header, payload)) => frame_ok(frame@) && header == raw_header(frame@) && payload@
                == frame_payload(frame@),
            Err(e) => !frame_ok(frame@) && e == Error::InvalidParam,
        },
{
    let header = match TransportHeader::decode(frame) {
        Ok(header) => header,
        Err(e) => {
            return Err(e);
        },
    };
    let start: usize = TRANSPORT_HEADER_LEN;
    let end: usize = start + header.payload_len as usize;
    Ok((header, &frame[start..end]))
}

/// An encoded frame decodes to the same device, sequence, flags and payload,
/// whatever follows it in the buffer.
pub proof fn law_frame_round_trip(
    device_id: u8,
    sequence: u8,
    flags: u8,
    payload: Seq<u8>,
    tail: Seq<u8>,
)
    requires
        payload.len() <= MAX_TRANSPORT_PAYLOAD_LEN,
        flags_ok(flags),
    ensures
        ({
            let frame = frame_of(device_id, sequence, flags, payload) + tail;
            &&& frame_ok(frame)
            &&& raw_header(frame) == (TransportHeader {
                version: TRANSPORT_VERSION,
                device_id,
                sequence,
                flags,
                payload_len: payload.len() as u8,
            })
            &&& frame_payload(frame) == payload
        }),
{
    let frame = frame_of(device_id, sequence, flags, payload) + tail;
    assert(frame_payload(frame) =~= payload);
}

/// A framed payload that passed validation fits into the ESB payload.
pub proof fn law_validated_frame_fits(
    esb_len: u8,
    device_id: u8,
    sequence: u8,
    flags: u8,
    payload: Seq<u8>,
)
    requires
        fits(esb_len, payload.len() as int),
    ensures
        payload.len() <= MAX_TRANSPORT_PAYLOAD_LEN,
        frame_of(device_id, sequence, flags, payload).len() <= esb_len <= EsbHeader::MAX_PAYLOAD,
{
}

/// Application-level acknowledgement for one accepted transport frame.
#[derive(Debug, Clone, Copy, PartialEq, Eq, Structural)]
pub struct TransportAck {
    /// Device that sent the frame.
    pub device_id: u8,
    /// Sequence number of the frame.
    pub sequence: u8,
}

impl TransportAck {
    /// The acknowledgement on the wire.
    pub open spec fn encoded(self) -> Seq<u8> {
        bytes::u16_le(TRANSPORT_ACK_MAGIC) + seq![self.device_id, self.sequence]
    }

    /// Acknowledge one frame of one device.
    pub fn new(device_id: u8, sequence: u8) -> (a: Self)
        ensures
            a == (TransportAck { device_id, sequence }),
    {
        TransportAck { device_id, sequence }
    }

    /// Whether this acknowledges the given frame.
    pub fn matches(self, device_id: u8, sequence: u8) -> (r: bool)
        ensures
            r == (self == TransportAck { device_id, sequence }),
    {
        self.device_id == device_id && self.sequence == sequence
    }
}

/// What decoding an acknowledgement gives.
pub open spec fn decoded_ack(buf: Seq<u8>) -> Result<TransportAck, Error> {
    if buf.len() < TRANSPORT_ACK_LEN || bytes::u16_at(buf, 0) != TRANSPORT_ACK_MAGIC {
        Err(Error::InvalidParam)
    } else {
        Ok(TransportAck { device_id: buf[2], sequence: buf[3] })
    }
}

/// Encode a transport acknowledgement into `out`.
pub fn encode_transport_ack(ack: TransportAck, out: &mut [u8]) -> (r: Result<(), Error>)
    ensures
        r == (if old(out)@.len() < TRANSPORT_ACK_LEN {
            Err(Error::InvalidParam)
        } else {
            Ok(())
        }),
        final(out)@ == (if r is Ok {
            bytes::splice(old(out)@, 0, ack.encoded())
        } else {
            old(out)@
        }),
{
    if out.len() < TRANSPORT_ACK_LEN {
        return Err(Error::InvalidParam);
    }
    put_u16_le(out, 0, TRANSPORT_ACK_MAGIC);
    out[2] = ack.device_id;
    out[3] = ack.sequence;
    Ok(())
}

/// Decode a transport acknowledgement from `buf`.
pub fn decode_transport_ack(buf: &[u8]) -> (r: Result<TransportAck, Error>)
    ensures
        r == decoded_ack(buf@),
{
    if buf.len() < TRANSPORT_ACK_LEN {
        return Err(Error::InvalidParam);
    }
    let magic: u16 = get_u16_le(buf, 0);
    if magic != TRANSPORT_ACK_MAGIC {
        return Err(Error::InvalidParam);
    }
    Ok(TransportAck::new(buf[2], buf[3]))
}

/// An encoded acknowledgement decodes to itself, whatever follows it.
pub proof fn law_ack_round_trip(ack: TransportAck, tail: Seq<u8>)
    ensures
        decoded_ack(ack.encoded() + tail) == Ok::<TransportAck, Error>(ack),
{
    bytes::lemma_u16_round_trip(TRANSPORT_ACK_MAGIC);
}

/// What a receiver does with a frame on `pipe`: the decoded frame, nothing for a
/// duplicate, or an error for a malformed, misrouted or untracked one.
pub open spec fn frame_verdict(
    bindings: Seq<Option<u8>>,
    tracker: Seq<Option<u8>>,
    pipe: u8,
    frame: Seq<u8>,
) -> Result<Option<(TransportHeader, Seq<u8>)>, Error> {
    let header = raw_header(frame);
    if !frame_ok(frame) || pipe >= bindings.len() || bindings[pipe as int] != Some(header.device_id)
        || header.device_id >= tracker.len() {
        Err(Error::InvalidParam)
    } else if tracker[header.device_id as int] == Some(header.sequence) {
        Ok(None)
    } else {
        Ok(Some((header, frame_payload(frame))))
    }
}

/// Decode and validate a frame received on `pipe`.
///
/// 1. Decode the transport header.
/// 2. Check the static `pipe -> device_id` binding.
/// 3. Drop duplicate `device_id + sequence` messages.
///
/// Returns `Ok(Some(...))` for a new accepted frame, `Ok(None)` for a duplicate,
/// and `Err(Error::InvalidParam)` for malformed frames, binding mismatches, or
/// device ids outside the sequence tracker.
pub fn accept_bound_frame<'a, const PIPES: usize, const DEVICES: usize>(
    bindings: &StaticBindingTable<PIPES>,
    tracker: &mut SequenceTracker<DEVICES>,
    pipe: u8,
    frame: &'a [u8],
) -> (r: Result<Option<(TransportHeader, &'a [u8])>, Error>)
    ensures
        match r {
            Ok(Some((header, payload))) => frame_verdict(bindings@, old(tracker)@, pipe, frame@)
                == Ok::<_, Error>(Some((header, payload@))),
            Ok(None) => frame_verdict(bindings@, old(tracker)@, pipe, frame@) == Ok::<_, Error>(
                Option::<(TransportHeader, Seq<u8>)>::None,
            ),
            Err(e) => frame_verdict(bindings@, old(tracker)@, pipe, frame@) == Err::<
                Option<(TransportHeader, Seq<u8>)>,
                Error,
            >(e),
        },
        final(tracker)@ == (match r {
            Ok(Some((header, payload))) => old(tracker)@.update(
                header.device_id as int,
                Some(header.sequence),
            ),
            _ => old(tracker)@,
        }),
{
    proof {
        law_table_sizes(*bindings, *old(tracker));
    }
    let (header, payload) = match decode_frame(frame) {
        Ok(decoded) => decoded,
        Err(e) => {
            return Err(e);
        },
    };
    match bindings.accepts(pipe, header.device_id) {
        Ok(true) => {},
        Ok(false) => {
            return Err(Error::InvalidParam);
        },
        Err(e) => {
            return Err(e);
        },
    }
    match tracker.accept(header.device_id, header.sequence) {
        Ok(true) => Ok(Some((header, payload))),
        Ok(false) => Ok(None),
        Err(e) => Err(e),
    }
}

/// Tables have as many entries as their type says.
pub proof fn law_table_sizes<const PIPES: usize, const DEVICES: usize>(
    bindings: StaticBindingTable<PIPES>,
    tracker: SequenceTracker<DEVICES>,
)
    ensures
        bindings@.len() == PIPES,
        tracker@.len() == DEVICES,
{
}

/// A frame that was accepted is dropped when it comes again before another
/// frame of its device, and frames of other devices are judged as before.
pub proof fn law_frame_accepted_once(
    bindings: Seq<Option<u8>>,
    tracker: Seq<Option<u8>>,
    pipe: u8,
    frame: Seq<u8>,
    other_pipe: u8,
    other: Seq<u8>,
)
    requires
        frame_verdict(bindings, tracker, pipe, frame) matches Ok(Some(_)),
    ensures
        ({
            let h = raw_header(frame);
            let after = tracker.update(h.device_id as int, Some(h.sequence));
            &&& frame_verdict(bindings, after, pipe, frame) == Ok::<_, Error>(
                Option::<(TransportHeader, Seq<u8>)>::None,
            )
            &&& other[1] != frame[1] ==> frame_verdict(bindings, after, other_pipe, other)
                == frame_verdict(bindings, tracker, other_pipe, other)
            &&& other[1] == frame[1] && other[2] != frame[2] ==> !(frame_verdict(
                bindings,
                after,
                other_pipe,
                other,
            ) matches Ok(None))
        }),
{
}

/// A frame is accepted only on the pipe that its device is bound to.
pub proof fn law_frame_needs_binding(
    bindings: Seq<Option<u8>>,
    tracker: Seq<Option<u8>>,
    pipe: u8,
    frame: Seq<u8>,
)
    ensures
        frame_verdict(bindings, tracker, pipe, frame) is Ok ==> pipe < bindings.len()
            && bindings[pipe as int] == Some(raw_header(frame).device_id),
{
}

/// What a tracker answers to a sequence number of a device: whether it is new, or
/// an error for a device that it does not know.
pub open spec fn sequence_verdict(tracker: Seq<Option<u8>>, device_id: u8, sequence: u8) -> Result<
    bool,
    Error,
> {
    if device_id < tracker.len() {
        Ok(tracker[device_id as int] != Some(sequence))
    } else {
        Err(Error::InvalidParam)
    }
}

/// A tracker after a sequence number of a device.
pub open spec fn sequence_noted(
    tracker: Seq<Option<u8>>,
    device_id: u8,
    sequence: u8,
) -> Seq<Option<u8>> {
    if device_id < tracker.len() {
        tracker.update(device_id as int, Some(sequence))
    } else {
        tracker
    }
}

/// A table with one entry cleared, if it has that entry.
pub open spec fn cleared(table: Seq<Option<u8>>, index: u8) -> Seq<Option<u8>> {
    if index < table.len() {
        table.update(index as int, None)
    } else {
        table
    }
}

/// A tracker remembers the last sequence number of each device: only that one is
/// a duplicate afterwards, older ones and zero are new again, and what it says of
/// the other devices stays. Only a new sequence number changes it.
pub proof fn law_tracker_remembers_last<const N: usize>(
    tracker: SequenceTracker<N>,
    device_id: u8,
    sequence: u8,
    other_device: u8,
    next: u8,
)
    ensures
        ({
            let after = sequence_noted(tracker@, device_id, sequence);
            &&& sequence_verdict(tracker@, device_id, sequence) is Err <==> device_id >= N
            &&& sequence_verdict(tracker@, device_id, sequence) != Ok::<bool, Error>(true)
                ==> after == tracker@
            &&& device_id < N ==> sequence_verdict(after, device_id, next) == Ok::<bool, Error>(
                next != sequence,
            )
            &&& other_device != device_id ==> sequence_verdict(after, other_device, next)
                == sequence_verdict(tracker@, other_device, next)
            &&& after.len() == N
        }),
{
    assert(device_id < N && tracker@[device_id as int] == Some(sequence) ==> sequence_noted(
        tracker@,
        device_id,
        sequence,
    ) =~= tracker@);
}

/// A device that was reset has no last sequence number: every one is new, zero as
/// well. What the tracker says of the other devices stays.
pub proof fn law_reset_device_forgets<const N: usize>(
    tracker: SequenceTracker<N>,
    device_id: u8,
    other_device: u8,
    next: u8,
)
    ensures
        ({
            let after = cleared(tracker@, device_id);
            &&& device_id < N ==> sequence_verdict(after, device_id, next) == Ok::<bool, Error>(
                true,
            )
            &&& device_id >= N ==> after == tracker@
            &&& other_device != device_id ==> sequence_verdict(after, other_device, next)
                == sequence_verdict(tracker@, other_device, next)
            &&& after.len() == N
        }),
{
}

/// The device that a table allows on a pipe, or an error for a pipe it does not have.
pub open spec fn device_bound(table: Seq<Option<u8>>, pipe: u8) -> Result<Option<u8>, Error> {
    if pipe < table.len() {
        Ok(table[pipe as int])
    } else {
        Err(Error::InvalidParam)
    }
}

/// A pipe that was unbound has no device and accepts none, the other pipes keep
/// theirs, and unbinding it again changes nothing.
pub proof fn law_unbind_frees_pipe<const N: usize>(
    table: StaticBindingTable<N>,
    pipe: u8,
    other_pipe: u8,
)
    ensures
        ({
            let after = cleared(table@, pipe);
            &&& pipe < N ==> device_bound(after, pipe) == Ok::<Option<u8>, Error>(None)
            &&& pipe >= N ==> after == table@
            &&& other_pipe != pipe ==> device_bound(after, other_pipe) == device_bound(
                table@,
                other_pipe,
            )
            &&& device_bound(table@, pipe) == Ok::<Option<u8>, Error>(None) ==> after == table@
            &&& after.len() == N
        }),
{
    assert(device_bound(table@, pipe) == Ok::<Option<u8>, Error>(None) ==> cleared(table@, pipe)
        =~= table@);
}

/// A pipe that was bound accepts its device and no other, and the other pipes keep
/// theirs.
pub proof fn law_bind_routes_pipe<const N: usize>(
    table: StaticBindingTable<N>,
    pipe: u8,
    device_id: u8,
    other_pipe: u8,
)
    requires
        pipe < N,
    ensures
        ({
            let after = table@.update(pipe as int, Some(device_id));
            &&& device_bound(after, pipe) == Ok::<Option<u8>, Error>(Some(device_id))
            &&& other_pipe != pipe ==> device_bound(after, other_pipe) == device_bound(
                table@,
                other_pipe,
            )
            &&& after.len() == N
        }),
{
}

/// Per-device sequence tracker for duplicate suppression above ESB PID/CRC.
///
/// Its view is the last sequence number of each device that has sent.
#[derive(Debug, Clone, Copy)]
pub struct SequenceTracker<const N: usize> {
    valid: [bool; N],
    last: [u8; N],
}

impl<const N: usize> View for SequenceTracker<N> {
    type V = Seq<Option<u8>>;

    closed spec fn view(&self) -> Seq<Option<u8>> {
        Seq::new(
            N as nat,
            |i: int|
                if self.valid@[i] {
                    Some(self.last@[i])
                } else {
                    None
                },
        )
    }
}

impl<const N: usize> SequenceTracker<N> {
    /// Create an empty tracker.
    pub fn new() -> (t: Self)
        ensures
            t@ == Seq::new(N as nat, |i: int| Option::<u8>::None),
    {
        SequenceTracker { valid: [false; N], last: [0u8; N] }
    }

    /// Return `Ok(true)` for a new sequence, `Ok(false)` for a duplicate.
    pub fn accept(&mut self, device_id: u8, sequence: u8) -> (r: Result<bool, Error>)
        ensures
            old(self)@.len() == N,
            final(self)@.len() == N,
            r == sequence_verdict(old(self)@, device_id, sequence),
            final(self)@ == sequence_noted(old(self)@, device_id, sequence),
            r != Ok::<bool, Error>(true) ==> final(self)@ == old(self)@,
    {
        let index: usize = device_id as usize;
        if index >= N {
            return Err(Error::InvalidParam);
        }
        if self.valid[index] && self.last[index] == sequence {
            assert(self@ =~= old(self)@.update(device_id as int, Some(sequence)));
            return Ok(false);
        }
        self.valid[index] = true;
        self.last[index] = sequence;
        assert(self@ =~= old(self)@.update(device_id as int, Some(sequence)));
        Ok(true)
    }

    /// Clear one device entry.
    pub fn reset_device(&mut self, device_id: u8) -> (r: Result<(), Error>)
        ensures
            r == (if device_id < N {
                Ok(())
            } else {
                Err(Error::InvalidParam)
            }),
            old(self)@.len() == N,
            final(self)@.len() == N,
            final(self)@ == cleared(old(self)@, device_id),
    {
        let index: usize = device_id as usize;
        if index >= N {
            return Err(Error::InvalidParam);
        }
        self.valid[index] = false;
        self.last[index] = 0;
        assert(self@ =~= old(self)@.update(device_id as int, None));
        Ok(())
    }
}

impl<const N: usize> Default for SequenceTracker<N> {
    fn default() -> (t: Self)
        ensures
            t@ == Seq::new(N as nat, |i: int| Option::<u8>::None),
    {
        SequenceTracker::new()
    }
}

/// Static binding table for validating `pipe -> device_id` routing.
///
/// Each entry maps a local ESB pipe to the application-level device id that is
/// allowed to send frames on that pipe.
#[derive(Debug, Clone, Copy)]
pub struct StaticBindingTable<const N: usize> {
    pipe_to_device: [Option<u8>; N],
}

impl<const N: usize> View for StaticBindingTable<N> {
    type V = Seq<Option<u8>>;

    closed spec fn view(&self) -> Seq<Option<u8>> {
        self.pipe_to_device@
    }
}

impl<const N: usize> StaticBindingTable<N> {
    /// Create an empty binding table.
    pub fn new() -> (t: Self)
        ensures
            t@ == Seq::new(N as nat, |i: int| Option::<u8>::None),
    {
        StaticBindingTable { pipe_to_device: [None; N] }
    }

    /// Create a binding table from pipe-indexed entries.
    pub fn from_pipe_entries(pipe_to_device: [Option<u8>; N]) -> (t: Self)
        ensures
            t@ == pipe_to_device@,
    {
        StaticBindingTable { pipe_to_device }
    }

    /// Bind one pipe to one device id.
    pub fn bind(&mut self, pipe: u8, device_id: u8) -> (r: Result<(), Error>)
        ensures
            r == (if pipe < N {
                Ok(())
            } else {
                Err(Error::InvalidParam)
            }),
            final(self)@ == (if pipe < N {
                old(self)@.update(pipe as int, Some(device_id))
            } else {
                old(self)@
            }),
            old(self)@.len() == N,
            final(self)@.len() == N,
    {
        let index: usize = pipe as usize;
        if index >= N {
            return Err(Error::InvalidParam);
        }
        self.pipe_to_device[index] = Some(device_id);
        Ok(())
    }

    /// Clear one pipe binding.
    pub fn unbind(&mut self, pipe: u8) -> (r: Result<(), Error>)
        ensures
            r == (if pipe < N {
                Ok(())
            } else {
                Err(Error::InvalidParam)
            }),
            old(self)@.len() == N,
            final(self)@.len() == N,
            final(self)@ == cleared(old(self)@, pipe),
    {
        let index: usize = pipe as usize;
        if index >= N {
            return Err(Error::InvalidParam);
        }
        self.pipe_to_device[index] = None;
        Ok(())
    }

    /// Return the device bound to `pipe`, if any.
    pub fn device_for_pipe(&self, pipe: u8) -> (r: Result<Option<u8>, Error>)
        ensures
            self@.len() == N,
            r == device_bound(self@, pipe),
    {
        let index: usize = pipe as usize;
        if index >= N {
            return Err(Error::InvalidParam);
        }
        Ok(self.pipe_to_device[index])
    }

    /// Check whether a frame from `device_id` is allowed on `pipe`.
    pub fn accepts(&self, pipe: u8, device_id: u8) -> (r: Result<bool, Error>)
        ensures
            self@.len() == N,
            r == (if pipe < N {
                Ok(self@[pipe as int] == Some(device_id))
            } else {
                Err(Error::InvalidParam)
            }),
    {
        match self.device_for_pipe(pipe) {
            Ok(Some(bound)) => Ok(bound == device_id),
            Ok(None) => Ok(false),
            Err(e) => Err(e),
        }
    }
}

impl<const N: usize> Default for StaticBindingTable<N> {
    fn default() -> (t: Self)
        ensures
            t@ == Seq::new(N as nat, |i: int| Option::<u8>::None),
    {
        StaticBindingTable::new()
    }
}

/// Where the parts of a frame and of an acknowledgement stand on the wire.
pub proof fn law_wire_layout(
    device_id: u8,
    sequence: u8,
    flags: u8,
    payload: Seq<u8>,
    ack: TransportAck,
    i: int,
)
    requires
        payload.len() <= MAX_TRANSPORT_PAYLOAD_LEN,
        0 <= i < payload.len(),
    ensures
        ({
            let frame = frame_of(device_id, sequence, flags, payload);
            &&& frame.len() == 5 + payload.len()
            &&& frame[0] == TRANSPORT_VERSION
            &&& frame[1] == device_id
            &&& frame[2] == sequence
            &&& frame[3] == flags
            &&& frame[4] == payload.len()
            &&& frame[5 + i] == payload[i]
        }),
        ack.encoded().len() == 4,
        bytes::u16_at(ack.encoded(), 0) == TRANSPORT_ACK_MAGIC,
        ack.encoded()[2] == ack.device_id,
        ack.encoded()[3] == ack.sequence,
{
    bytes::lemma_u16_round_trip(TRANSPORT_ACK_MAGIC);
}

/// A frame is decoded exactly from bytes that begin with its encoding, and so is an
/// acknowledgement.
pub proof fn law_only_encodings_decode(frame: Seq<u8>, buf: Seq<u8>)
    ensures
        frame_ok(frame) ==> frame_of(
            raw_header(frame).device_id,
            raw_header(frame).sequence,
            raw_header(frame).flags,
            frame_payload(frame),
        ) == frame.take(5 + frame[4]),
        decoded_ack(buf) matches Ok(ack) ==> ack.encoded() == buf.take(4),
{
    if frame_ok(frame) {
        assert(frame_of(
            raw_header(frame).device_id,
            raw_header(frame).sequence,
            raw_header(frame).flags,
            frame_payload(frame),
        ) =~= frame.take(5 + frame[4]));
    }
    if let Ok(ack) = decoded_ack(buf) {
        bytes::lemma_u16_bytes(buf, 0);
        assert(ack.encoded() =~= buf.take(4));
    }
}

} // verus!
