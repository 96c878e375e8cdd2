//! The attribute server of the keyboard: a name, an appearance and a HID service
//! with one input report.

use crate::bytes;
use crate::bytes::get_u16_le;
use vstd::prelude::*;

verus! {

/// Handle of the input report.
pub const HID_REPORT_HANDLE: u16 = 12;

/// Handle of the switch for its notifications.
pub const HID_REPORT_CCCD_HANDLE: u16 = 14;

/// Longest piece of a value in one response.
pub const ATT_VALUE_CHUNK: usize = 22;

/// Error: the request is malformed.
pub const ATT_INVALID_PDU: u8 = 0x04;

/// Error: the request is not supported.
pub const ATT_NOT_SUPPORTED: u8 = 0x06;

/// Error: the offset is past the value.
pub const ATT_INVALID_OFFSET: u8 = 0x07;

/// Error: there is no such attribute.
pub const ATT_NOT_FOUND: u8 = 0x0a;

/// The report map: a keyboard with eight modifiers and six keys.
pub open spec fn report_map() -> Seq<u8> {
    seq![
        0x05, 0x01, 0x09, 0x06, 0xa1, 0x01, 0x85, 0x01,
        0x05, 0x07, 0x19, 0xe0, 0x29, 0xe7, 0x15, 0x00,
        0x25, 0x01, 0x75, 0x01, 0x95, 0x08, 0x81, 0x02,
        0x95, 0x01, 0x75, 0x08, 0x81, 0x01, 0x95, 0x06,
        0x75, 0x08, 0x15, 0x00, 0x25, 0x65, 0x05, 0x07,
        0x19, 0x00, 0x29, 0x65, 0x81, 0x00, 0xc0,
    ]
}

/// The report map.
fn hid_report_map() -> (r: [u8; 47])
    ensures
        r@ == report_map(),
{
    let r: [u8; 47] = [
        0x05, 0x01, 0x09, 0x06, 0xa1, 0x01, 0x85, 0x01,
        0x05, 0x07, 0x19, 0xe0, 0x29, 0xe7, 0x15, 0x00,
        0x25, 0x01, 0x75, 0x01, 0x95, 0x08, 0x81, 0x02,
        0x95, 0x01, 0x75, 0x08, 0x81, 0x01, 0x95, 0x06,
        0x75, 0x08, 0x15, 0x00, 0x25, 0x65, 0x05, 0x07,
        0x19, 0x00, 0x29, 0x65, 0x81, 0x00, 0xc0,
    ];
    assert(r@ =~= report_map());
    r
}

/// The name of the device: "Elytra ESB".
pub open spec fn device_name() -> Seq<u8> {
    seq![0x45u8, 0x6c, 0x79, 0x74, 0x72, 0x61, 0x20, 0x45, 0x53, 0x42]
}

/// Handles and types of the attributes inside the services.
pub open spec fn attributes() -> Seq<(u16, u16)> {
    seq![
        (2u16, 0x2803u16),
        (3u16, 0x2a00u16),
        (4u16, 0x2803u16),
        (5u16, 0x2a01u16),
        (7u16, 0x2803u16),
        (8u16, 0x2a4eu16),
        (9u16, 0x2803u16),
        (10u16, 0x2a4bu16),
        (11u16, 0x2803u16),
        (12u16, 0x2a4du16),
        (13u16, 0x2908u16),
        (14u16, 0x2902u16),
        (15u16, 0x2803u16),
        (16u16, 0x2a4au16),
        (17u16, 0x2803u16),
        (18u16, 0x2a4cu16),
    ]
}

/// Declaration, properties, value handle and type of the characteristics.
pub open spec fn characteristics() -> Seq<(u16, u8, u16, u16)> {
    seq![
        (2u16, 0x02u8, 3u16, 0x2a00u16),
        (4u16, 0x02u8, 5u16, 0x2a01u16),
        (7u16, 0x06u8, 8u16, 0x2a4eu16),
        (9u16, 0x02u8, 10u16, 0x2a4bu16),
        (11u16, 0x12u8, 12u16, 0x2a4du16),
        (15u16, 0x02u8, 16u16, 0x2a4au16),
        (17u16, 0x04u8, 18u16, 0x2a4cu16),
    ]
}

/// An error response.
pub open spec fn att_error(req: u8, attr: u16, err: u8) -> Seq<u8> {
    seq![0x01u8, req] + bytes::u16_le(attr) + seq![err]
}

/// The handle in a request, or zero.
pub open spec fn request_handle(pdu: Seq<u8>) -> u16 {
    if pdu.len() >= 3 {
        bytes::u16_at(pdu, 1)
    } else {
        0
    }
}

/// The range of handles in a request.
pub open spec fn request_range(pdu: Seq<u8>) -> Option<(u16, u16)> {
    if pdu.len() >= 5 {
        Some((bytes::u16_at(pdu, 1), bytes::u16_at(pdu, 3)))
    } else {
        None
    }
}

/// The response to a search for services, which are found one at a time.
pub open spec fn group_response(pdu: Seq<u8>) -> Seq<u8> {
    match request_range(pdu) {
        None => att_error(0x10, 0, ATT_INVALID_PDU),
        Some((start, end)) => {
            if pdu.len() < 7 || pdu[5] != 0x00 || pdu[6] != 0x28 {
                att_error(0x10, start, ATT_NOT_FOUND)
            } else if start <= 1 && end >= 1 {
                seq![0x11u8, 6, 1, 0, 5, 0, 0x00, 0x18]
            } else if start <= 6 && end >= 6 {
                seq![0x11u8, 6, 6, 0, 18, 0, 0x12, 0x18]
            } else {
                att_error(0x10, start, ATT_NOT_FOUND)
            }
        },
    }
}

/// The first `n` attributes that are in range, as far as they fit in one response.
pub open spec fn found_information(start: u16, end: u16, n: int) -> Seq<u8>
    decreases n,
{
    if n <= 0 {
        seq![0x05u8, 0x01]
    } else {
        let found = found_information(start, end, n - 1);
        let (h, uuid) = attributes()[n - 1];
        if start <= h <= end && found.len() + 4 <= 22 {
            found + bytes::u16_le(h) + bytes::u16_le(uuid)
        } else {
            found
        }
    }
}

/// The response to a search for attributes.
pub open spec fn information_response(pdu: Seq<u8>) -> Seq<u8> {
    match request_range(pdu) {
        None => att_error(0x04, 0, ATT_INVALID_PDU),
        Some((start, end)) => {
            let found = found_information(start, end, 16);
            if found.len() == 2 {
                att_error(0x04, start, ATT_NOT_FOUND)
            } else {
                found
            }
        },
    }
}

/// The first `n` characteristics that are in range, as far as they fit in one
/// response.
pub open spec fn found_characteristics(start: u16, end: u16, n: int) -> Seq<u8>
    decreases n,
{
    if n <= 0 {
        seq![0x09u8, 7]
    } else {
        let found = found_characteristics(start, end, n - 1);
        let (decl, props, value, uuid) = characteristics()[n - 1];
        if start <= decl <= end && found.len() + 7 <= 23 {
            found + bytes::u16_le(decl) + seq![props] + bytes::u16_le(value) + bytes::u16_le(uuid)
        } else {
            found
        }
    }
}

/// The response to a read by type.
pub open spec fn type_response(pdu: Seq<u8>) -> Seq<u8> {
    match request_range(pdu) {
        None => att_error(0x08, 0, ATT_INVALID_PDU),
        Some((start, end)) => {
            if pdu.len() < 7 {
                att_error(0x08, start, ATT_INVALID_PDU)
            } else {
                let uuid = bytes::u16_at(pdu, 5);
                let found = found_characteristics(start, end, 7);
                if uuid == 0x2803 && found.len() > 2 {
                    found
                } else if uuid == 0x2a00 && start <= 3 && end >= 3 {
                    seq![0x09u8, 0x0f, 0x03, 0x00] + device_name()
                } else {
                    att_error(0x08, start, ATT_NOT_FOUND)
                }
            }
        },
    }
}

/// The value of an attribute.
pub open spec fn value_of(attr: u16, notify: bool) -> Option<Seq<u8>> {
    match attr {
        3u16 => Some(device_name()),
        5u16 => Some(seq![0xc1u8, 0x03]),
        8u16 => Some(seq![1u8]),
        10u16 => Some(report_map()),
        12u16 => Some(seq![0u8, 0, 0, 0, 0, 0, 0, 0]),
        13u16 => Some(seq![1u8, 1]),
        14u16 => Some(
            seq![
                if notify {
                    1u8
                } else {
                    0u8
                },
                0u8,
            ],
        ),
        16u16 => Some(seq![0x11u8, 0x01, 0x00, 0x03]),
        _ => None,
    }
}

/// A piece of a value from `offset` on, with an opcode in front.
pub open spec fn piece(opcode: u8, value: Seq<u8>, offset: int) -> Seq<u8> {
    seq![opcode] + value.subrange(
        offset,
        if value.len() - offset <= ATT_VALUE_CHUNK {
            value.len() as int
        } else {
            offset + ATT_VALUE_CHUNK
        },
    )
}

/// The response to a read.
pub open spec fn read_response(pdu: Seq<u8>, notify: bool) -> Seq<u8> {
    let attr = request_handle(pdu);
    match value_of(attr, notify) {
        Some(value) => piece(0x0b, value, 0),
        None => att_error(0x0a, attr, ATT_NOT_FOUND),
    }
}

/// The response to a read from an offset on, which only the report map allows.
pub open spec fn blob_response(pdu: Seq<u8>) -> Seq<u8> {
    if pdu.len() < 5 {
        att_error(0x0c, 0, ATT_INVALID_PDU)
    } else {
        let attr = bytes::u16_at(pdu, 1);
        let offset = bytes::u16_at(pdu, 3);
        if attr != 10 {
            att_error(0x0c, attr, ATT_NOT_FOUND)
        } else if offset > report_map().len() {
            att_error(0x0c, attr, ATT_INVALID_OFFSET)
        } else {
            piece(0x0d, report_map(), offset as int)
        }
    }
}

/// The response to a PDU, if there is one.
pub open spec fn att_response(pdu: Seq<u8>, notify: bool) -> Option<Seq<u8>> {
    if pdu.len() == 0 {
        None
    } else {
        match pdu[0] {
            0x02u8 => Some(seq![0x03u8, 23, 0]),
            0x04u8 => Some(information_response(pdu)),
            0x08u8 => Some(type_response(pdu)),
            0x0au8 => Some(read_response(pdu, notify)),
            0x0cu8 => Some(blob_response(pdu)),
            0x10u8 => Some(group_response(pdu)),
            0x12u8 => if pdu.len() < 3 {
                None
            } else {
                Some(seq![0x13u8])
            },
            0x52u8 => None,
            opcode => Some(att_error(opcode, request_handle(pdu), ATT_NOT_SUPPORTED)),
        }
    }
}

/// Whether notifications are on after a PDU.
pub open spec fn notify_after(pdu: Seq<u8>, notify: bool) -> bool {
    if pdu.len() >= 5 && (pdu[0] == 0x12 || pdu[0] == 0x52) && bytes::u16_at(pdu, 1)
        == HID_REPORT_CCCD_HANDLE {
        pdu[3] & 0x01 != 0
    } else {
        notify
    }
}

/// Append a little-endian number.
pub(crate) fn push_u16(out: &mut Vec<u8>, x: u16)
    ensures
        final(out)@ == old(out)@ + bytes::u16_le(x),
{
    out.push((x % 256) as u8);
    out.push((x / 256) as u8);
    assert(out@ =~= old(out)@ + bytes::u16_le(x));
}

/// Append bytes.
pub(crate) fn push_all(out: &mut Vec<u8>, src: &[u8])
    ensures
        final(out)@ == old(out)@ + src@,
{
    let mut i: usize = 0;
    assert(old(out)@ + src@.take(0) =~= old(out)@);
    while i < src.len()
        invariant
            i <= src@.len(),
            out@ == old(out)@ + src@.take(i as int),
        decreases src@.len() - i,
    {
        out.push(src[i]);
        assert(src@.take(i as int + 1) =~= src@.take(i as int).push(src@[i as int]));
        assert(out@ =~= old(out)@ + src@.take(i as int + 1));
        i = i + 1;
    }
    assert(src@.take(i as int) =~= src@);
}

/// An error response.
fn error(req: u8, attr: u16, err: u8) -> (r: Vec<u8>)
    ensures
        r@ == att_error(req, attr, err),
{
    let mut r: Vec<u8> = Vec::new();
    r.push(0x01);
    r.push(req);
    push_u16(&mut r, attr);
    r.push(err);
    assert(r@ =~= att_error(req, attr, err));
    r
}

/// The handle in a request, or zero.
pub fn req_handle(pdu: &[u8]) -> (r: u16)
    ensures
        r == request_handle(pdu@),
{
    if pdu.len() >= 3 {
        get_u16_le(pdu, 1)
    } else {
        0
    }
}

/// The range of handles in a request.
pub fn att_range(pdu: &[u8]) -> (r: Option<(u16, u16)>)
    ensures
        r == request_range(pdu@),
{
    if pdu.len() >= 5 {
        Some((get_u16_le(pdu, 1), get_u16_le(pdu, 3)))
    } else {
        None
    }
}

/// Search for a service.
pub fn handle_read_by_group_type(pdu: &[u8]) -> (r: Vec<u8>)
    ensures
        r@ == group_response(pdu@),
{
    let (start, end) = match att_range(pdu) {
        Some((start, end)) => (start, end),
        None => {
            return error(0x10, 0, ATT_INVALID_PDU);
        },
    };
    if pdu.len() < 7 || pdu[5] != 0x00 || pdu[6] != 0x28 {
        return error(0x10, start, ATT_NOT_FOUND);
    }
    if start <= 1 && end >= 1 {
        vec![0x11, 6, 1, 0, 5, 0, 0x00, 0x18]
    } else if start <= 6 && end >= 6 {
        vec![0x11, 6, 6, 0, 18, 0, 0x12, 0x18]
    } else {
        error(0x10, start, ATT_NOT_FOUND)
    }
}

/// Search for attributes.
pub fn handle_find_information(pdu: &[u8]) -> (r: Vec<u8>)
    ensures
        r@ == information_response(pdu@),
{
    let (start, end) = match att_range(pdu) {
        Some((start, end)) => (start, end),
        None => {
            return error(0x04, 0, ATT_INVALID_PDU);
        },
    };
    let attrs: [(u16, u16); 16] = [
        (2u16, 0x2803u16),
        (3u16, 0x2a00u16),
        (4u16, 0x2803u16),
        (5u16, 0x2a01u16),
        (7u16, 0x2803u16),
        (8u16, 0x2a4eu16),
        (9u16, 0x2803u16),
        (10u16, 0x2a4bu16),
        (11u16, 0x2803u16),
        (12u16, 0x2a4du16),
        (13u16, 0x2908u16),
        (14u16, 0x2902u16),
        (15u16, 0x2803u16),
        (16u16, 0x2a4au16),
        (17u16, 0x2803u16),
        (18u16, 0x2a4cu16),
    ];
    assert(attrs@ =~= attributes());
    let mut found: Vec<u8> = vec![0x05, 0x01];
    assert(found@ =~= found_information(start, end, 0));
    let mut i: usize = 0;
    while i < 16
        invariant
            i <= 16,
            attrs@ == attributes(),
            found@ == found_information(start, end, i as int),
            2 <= found@.len() <= 22,
        decreases 16 - i,
    {
        let (h, uuid) = attrs[i];
        if h >= start && h <= end && found.len() + 4 <= 22 {
            push_u16(&mut found, h);
            push_u16(&mut found, uuid);
        }
        i = i + 1;
    }
    if found.len() == 2 {
        error(0x04, start, ATT_NOT_FOUND)
    } else {
        found
    }
}

/// The characteristics in a range.
fn characteristics_in(start: u16, end: u16) -> (found: Vec<u8>)
    ensures
        found@ == found_characteristics(start, end, 7),
{
    let chars: [(u16, u8, u16, u16); 7] = [
        (2u16, 0x02u8, 3u16, 0x2a00u16),
        (4u16, 0x02u8, 5u16, 0x2a01u16),
        (7u16, 0x06u8, 8u16, 0x2a4eu16),
        (9u16, 0x02u8, 10u16, 0x2a4bu16),
        (11u16, 0x12u8, 12u16, 0x2a4du16),
        (15u16, 0x02u8, 16u16, 0x2a4au16),
        (17u16, 0x04u8, 18u16, 0x2a4cu16),
    ];
    assert(chars@ =~= characteristics());
    let mut found: Vec<u8> = vec![0x09, 7];
    assert(found@ =~= found_characteristics(start, end, 0));
    let mut i: usize = 0;
    while i < 7
        invariant
            i <= 7,
            chars@ == characteristics(),
            found@ == found_characteristics(start, end, i as int),
            2 <= found@.len() <= 23,
        decreases 7 - i,
    {
        let (decl, props, value, uuid) = chars[i];
        if decl >= start && decl <= end && found.len() + 7 <= 23 {
            let ghost before = found@;
            push_u16(&mut found, decl);
            found.push(props);
            push_u16(&mut found, value);
            push_u16(&mut found, uuid);
            assert(found@ =~= before + bytes::u16_le(decl) + seq![props] + bytes::u16_le(value)
                + bytes::u16_le(uuid));
        }
        i = i + 1;
    }
    found
}

/// The name of the device.
fn name() -> (r: [u8; 10])
    ensures
        r@ == device_name(),
{
    let r: [u8; 10] = [0x45, 0x6c, 0x79, 0x74, 0x72, 0x61, 0x20, 0x45, 0x53, 0x42];
    assert(r@ =~= device_name());
    r
}

/// Read attributes of a type.
pub fn handle_read_by_type(pdu: &[u8]) -> (r: Vec<u8>)
    ensures
        r@ == type_response(pdu@),
{
    let (start, end) = match att_range(pdu) {
        Some((start, end)) => (start, end),
        None => {
            return error(0x08, 0, ATT_INVALID_PDU);
        },
    };
    if pdu.len() < 7 {
        return error(0x08, start, ATT_INVALID_PDU);
    }
    let uuid: u16 = get_u16_le(pdu, 5);
    if uuid == 0x2803 {
        let found = characteristics_in(start, end);
        if found.len() > 2 {
            found
        } else {
            error(0x08, start, ATT_NOT_FOUND)
        }
    } else if uuid == 0x2a00 && start <= 3 && end >= 3 {
        let mut r: Vec<u8> = vec![0x09, 0x0f, 0x03, 0x00];
        push_all(&mut r, &name());
        assert(r@ =~= seq![0x09u8, 0x0f, 0x03, 0x00] + device_name());
        r
    } else {
        error(0x08, start, ATT_NOT_FOUND)
    }
}

/// A piece of a value from `offset` on, with an opcode in front.
fn value_piece(opcode: u8, value: &[u8], offset: usize) -> (r: Vec<u8>)
    requires
        offset <= value@.len(),
    ensures
        r@ == piece(opcode, value@, offset as int),
{
    let end: usize = if value.len() - offset <= ATT_VALUE_CHUNK {
        value.len()
    } else {
        offset + ATT_VALUE_CHUNK
    };
    let mut r: Vec<u8> = vec![opcode];
    push_all(&mut r, &value[offset..end]);
    assert(r@ =~= piece(opcode, value@, offset as int));
    r
}

/// Read a value.
pub fn handle_read(pdu: &[u8], notify: bool) -> (r: Vec<u8>)
    ensures
        r@ == read_response(pdu@, notify),
{
    let attr: u16 = req_handle(pdu);
    let value: Vec<u8> = match attr {
        3 => {
            let mut v: Vec<u8> = Vec::new();
            push_all(&mut v, &name());
            assert(v@ =~= device_name());
            v
        },
        5 => vec![0xc1, 0x03],
        8 => vec![1],
        10 => {
            let mut v: Vec<u8> = Vec::new();
            push_all(&mut v, &hid_report_map());
            assert(v@ =~= report_map());
            v
        },
        12 => vec![0, 0, 0, 0, 0, 0, 0, 0],
        13 => vec![1, 1],
        14 => vec![
            if notify {
                1
            } else {
                0
            },
            0,
        ],
        16 => vec![0x11, 0x01, 0x00, 0x03],
        _ => {
            return error(0x0a, attr, ATT_NOT_FOUND);
        },
    };
    assert(value@ =~= value_of(attr, notify)->0);
    value_piece(0x0b, &value, 0)
}

/// Read a value from an offset on.
pub fn handle_read_blob(pdu: &[u8]) -> (r: Vec<u8>)
    ensures
        r@ == blob_response(pdu@),
{
    if pdu.len() < 5 {
        return error(0x0c, 0, ATT_INVALID_PDU);
    }
    let attr: u16 = get_u16_le(pdu, 1);
    let offset: usize = get_u16_le(pdu, 3) as usize;
    if attr != 10 {
        return error(0x0c, attr, ATT_NOT_FOUND);
    }
    if offset > 47 {
        return error(0x0c, attr, ATT_INVALID_OFFSET);
    }
    value_piece(0x0d, &hid_report_map(), offset)
}

/// Take a PDU of the attribute protocol: the response, if there is one.
/// `notify` is the switch for notifications of the input report.
pub fn handle_att(pdu: &[u8], notify: &mut bool) -> (r: Option<Vec<u8>>)
    ensures
        *final(notify) == notify_after(pdu@, *old(notify)),
        match att_response(pdu@, *old(notify)) {
            Some(response) => r is Some && r->0@ == response,
            None => r is None,
        },
{
    if pdu.len() == 0 {
        return None;
    }
    match pdu[0] {
        0x02 => Some(vec![0x03, 23, 0]),
        0x04 => Some(handle_find_information(pdu)),
        0x08 => Some(handle_read_by_type(pdu)),
        0x0a => Some(handle_read(pdu, *notify)),
        0x0c => Some(handle_read_blob(pdu)),
        0x10 => Some(handle_read_by_group_type(pdu)),
        0x12 => handle_write(pdu, notify),
        0x52 => handle_write(pdu, notify),
        opcode => Some(error(opcode, req_handle(pdu), ATT_NOT_SUPPORTED)),
    }
}

/// Write a value: only the switch for notifications can be written.
pub fn handle_write(pdu: &[u8], notify: &mut bool) -> (r: Option<Vec<u8>>)
    requires
        pdu@.len() > 0,
        pdu@[0] == 0x12 || pdu@[0] == 0x52,
    ensures
        *final(notify) == notify_after(pdu@, *old(notify)),
        pdu@[0] == 0x12 && pdu@.len() >= 3 ==> r is Some && r->0@ == seq![0x13u8],
        pdu@[0] != 0x12 || pdu@.len() < 3 ==> r is None,
{
    if pdu.len() < 3 {
        return None;
    }
    let attr: u16 = get_u16_le(pdu, 1);
    if attr == HID_REPORT_CCCD_HANDLE && pdu.len() >= 5 {
        *notify = pdu[3] & 0x01 != 0;
    }
    if pdu[0] == 0x12 {
        Some(vec![0x13])
    } else {
        None
    }
}

/// No response is longer than the 23 bytes that were agreed on.
pub proof fn law_response_fits(pdu: Seq<u8>, notify: bool)
    ensures
        att_response(pdu, notify) matches Some(r) ==> 0 < r.len() <= 23,
{
    if request_range(pdu) is Some {
        let (start, end) = request_range(pdu)->0;
        lemma_found_fits(start, end, 16);
        lemma_characteristics_fit(start, end, 7);
    }
}

/// Found attributes fit.
proof fn lemma_found_fits(start: u16, end: u16, n: int)
    ensures
        2 <= found_information(start, end, n).len() <= 22,
    decreases n,
{
    if n > 0 {
        lemma_found_fits(start, end, n - 1);
    }
}

/// Found characteristics fit.
proof fn lemma_characteristics_fit(start: u16, end: u16, n: int)
    ensures
        2 <= found_characteristics(start, end, n).len() <= 23,
    decreases n,
{
    if n > 0 {
        lemma_characteristics_fit(start, end, n - 1);
    }
}

/// The report map can be read piece by piece: a first read, and one from where it
/// ended and one from where that ended, give the whole of it.
pub proof fn law_report_map_in_pieces()
    ensures
        piece(0x0b, report_map(), 0).skip(1) + piece(0x0d, report_map(), 22).skip(1) + piece(
            0x0d,
            report_map(),
            44,
        ).skip(1) == report_map(),
{
    assert(piece(0x0b, report_map(), 0).skip(1) + piece(0x0d, report_map(), 22).skip(1) + piece(
        0x0d,
        report_map(),
        44,
    ).skip(1) =~= report_map());
}

/// Switching notifications on or off takes effect, and shows in a read.
pub proof fn law_notify_switch(on: bool, before: bool)
    ensures
        ({
            let v = if on {
                1u8
            } else {
                0u8
            };
            let write = seq![0x12u8, 14, 0, v, 0];
            let read = seq![0x0au8, 14, 0];
            &&& notify_after(write, before) == on
            &&& att_response(write, before) == Some(seq![0x13u8])
            &&& att_response(read, notify_after(write, before)) == Some(seq![0x0bu8, v, 0])
        }),
{
    let v = if on {
        1u8
    } else {
        0u8
    };
    assert(1u8 & 1 != 0 && 0u8 & 1 == 0) by (bit_vector);
    let read = seq![0x0au8, 14, 0];
    assert(read_response(read, on) =~= seq![0x0bu8, v, 0]);
}

/// A request is answered with the response that belongs to it, or with an error that
/// names it.
pub proof fn law_response_belongs_to_request(pdu: Seq<u8>, notify: bool)
    requires
        pdu.len() > 0,
        pdu[0] < 255,
    ensures
        att_response(pdu, notify) matches Some(r) ==> r[0] == pdu[0] + 1 || (r.len() == 5 && r[0]
            == 0x01 && r[1] == pdu[0]),
{
    if request_range(pdu) is Some {
        let (start, end) = request_range(pdu)->0;
        lemma_found_entries(start, end, 16, 0);
        lemma_characteristic_entries(start, end, 7, 0);
    }
}

/// Found attributes come in entries of four bytes, each an attribute in range, in the
/// order of their handles.
proof fn lemma_found_entries(start: u16, end: u16, n: int, k: int)
    requires
        0 <= n <= 16,
    ensures
        ({
            let found = found_information(start, end, n);
            &&& found.len() >= 2 && (found.len() - 2) % 4 == 0
            &&& found[0] == 0x05 && found[1] == 0x01
            &&& 0 <= k < (found.len() - 2) / 4 ==> {
                &&& exists|j: int|
                    0 <= j < n && #[trigger] attributes()[j] == (
                        bytes::u16_at(found, 2 + 4 * k),
                        bytes::u16_at(found, 4 + 4 * k),
                    )
                &&& start <= bytes::u16_at(found, 2 + 4 * k) <= end
            }
        }),
    decreases n,
{
    if n > 0 {
        lemma_found_entries(start, end, n - 1, k);
        let before = found_information(start, end, n - 1);
        let found = found_information(start, end, n);
        let (h, uuid) = attributes()[n - 1];
        if found.len() > before.len() {
            bytes::lemma_u16_round_trip(h);
            bytes::lemma_u16_round_trip(uuid);
            if 0 <= k < (before.len() - 2) / 4 {
                assert(bytes::u16_at(found, 2 + 4 * k) == bytes::u16_at(before, 2 + 4 * k));
                assert(bytes::u16_at(found, 4 + 4 * k) == bytes::u16_at(before, 4 + 4 * k));
            } else if k == (before.len() - 2) / 4 {
                assert(2 + 4 * k == before.len());
                assert(attributes()[n - 1] == (
                    bytes::u16_at(found, 2 + 4 * k),
                    bytes::u16_at(found, 4 + 4 * k),
                ));
            }
        }
    }
}

/// A search for attributes lists attributes that exist and that are in the range that
/// was asked for, and finds one where there is one.
pub proof fn law_information_lists_attributes(start: u16, end: u16, k: int, j: int)
    requires
        0 <= k,
        0 <= j < 16,
    ensures
        ({
            let found = found_information(start, end, 16);
            &&& k < (found.len() - 2) / 4 ==> {
                &&& exists|i: int|
                    0 <= i < 16 && #[trigger] attributes()[i] == (
                        bytes::u16_at(found, 2 + 4 * k),
                        bytes::u16_at(found, 4 + 4 * k),
                    )
                &&& start <= bytes::u16_at(found, 2 + 4 * k) <= end
            }
            &&& start <= attributes()[j].0 <= end ==> found.len() > 2
        }),
{
    lemma_found_entries(start, end, 16, k);
    lemma_found_grows(start, end, j + 1, 16);
}

/// What was found stays found, and the first attribute in range is found.
proof fn lemma_found_grows(start: u16, end: u16, m: int, n: int)
    requires
        0 < m <= n <= 16,
    ensures
        found_information(start, end, n).len() >= found_information(start, end, m).len(),
        start <= attributes()[m - 1].0 <= end ==> found_information(start, end, m).len() > 2,
    decreases n,
{
    lemma_found_fits(start, end, m - 1);
    if n > m {
        lemma_found_grows(start, end, m, n - 1);
    }
}

/// Found characteristics come in entries of seven bytes, each a characteristic whose
/// declaration is in range.
proof fn lemma_characteristic_entries(start: u16, end: u16, n: int, k: int)
    requires
        0 <= n <= 7,
    ensures
        ({
            let found = found_characteristics(start, end, n);
            let at = 2 + 7 * k;
            &&& found.len() >= 2 && (found.len() - 2) % 7 == 0
            &&& found[0] == 0x09 && found[1] == 7
            &&& 0 <= k < (found.len() - 2) / 7 ==> {
                &&& exists|j: int|
                    0 <= j < n && #[trigger] characteristics()[j] == (
                        bytes::u16_at(found, at),
                        found[at + 2],
                        bytes::u16_at(found, at + 3),
                        bytes::u16_at(found, at + 5),
                    )
                &&& start <= bytes::u16_at(found, at) <= end
            }
        }),
    decreases n,
{
    if n > 0 {
        lemma_characteristic_entries(start, end, n - 1, k);
        let before = found_characteristics(start, end, n - 1);
        let found = found_characteristics(start, end, n);
        let (decl, props, value, uuid) = characteristics()[n - 1];
        let at = 2 + 7 * k;
        if found.len() > before.len() {
            bytes::lemma_u16_round_trip(decl);
            bytes::lemma_u16_round_trip(value);
            bytes::lemma_u16_round_trip(uuid);
            if 0 <= k < (before.len() - 2) / 7 {
                assert(bytes::u16_at(found, at) == bytes::u16_at(before, at));
                assert(found[at + 2] == before[at + 2]);
                assert(bytes::u16_at(found, at + 3) == bytes::u16_at(before, at + 3));
                assert(bytes::u16_at(found, at + 5) == bytes::u16_at(before, at + 5));
            } else if k == (before.len() - 2) / 7 {
                assert(at == before.len());
                assert(characteristics()[n - 1] == (
                    bytes::u16_at(found, at),
                    found[at + 2],
                    bytes::u16_at(found, at + 3),
                    bytes::u16_at(found, at + 5),
                ));
            }
        }
    }
}

/// A search for characteristics lists characteristics that exist and whose
/// declarations are in the range that was asked for.
pub proof fn law_characteristics_are_listed(start: u16, end: u16, k: int)
    requires
        0 <= k < (found_characteristics(start, end, 7).len() - 2) / 7,
    ensures
        ({
            let found = found_characteristics(start, end, 7);
            let at = 2 + 7 * k;
            &&& exists|j: int|
                0 <= j < 7 && #[trigger] characteristics()[j] == (
                    bytes::u16_at(found, at),
                    found[at + 2],
                    bytes::u16_at(found, at + 3),
                    bytes::u16_at(found, at + 5),
                )
            &&& start <= bytes::u16_at(found, at) <= end
        }),
{
    lemma_characteristic_entries(start, end, 7, k);
}

/// The tables agree with each other: a characteristic is declared right in front of
/// its value, both are attributes, the value has the characteristic's type, and one
/// that can be read has a value.
pub proof fn law_characteristics_are_attributes(j: int, notify: bool)
    requires
        0 <= j < 7,
    ensures
        ({
            let (decl, props, value, uuid) = characteristics()[j];
            &&& value == decl + 1
            &&& attributes().contains((decl, 0x2803u16))
            &&& attributes().contains((value, uuid))
            &&& props & 0x02 != 0 ==> value_of(value, notify) is Some
        }),
{
    let (decl, props, value, uuid) = characteristics()[j];
    assert(0x04u8 & 0x02 == 0) by (bit_vector);
    let at = if j < 2 {
        2 * j
    } else if j < 5 {
        2 * j
    } else {
        2 * j + 2
    };
    assert(attributes()[at] == (decl, 0x2803u16));
    assert(attributes()[at + 1] == (value, uuid));
}

/// Handles of attributes ascend.
pub proof fn law_attribute_handles_ascend(i: int, j: int)
    requires
        0 <= i < j < 16,
    ensures
        attributes()[i].0 < attributes()[j].0,
{
}

/// Services are discovered one after the other: a search from the start finds the
/// first one, a search from behind it the second, and one from behind that no more;
/// and every attribute lies within one of the two.
pub proof fn law_services_are_discovered(pdu: Seq<u8>, j: int)
    requires
        pdu.len() >= 7,
        pdu[5] == 0x00 && pdu[6] == 0x28,
        0 <= j < 16,
    ensures
        ({
            let (start, end) = request_range(pdu)->0;
            let r = group_response(pdu);
            &&& start <= 1 <= end ==> r.len() == 8 && bytes::u16_at(r, 2) == 1 && bytes::u16_at(
                r,
                4,
            ) == 5
            &&& 1 < start <= 6 <= end ==> r.len() == 8 && bytes::u16_at(r, 2) == 6
                && bytes::u16_at(r, 4) == 18
            &&& start > 6 ==> r == att_error(0x10, start, ATT_NOT_FOUND)
            &&& 1 < attributes()[j].0 <= 5 || 6 < attributes()[j].0 <= 18
        }),
{
}

/// A piece of a value is the part of it from the offset on, as much as fits in one
/// response.
pub proof fn law_piece_is_part_of_value(opcode: u8, value: Seq<u8>, offset: int, i: int)
    requires
        0 <= offset <= value.len(),
        0 <= i,
    ensures
        piece(opcode, value, offset)[0] == opcode,
        piece(opcode, value, offset).len() == 1 + if value.len() - offset <= ATT_VALUE_CHUNK {
            value.len() - offset
        } else {
            ATT_VALUE_CHUNK as int
        },
        i + 1 < piece(opcode, value, offset).len() ==> piece(opcode, value, offset)[i + 1]
            == value[offset + i],
{
}

/// A value can be read again from where a first read ended, until nothing is left.
pub proof fn law_read_goes_on(opcode: u8, value: Seq<u8>, offset: int)
    requires
        0 <= offset,
        offset + ATT_VALUE_CHUNK <= value.len(),
    ensures
        value.take(offset) + piece(opcode, value, offset).skip(1) == value.take(
            offset + ATT_VALUE_CHUNK,
        ),
        piece(opcode, value, value.len() as int).len() == 1,
{
    assert(value.take(offset) + piece(opcode, value, offset).skip(1) =~= value.take(
        offset + ATT_VALUE_CHUNK,
    ));
}

/// Notifications change only by a write to their switch, and by nothing else.
pub proof fn law_only_the_switch_changes_notifications(pdu: Seq<u8>, notify: bool)
    ensures
        notify_after(pdu, notify) != notify ==> pdu.len() >= 5 && (pdu[0] == 0x12 || pdu[0] == 0x52)
            && bytes::u16_at(pdu, 1) == HID_REPORT_CCCD_HANDLE,
{
}

} // verus!
