//! The keyboard's side of a Bluetooth connection: events of the controller, and
//! the packets of the channels that the keyboard serves.

use crate::att;
use crate::att::{handle_att, push_all, push_u16, HID_REPORT_HANDLE};
use crate::bytes;
use crate::bytes::get_u16_le;
use crate::smp;
use crate::smp::{
    local_addr_bytes, SmpDo, SmpState, SmpStep, SmpView, SMP_AUTH_BONDING, SMP_PAIRING_FAILED,
    SMP_SECURITY_REQUEST,
};
use vstd::prelude::*;

verus! {

/// No connection.
pub const CONN_NONE: u16 = 0xffff;

/// Channel of the attribute protocol.
pub const CID_ATT: u16 = 0x0004;

/// Channel of the signalling protocol.
pub const CID_CONTROL: u16 = 0x0005;

/// Channel of the security manager.
pub const CID_SMP: u16 = 0x0006;

/// Longest payload of a packet.
pub const MAX_L2CAP_PAYLOAD: usize = 64;

/// A connection handle in a field of which the upper bits mean something else.
pub open spec fn handle_bits(x: u16) -> u16 {
    x & 0x0fff
}

/// A packet for the controller: connection, lengths, channel and payload.
pub open spec fn l2cap_packet(handle: u16, cid: u16, payload: Seq<u8>) -> Seq<u8> {
    bytes::u16_le(handle_bits(handle)) + bytes::u16_le((payload.len() + 4) as u16) + bytes::u16_le(
        payload.len() as u16,
    ) + bytes::u16_le(cid) + payload
}

/// A packet for the controller; a payload that is too long is not sent.
pub fn send_l2cap(handle: u16, cid: u16, payload: &[u8]) -> (r: Option<Vec<u8>>)
    ensures
        payload@.len() <= MAX_L2CAP_PAYLOAD ==> r is Some && r->0@ == l2cap_packet(
            handle,
            cid,
            payload@,
        ),
        payload@.len() > MAX_L2CAP_PAYLOAD ==> r is None,
{
    if payload.len() > MAX_L2CAP_PAYLOAD {
        return None;
    }
    let len: usize = payload.len();
    let mut packet: Vec<u8> = Vec::new();
    push_u16(&mut packet, handle & 0x0fff);
    push_u16(&mut packet, (len + 4) as u16);
    push_u16(&mut packet, len as u16);
    push_u16(&mut packet, cid);
    push_all(&mut packet, payload);
    assert(packet@ =~= l2cap_packet(handle, cid, payload@));
    Some(packet)
}

/// A packet of the controller holds a whole payload on one channel.
pub open spec fn acl_ok(buf: Seq<u8>) -> bool {
    &&& buf.len() >= 8
    &&& bytes::u16_at(buf, 2) >= 4
    &&& buf.len() >= 4 + bytes::u16_at(buf, 2)
    &&& buf.len() >= 8 + bytes::u16_at(buf, 4)
}

/// Take a packet of the controller apart: connection, channel and payload.
pub fn parse_acl(buf: &[u8]) -> (r: Option<(u16, u16, &[u8])>)
    ensures
        match r {
            Some((handle, cid, payload)) => {
                &&& acl_ok(buf@)
                &&& handle == handle_bits(bytes::u16_at(buf@, 0))
                &&& cid == bytes::u16_at(buf@, 6)
                &&& payload@ == buf@.subrange(8, 8 + bytes::u16_at(buf@, 4))
            },
            None => !acl_ok(buf@),
        },
{
    if buf.len() < 8 {
        return None;
    }
    let handle: u16 = get_u16_le(buf, 0) & 0x0fff;
    let acl_len: usize = get_u16_le(buf, 2) as usize;
    if acl_len < 4 || buf.len() < 4 + acl_len {
        return None;
    }
    let l2cap_len: usize = get_u16_le(buf, 4) as usize;
    let cid: u16 = get_u16_le(buf, 6);
    if buf.len() < 8 + l2cap_len {
        return None;
    }
    Some((handle, cid, &buf[8..8 + l2cap_len]))
}

/// The response to a signalling PDU: a request for other connection parameters is
/// accepted, and everything else rejected.
pub open spec fn control_response(pdu: Seq<u8>) -> Option<Seq<u8>> {
    if pdu.len() < 4 {
        None
    } else if pdu[0] == 0x12 {
        Some(seq![0x13u8, pdu[1], 2, 0, 0, 0])
    } else {
        Some(seq![0x01u8, pdu[1], 2, 0, pdu[0], 0])
    }
}

/// Take a signalling PDU.
pub fn handle_l2cap_control(pdu: &[u8]) -> (r: Option<[u8; 6]>)
    ensures
        match control_response(pdu@) {
            Some(response) => r is Some && r->0@ == response,
            None => r is None,
        },
{
    if pdu.len() < 4 {
        return None;
    }
    let code: u8 = pdu[0];
    let ident: u8 = pdu[1];
    let r: [u8; 6] = if code == 0x12 {
        [0x13, ident, 2, 0, 0, 0]
    } else {
        [0x01, ident, 2, 0, code, 0]
    };
    assert(r@ =~= control_response(pdu@)->0);
    Some(r)
}

/// What a packet of the host asks for.
#[derive(Debug)]
pub enum AclAction {
    /// Nothing.
    Nothing,
    /// A packet is sent.
    Send(Vec<u8>),
    /// Pairing goes on, on this connection.
    Pairing(u16, SmpStep),
}

/// `action` is what a packet of the host asks for of a connection.
pub open spec fn acl_answers(action: AclAction, link: BleView, buf: Seq<u8>) -> bool {
    if !acl_ok(buf) {
        action is Nothing
    } else {
        let handle = handle_bits(bytes::u16_at(buf, 0));
        let cid = bytes::u16_at(buf, 6);
        let pdu = buf.subrange(8, 8 + bytes::u16_at(buf, 4));
        if cid == CID_ATT {
            sends(action, handle, CID_ATT, att::att_response(pdu, link.notify_enabled))
        } else if cid == CID_CONTROL {
            sends(action, handle, CID_CONTROL, control_response(pdu))
        } else if cid == CID_SMP {
            action matches AclAction::Pairing(h, step) && h == handle && step.act()
                == link.smp.on_pdu(pdu).1
        } else {
            action is Nothing
        }
    }
}

/// `action` sends a response, if there is one.
pub open spec fn sends(action: AclAction, handle: u16, cid: u16, response: Option<Seq<u8>>) -> bool {
    match response {
        Some(r) => action matches AclAction::Send(packet) && packet@ == l2cap_packet(
            handle,
            cid,
            r,
        ),
        None => action is Nothing,
    }
}

/// The packet that a step of a pairing sends, if it sends one.
pub fn pairing_packet(handle: u16, step: SmpStep) -> (r: Option<Vec<u8>>)
    ensures
        match step.act() {
            SmpDo::Send(pdu) => r is Some && r->0@ == l2cap_packet(handle, CID_SMP, pdu),
            _ => r is None,
        },
{
    match step {
        SmpStep::SendResponse(pdu) => send_l2cap(handle, CID_SMP, &pdu),
        SmpStep::SendValue(pdu) => send_l2cap(handle, CID_SMP, &pdu),
        SmpStep::SendFailed(reason) => {
            let pdu: [u8; 2] = [SMP_PAIRING_FAILED, reason];
            assert(pdu@ =~= seq![SMP_PAIRING_FAILED, reason]);
            send_l2cap(handle, CID_SMP, &pdu)
        },
        _ => None,
    }
}

/// What an event of the controller asks for.
#[derive(Debug, Clone, Copy, PartialEq, Eq)]
pub enum HciAction {
    /// Nothing.
    Nothing,
    /// The host is gone: the keys of the right half are released, and advertising
    /// starts again.
    Disconnected,
    /// A host is there: a security request is sent to it.
    Connected(u16),
    /// The link is encrypted: the long-term key is distributed.
    SendBondKeys(u16, [u8; 16]),
    /// The controller is given a key.
    ReplyKey(u16, [u8; 16]),
    /// The controller is told that there is no key.
    RejectKey(u16),
}

/// What an event of the controller is, in plain values.
#[verifier::ext_equal]
pub enum HciEvent {
    /// Not one that matters.
    Other,
    /// The connection has ended.
    Disconnected,
    /// A connection is encrypted.
    Encrypted(u16),
    /// A connection was made: its handle, and type and address of the peer.
    Connected(u16, u8, Seq<u8>),
    /// A key is asked for: connection, random number and diversifier.
    KeyRequest(u16, Seq<u8>, u16),
}

/// The body of a complete LE event.
pub open spec fn le_body(buf: Seq<u8>) -> Option<Seq<u8>> {
    if buf.len() >= 4 && buf[0] == 0x3e && buf.len() >= buf[1] + 2 && buf[1] >= 4 {
        Some(buf.subrange(2, 2 + buf[1]))
    } else {
        None
    }
}

/// What an event of the controller is.
pub open spec fn hci_event(buf: Seq<u8>) -> HciEvent {
    if buf.len() >= 6 && buf[0] == 0x05 {
        HciEvent::Disconnected
    } else if buf.len() >= 6 && buf[0] == 0x08 {
        if buf[2] == 0 && buf[5] != 0 {
            HciEvent::Encrypted(handle_bits(bytes::u16_at(buf, 3)))
        } else {
            HciEvent::Other
        }
    } else {
        match le_body(buf) {
            None => HciEvent::Other,
            Some(data) => if (data[0] == 1 || data[0] == 10) && data.len() >= 12 && data[1] == 0 {
                HciEvent::Connected(
                    handle_bits(bytes::u16_at(data, 2)),
                    data[5],
                    data.subrange(6, 12),
                )
            } else if data[0] == 5 && data.len() >= 13 {
                HciEvent::KeyRequest(
                    handle_bits(bytes::u16_at(data, 1)),
                    data.subrange(3, 11),
                    bytes::u16_at(data, 11),
                )
            } else {
                HciEvent::Other
            },
        }
    }
}

/// The keyboard's side of a connection.
pub struct BleLink {
    /// Handle of the connection.
    pub conn_handle: u16,
    /// Notifications are on.
    pub notify_enabled: bool,
    /// Pairing.
    pub smp: SmpState,
}

/// The keyboard's side of a connection, in plain values.
#[verifier::ext_equal]
pub struct BleView {
    /// Handle of the connection.
    pub conn_handle: u16,
    /// Notifications are on.
    pub notify_enabled: bool,
    /// Pairing.
    pub smp: SmpView,
}

impl View for BleLink {
    type V = BleView;

    open spec fn view(&self) -> BleView {
        BleView {
            conn_handle: self.conn_handle,
            notify_enabled: self.notify_enabled,
            smp: self.smp@,
        }
    }
}

impl BleView {
    /// The connection after a packet of the host.
    pub open spec fn after_acl(self, buf: Seq<u8>) -> BleView {
        let cid = bytes::u16_at(buf, 6);
        let pdu = buf.subrange(8, 8 + bytes::u16_at(buf, 4));
        if acl_ok(buf) && cid == CID_ATT {
            BleView { notify_enabled: att::notify_after(pdu, self.notify_enabled), ..self }
        } else if acl_ok(buf) && cid == CID_SMP {
            BleView { smp: self.smp.on_pdu(pdu).0, ..self }
        } else {
            self
        }
    }

    /// The connection after an event of the controller.
    pub open spec fn after(self, event: HciEvent, local_addr: Seq<u8>) -> BleView {
        match event {
            HciEvent::Other => self,
            HciEvent::Disconnected => BleView {
                conn_handle: CONN_NONE,
                notify_enabled: false,
                smp: self.smp.reset(),
            },
            HciEvent::Encrypted(_) => if self.smp.stage == smp::SmpStage::WaitEncrypted {
                BleView {
                    smp: SmpView { stage: smp::SmpStage::Idle, ..self.smp },
                    ..self
                }
            } else {
                self
            },
            HciEvent::Connected(handle, peer_type, peer) => BleView {
                conn_handle: handle,
                smp: self.smp.connected(local_addr, peer, peer_type),
                ..self
            },
            HciEvent::KeyRequest(_, _, _) => self,
        }
    }
}

/// `action` is what an event asks for of a connection.
pub open spec fn answers(action: HciAction, link: BleView, event: HciEvent) -> bool {
    match event {
        HciEvent::Other => action == HciAction::Nothing,
        HciEvent::Disconnected => action == HciAction::Disconnected,
        HciEvent::Encrypted(handle) => if link.smp.stage == smp::SmpStage::WaitEncrypted {
            action matches HciAction::SendBondKeys(h, key) && h == handle && key@ == link.smp.ltk
        } else {
            action == HciAction::Nothing
        },
        HciEvent::Connected(handle, _, _) => action == HciAction::Connected(handle),
        HciEvent::KeyRequest(handle, rand, ediv) => match link.smp.key_for(rand, ediv) {
            Some(k) => action matches HciAction::ReplyKey(h, key) && h == handle && key@ == k,
            None => action == HciAction::RejectKey(handle),
        },
    }
}

impl BleLink {
    /// No connection.
    pub fn new() -> (l: Self)
        ensures
            l@.conn_handle == CONN_NONE,
            !l@.notify_enabled,
            l@.smp == smp::no_pairing(),
    {
        BleLink { conn_handle: CONN_NONE, notify_enabled: false, smp: SmpState::new() }
    }

    /// A connection was made.
    fn on_ble_connected(&mut self, data: &[u8], local_addr: [u8; 6]) -> (action: HciAction)
        requires
            data@.len() >= 12,
        ensures
            final(self)@ == old(self)@.after(
                HciEvent::Connected(
                    handle_bits(bytes::u16_at(data@, 2)),
                    data@[5],
                    data@.subrange(6, 12),
                ),
                local_addr@,
            ),
            action == HciAction::Connected(handle_bits(bytes::u16_at(data@, 2))),
    {
        let handle: u16 = get_u16_le(data, 2) & 0x0fff;
        let peer_addr: [u8; 6] = [data[6], data[7], data[8], data[9], data[10], data[11]];
        assert(peer_addr@ =~= data@.subrange(6, 12));
        self.conn_handle = handle;
        self.smp.connect(local_addr, peer_addr, data[5]);
        HciAction::Connected(handle)
    }

    /// A key is asked for.
    fn reply_ltk_request(&self, data: &[u8]) -> (action: HciAction)
        requires
            data@.len() >= 13,
        ensures
            answers(
                action,
                self@,
                HciEvent::KeyRequest(
                    handle_bits(bytes::u16_at(data@, 1)),
                    data@.subrange(3, 11),
                    bytes::u16_at(data@, 11),
                ),
            ),
    {
        let handle: u16 = get_u16_le(data, 1) & 0x0fff;
        let rand: [u8; 8] = [
            data[3],
            data[4],
            data[5],
            data[6],
            data[7],
            data[8],
            data[9],
            data[10],
        ];
        assert(rand@ =~= data@.subrange(3, 11));
        let ediv: u16 = get_u16_le(data, 11);
        match self.smp.ltk_for(&rand, ediv) {
            Some(key) => HciAction::ReplyKey(handle, key),
            None => HciAction::RejectKey(handle),
        }
    }

    /// Take an event of the controller. `id0` and `id1` identify the device, which
    /// derives its address from them.
    pub fn handle_hci_event(&mut self, buf: &[u8], id0: u32, id1: u32) -> (action: HciAction)
        ensures
            final(self)@ == old(self)@.after(hci_event(buf@), smp::addr_of(id0, id1)),
            answers(action, old(self)@, hci_event(buf@)),
    {
        if buf.len() >= 6 && buf[0] == 0x05 {
            self.conn_handle = CONN_NONE;
            self.notify_enabled = false;
            self.smp.reset_pairing();
            return HciAction::Disconnected;
        }
        if buf.len() >= 6 && buf[0] == 0x08 {
            let handle: u16 = get_u16_le(buf, 3) & 0x0fff;
            if buf[2] == 0 && buf[5] != 0 {
                return match self.smp.take_bond_key() {
                    Some(key) => HciAction::SendBondKeys(handle, key),
                    None => HciAction::Nothing,
                };
            }
            return HciAction::Nothing;
        }
        if buf.len() < 4 || buf[0] != 0x3e {
            return HciAction::Nothing;
        }
        let len: usize = buf[1] as usize;
        if buf.len() < len + 2 || len < 4 {
            return HciAction::Nothing;
        }
        let data: &[u8] = &buf[2..2 + len];
        if (data[0] == 1 || data[0] == 10) && data.len() >= 12 && data[1] == 0 {
            let local_addr: [u8; 6] = local_addr_bytes(id0, id1);
            return self.on_ble_connected(data, local_addr);
        }
        if data[0] == 5 && data.len() >= 13 {
            return self.reply_ltk_request(data);
        }
        HciAction::Nothing
    }

    /// Take a packet of the host.
    pub fn handle_acl(&mut self, buf: &[u8]) -> (action: AclAction)
        ensures
            acl_answers(action, old(self)@, buf@),
            final(self)@ == old(self)@.after_acl(buf@),
    {
        let (handle, cid, pdu) = match parse_acl(buf) {
            Some((handle, cid, pdu)) => (handle, cid, pdu),
            None => {
                return AclAction::Nothing;
            },
        };
        if cid == CID_ATT {
            proof {
                att::law_response_fits(pdu@, self.notify_enabled);
            }
            if let Some(response) = handle_att(pdu, &mut self.notify_enabled) {
                if let Some(packet) = send_l2cap(handle, CID_ATT, &response) {
                    return AclAction::Send(packet);
                }
            }
            AclAction::Nothing
        } else if cid == CID_CONTROL {
            if let Some(response) = handle_l2cap_control(pdu) {
                if let Some(packet) = send_l2cap(handle, CID_CONTROL, &response) {
                    return AclAction::Send(packet);
                }
            }
            AclAction::Nothing
        } else if cid == CID_SMP {
            AclAction::Pairing(handle, self.smp.handle_smp(pdu))
        } else {
            AclAction::Nothing
        }
    }

    /// The packet that notifies the host of a report, if it wants to be notified.
    pub fn notify_hid(&self, report: &[u8; 8]) -> (r: Option<Vec<u8>>)
        ensures
            self@.notify_enabled && self@.conn_handle != CONN_NONE ==> r is Some && r->0@
                == l2cap_packet(
                self@.conn_handle,
                CID_ATT,
                seq![0x1bu8] + bytes::u16_le(HID_REPORT_HANDLE) + report@,
            ),
            !self@.notify_enabled || self@.conn_handle == CONN_NONE ==> r is None,
    {
        if !self.notify_enabled || self.conn_handle == CONN_NONE {
            return None;
        }
        let mut pdu: Vec<u8> = vec![0x1b];
        push_u16(&mut pdu, HID_REPORT_HANDLE);
        push_all(&mut pdu, report);
        assert(pdu@ =~= seq![0x1bu8] + bytes::u16_le(HID_REPORT_HANDLE) + report@);
        send_l2cap(self.conn_handle, CID_ATT, &pdu)
    }
}

/// The security request that is sent to a new host.
pub fn security_request(handle: u16) -> (r: Option<Vec<u8>>)
    ensures
        r is Some,
        r->0@ == l2cap_packet(handle, CID_SMP, seq![SMP_SECURITY_REQUEST, SMP_AUTH_BONDING]),
{
    let pdu: [u8; 2] = [SMP_SECURITY_REQUEST, SMP_AUTH_BONDING];
    assert(pdu@ =~= seq![SMP_SECURITY_REQUEST, SMP_AUTH_BONDING]);
    send_l2cap(handle, CID_SMP, &pdu)
}

/// What is advertised: a discoverable keyboard with a HID service and its name.
pub open spec fn advertised() -> Seq<u8> {
    seq![
        0x02u8, 0x01, 0x06, 0x03, 0x03, 0x12, 0x18, 0x03, 0x19, 0xc1, 0x03, 0x0b, 0x09,
    ] + att::device_name()
}

/// The advertising data: its length, and 31 bytes that hold it.
pub fn advertising_data() -> (r: (u8, [u8; 31]))
    ensures
        r.0 == advertised().len(),
        r.1@ == bytes::splice(smp::zeros(31), 0, advertised()),
{
    let data: [u8; 31] = [
        0x02, 0x01, 0x06, 0x03, 0x03, 0x12, 0x18, 0x03, 0x19, 0xc1, 0x03, 0x0b, 0x09,
        0x45, 0x6c, 0x79, 0x74, 0x72, 0x61, 0x20, 0x45, 0x53, 0x42,
        0, 0, 0, 0, 0, 0, 0, 0,
    ];
    assert(data@ =~= bytes::splice(smp::zeros(31), 0, advertised()));
    (23, data)
}

/// A packet that is sent can be taken apart again: connection, channel and payload
/// come back.
pub proof fn law_l2cap_round_trip(handle: u16, cid: u16, payload: Seq<u8>)
    requires
        payload.len() <= MAX_L2CAP_PAYLOAD,
    ensures
        ({
            let p = l2cap_packet(handle, cid, payload);
            &&& acl_ok(p)
            &&& handle_bits(bytes::u16_at(p, 0)) == handle_bits(handle)
            &&& bytes::u16_at(p, 6) == cid
            &&& p.subrange(8, 8 + bytes::u16_at(p, 4)) == payload
        }),
{
    let p = l2cap_packet(handle, cid, payload);
    bytes::lemma_u16_round_trip(handle_bits(handle));
    bytes::lemma_u16_round_trip((payload.len() + 4) as u16);
    bytes::lemma_u16_round_trip(payload.len() as u16);
    bytes::lemma_u16_round_trip(cid);
    assert((handle & 0x0fff) & 0x0fff == handle & 0x0fff) by (bit_vector);
    assert(p.subrange(8, 8 + payload.len() as int) =~= payload);
}

/// Nothing of a connection survives its end: no handle, no notifications, and no
/// pairing.
pub proof fn law_disconnect_forgets(link: BleView, local_addr: Seq<u8>)
    ensures
        ({
            let after = link.after(HciEvent::Disconnected, local_addr);
            &&& after.conn_handle == CONN_NONE
            &&& !after.notify_enabled
            &&& after.smp.stage == smp::SmpStage::Idle
            &&& after.smp.stk == smp::zeros(16)
        }),
{
}

/// The long-term key goes out once per pairing: a second encryption of the same
/// link distributes nothing.
pub proof fn law_bond_keys_sent_once(link: BleView, handle: u16, local_addr: Seq<u8>)
    requires
        link.smp.stage == smp::SmpStage::WaitEncrypted,
    ensures
        ({
            let after = link.after(HciEvent::Encrypted(handle), local_addr);
            &&& answers(HciAction::Nothing, after, HciEvent::Encrypted(handle))
            &&& !answers(HciAction::Nothing, link, HciEvent::Encrypted(handle))
        }),
{
}

/// What is answered to a packet of the host goes back on the connection and the
/// channel that the packet came on.
pub proof fn law_answer_goes_back(action: AclAction, link: BleView, buf: Seq<u8>)
    requires
        acl_answers(action, link, buf),
    ensures
        action matches AclAction::Send(packet) ==> {
            &&& acl_ok(buf) && acl_ok(packet@)
            &&& handle_bits(bytes::u16_at(packet@, 0)) == handle_bits(bytes::u16_at(buf, 0))
            &&& bytes::u16_at(packet@, 6) == bytes::u16_at(buf, 6)
        },
        action matches AclAction::Pairing(h, _) ==> acl_ok(buf) && h == handle_bits(
            bytes::u16_at(buf, 0),
        ) && bytes::u16_at(buf, 6) == CID_SMP,
{
    if acl_ok(buf) {
        let handle = handle_bits(bytes::u16_at(buf, 0));
        let x = bytes::u16_at(buf, 0);
        assert((x & 0x0fff) & 0x0fff == x & 0x0fff) by (bit_vector);
        let cid = bytes::u16_at(buf, 6);
        let pdu = buf.subrange(8, 8 + bytes::u16_at(buf, 4));
        att::law_response_fits(pdu, link.notify_enabled);
        if let Some(r) = att::att_response(pdu, link.notify_enabled) {
            law_l2cap_round_trip(handle, CID_ATT, r);
        }
        if let Some(r) = control_response(pdu) {
            law_l2cap_round_trip(handle, CID_CONTROL, r);
        }
    }
}

/// A signalling request is answered under its own identifier: a wish for other
/// connection parameters is granted, and anything else is rejected by its code.
pub proof fn law_signalling_is_answered(pdu: Seq<u8>)
    requires
        pdu.len() >= 4,
    ensures
        ({
            let r = control_response(pdu)->0;
            &&& control_response(pdu) is Some
            &&& r.len() == 6 && bytes::u16_at(r, 2) == 2
            &&& r[1] == pdu[1]
            &&& pdu[0] == 0x12 ==> r[0] == 0x13 && bytes::u16_at(r, 4) == 0
            &&& pdu[0] != 0x12 ==> r[0] == 0x01 && bytes::u16_at(r, 4) == pdu[0]
        }),
{
}

/// Where the controller puts what it tells: a connection, a request for a key and the
/// start of encryption read back as what they are, whatever stands in between.
pub proof fn law_events_are_read(
    handle: u16,
    role: u8,
    kind: u8,
    addr: Seq<u8>,
    rand: Seq<u8>,
    ediv: u16,
    on: u8,
    tail: Seq<u8>,
)
    requires
        handle <= 0x0fff,
        addr.len() == 6,
        rand.len() == 8,
        on != 0,
        tail.len() <= 100,
    ensures
        hci_event(
            seq![0x3eu8, (12 + tail.len()) as u8, 1, 0] + bytes::u16_le(handle) + seq![role, kind]
                + addr + tail,
        ) == HciEvent::Connected(handle, kind, addr),
        hci_event(
            seq![0x3eu8, 13, 5] + bytes::u16_le(handle) + rand + bytes::u16_le(ediv),
        ) == HciEvent::KeyRequest(handle, rand, ediv),
        hci_event(seq![0x08u8, 4, 0] + bytes::u16_le(handle) + seq![on]) == HciEvent::Encrypted(
            handle,
        ),
        hci_event(seq![0x08u8, 4, 0] + bytes::u16_le(handle) + seq![0u8]) == HciEvent::Other,
        hci_event(seq![0x05u8, 4, 0] + bytes::u16_le(handle) + seq![on]) == HciEvent::Disconnected,
{
    bytes::lemma_u16_round_trip(handle);
    bytes::lemma_u16_round_trip(ediv);
    assert(handle <= 0x0fff ==> handle & 0x0fff == handle) by (bit_vector);
    let made = seq![0x3eu8, (12 + tail.len()) as u8, 1, 0] + bytes::u16_le(handle) + seq![
        role,
        kind,
    ] + addr + tail;
    let data = le_body(made)->0;
    assert(le_body(made) is Some);
    assert(data.subrange(6, 12) =~= addr);
    let asked = seq![0x3eu8, 13, 5] + bytes::u16_le(handle) + rand + bytes::u16_le(ediv);
    let body = le_body(asked)->0;
    assert(le_body(asked) is Some);
    assert(body.subrange(3, 11) =~= rand);
}

/// A connection takes the place of the one before it, with nothing of its pairing
/// left, and a request for a key is answered with a key of this pairing or this
/// device, or with none.
pub proof fn law_new_connection_takes_over(
    link: BleView,
    handle: u16,
    kind: u8,
    peer: Seq<u8>,
    local_addr: Seq<u8>,
    action: HciAction,
    rand: Seq<u8>,
    ediv: u16,
)
    requires
        answers(action, link, HciEvent::KeyRequest(handle, rand, ediv)),
    ensures
        ({
            let after = link.after(HciEvent::Connected(handle, kind, peer), local_addr);
            &&& after.conn_handle == handle
            &&& after.smp.stage == smp::SmpStage::Idle
            &&& after.smp.peer_addr == peer && after.smp.local_addr == local_addr
            &&& after.smp.ltk == smp::fixed_ltk_of(local_addr)
        }),
        link.after(HciEvent::KeyRequest(handle, rand, ediv), local_addr) == link,
        action matches HciAction::ReplyKey(h, key) ==> h == handle && (key@ == link.smp.stk
            || key@ == link.smp.ltk),
        action matches HciAction::ReplyKey(h, key) ==> link.smp.stage == smp::SmpStage::Idle
            ==> key@ == link.smp.ltk,
        action is ReplyKey || action == HciAction::RejectKey(handle),
{
}

} // verus!
