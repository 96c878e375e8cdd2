//! The attribute server, pairing, and the connection to a host.

use embassy_nrf_esb::att::{
    att_range, handle_att, handle_find_information, handle_read, handle_read_blob,
    handle_read_by_group_type, handle_read_by_type, req_handle,
};
use embassy_nrf_esb::ble::{
    advertising_data, handle_l2cap_control, pairing_packet, parse_acl, security_request,
    send_l2cap, AclAction, BleLink, HciAction, CID_ATT, CID_CONTROL, CID_SMP, CONN_NONE,
};
use embassy_nrf_esb::smp::{
    bond_key_pdus, fixed_ltk, local_addr_bytes, pairing_confirm_first, pairing_confirm_second,
    smp_fixed_rand, smp_random_128, stk_from_randoms_block, SmpStage, SmpState, SmpStep,
    SMP_FIXED_EDIV,
};

const HANDLE: u16 = 0x0040;
const ID0: u32 = 0x4433_2211;
const ID1: u32 = 0x0000_6655;
const LOCAL: [u8; 6] = [0x11, 0x22, 0x33, 0x44, 0x55, 0xe6];
const PEER: [u8; 6] = [1, 2, 3, 4, 5, 6];

/// Stands in for the block cipher.
fn cipher(block: [u8; 16]) -> [u8; 16] {
    let mut out = block;
    out.rotate_left(3);
    for b in out.iter_mut() {
        *b = b.wrapping_mul(5).wrapping_add(0x5a);
    }
    out
}

fn reversed(block: [u8; 16]) -> [u8; 16] {
    let mut out = block;
    out.reverse();
    out
}

/// Encrypt until something else is asked for.
fn settle(smp: &mut SmpState, step: SmpStep) -> SmpStep {
    let mut step = step;
    while let SmpStep::Encrypt(block) = step {
        step = smp.on_block(cipher(block));
    }
    step
}

fn connected() -> BleLink {
    let mut link = BleLink::new();
    let mut event = vec![0x3e, 19, 1, 0, 0x40, 0x00, 0, 1];
    event.extend_from_slice(&PEER);
    event.extend_from_slice(&[0; 7]);
    assert_eq!(link.handle_hci_event(&event, ID0, ID1), HciAction::Connected(HANDLE));
    link
}

fn smp_pdu(link: &mut BleLink, pdu: &[u8]) -> SmpStep {
    match link.handle_acl(&send_l2cap(HANDLE, CID_SMP, pdu).unwrap()) {
        AclAction::Pairing(handle, step) => {
            assert_eq!(handle, HANDLE);
            step
        }
        _ => panic!("not a pairing step"),
    }
}

const PREQ: [u8; 7] = [0x01, 0x04, 0, 0x01, 16, 1, 1];
const PRES: [u8; 7] = [0x02, 0x03, 0, 0x01, 16, 0, 1];
const SRAND: [u8; 16] = [7, 9, 1, 3, 200, 11, 12, 13, 14, 15, 16, 17, 18, 19, 20, 21];
const MRAND: [u8; 16] = [90, 91, 92, 93, 94, 95, 96, 97, 98, 99, 1, 2, 3, 4, 5, 6];

fn confirm_of(random: &[u8; 16]) -> [u8; 16] {
    let first = cipher(pairing_confirm_first(random, &PREQ, &PRES, 1, 0));
    reversed(cipher(pairing_confirm_second(&first, &PEER, &LOCAL)))
}

fn with_opcode(opcode: u8, value: &[u8; 16]) -> [u8; 17] {
    let mut out = [opcode; 17];
    out[1..].copy_from_slice(value);
    out
}

fn paired_up_to_random(link: &mut BleLink) {
    assert_eq!(smp_pdu(link, &PREQ), SmpStep::DrawRandom);
    assert_eq!(link.smp.on_random(Some(SRAND)), SmpStep::SendResponse(PRES));
    assert_eq!(link.smp.stage, SmpStage::WaitConfirm);
    let step = smp_pdu(link, &with_opcode(0x03, &confirm_of(&MRAND)));
    let step = settle(&mut link.smp, step);
    assert_eq!(step, SmpStep::SendValue(with_opcode(0x03, &confirm_of(&SRAND))));
}

#[test]
fn pairing_gives_both_sides_the_same_key() {
    let mut link = connected();
    paired_up_to_random(&mut link);
    let step = smp_pdu(&mut link, &with_opcode(0x04, &MRAND));
    let step = settle(&mut link.smp, step);
    assert_eq!(step, SmpStep::SendValue(with_opcode(0x04, &SRAND)));
    let packet = pairing_packet(HANDLE, step).unwrap();
    assert_eq!(&packet[..9], &[0x40, 0, 21, 0, 17, 0, 6, 0, 4][..]);

    // The controller asks for the short-term key.
    let stk = reversed(cipher(stk_from_randoms_block(&SRAND, &MRAND)));
    let request = [0x3e, 13, 5, 0x40, 0, 0, 0, 0, 0, 0, 0, 0, 0, 0, 0];
    assert_eq!(link.handle_hci_event(&request, ID0, ID1), HciAction::ReplyKey(HANDLE, stk));

    // Once encrypted, the long-term key goes out, and only once.
    let encrypted = [0x08, 4, 0, 0x40, 0, 1];
    let ltk = fixed_ltk(&LOCAL);
    assert_eq!(
        link.handle_hci_event(&encrypted, ID0, ID1),
        HciAction::SendBondKeys(HANDLE, ltk)
    );
    assert_eq!(link.handle_hci_event(&encrypted, ID0, ID1), HciAction::Nothing);

    // Without a pairing there is no short-term key; the bond is found by its name.
    assert_eq!(link.handle_hci_event(&request, ID0, ID1), HciAction::RejectKey(HANDLE));
    let mut bonded = vec![0x3e, 13, 5, 0x40, 0];
    bonded.extend_from_slice(&smp_fixed_rand());
    bonded.extend_from_slice(&SMP_FIXED_EDIV.to_le_bytes());
    assert_eq!(link.handle_hci_event(&bonded, ID0, ID1), HciAction::ReplyKey(HANDLE, ltk));
}

#[test]
fn wrong_random_value_ends_the_pairing() {
    let mut link = connected();
    paired_up_to_random(&mut link);
    let mut wrong = MRAND;
    wrong[3] ^= 1;
    let step = smp_pdu(&mut link, &with_opcode(0x04, &wrong));
    let step = settle(&mut link.smp, step);
    assert_eq!(step, SmpStep::SendFailed(0x04));
    assert_eq!(link.smp.stage, SmpStage::Idle);
    let packet = pairing_packet(HANDLE, step).unwrap();
    assert_eq!(packet, [0x40, 0, 6, 0, 2, 0, 6, 0, 0x05, 0x04]);
}

#[test]
fn pairing_needs_random_bytes() {
    let mut link = connected();
    assert_eq!(smp_pdu(&mut link, &PREQ), SmpStep::DrawRandom);
    assert_eq!(link.smp.on_random(None), SmpStep::SendFailed(0x08));
    assert_eq!(link.smp.stage, SmpStage::Idle);
    assert_eq!(link.smp.preq, [0; 7]);
    // Nothing else is expected now.
    assert_eq!(smp_pdu(&mut link, &with_opcode(0x03, &MRAND)), SmpStep::Nothing);
    assert_eq!(link.smp.on_block([0; 16]), SmpStep::Nothing);
    assert_eq!(link.smp.on_random(Some(SRAND)), SmpStep::Nothing);
    assert_eq!(pairing_packet(HANDLE, SmpStep::Nothing), None);

    let r = smp_random_128(Some([1; 8]), Some([2; 8])).unwrap();
    assert_eq!(r, [1, 1, 1, 1, 1, 1, 1, 1, 2, 2, 2, 2, 2, 2, 2, 2]);
    assert_eq!(smp_random_128(None, Some([2; 8])), None);
    assert_eq!(smp_random_128(Some([1; 8]), None), None);
}

#[test]
fn keys_and_addresses_are_derived() {
    assert_eq!(local_addr_bytes(ID0, ID1), LOCAL);
    assert_eq!(&fixed_ltk(&LOCAL)[..8], b"ElytraES");
    assert_eq!(&fixed_ltk(&LOCAL)[8..14], &LOCAL);
    assert_eq!(&fixed_ltk(&LOCAL)[14..], &[0x53, 0x45]);
    assert_eq!(&smp_fixed_rand(), b"ELYTRAES");
    let (info, id) = bond_key_pdus(&SRAND);
    assert_eq!(info, with_opcode(0x06, &SRAND));
    assert_eq!(&id[..3], &[0x07, 0x53, 0x45]);
    assert_eq!(&id[3..], b"ELYTRAES");
}

#[test]
fn blocks_of_a_confirm_value() {
    let random: [u8; 16] = [0, 1, 2, 3, 4, 5, 6, 7, 8, 9, 10, 11, 12, 13, 14, 15];
    let preq = [1, 2, 3, 4, 5, 6, 7];
    let pres = [11, 12, 13, 14, 15, 16, 17];
    assert_eq!(
        pairing_confirm_first(&random, &preq, &pres, 1, 0),
        [
            15 ^ 17,
            14 ^ 16,
            13 ^ 15,
            12 ^ 14,
            11 ^ 13,
            10 ^ 12,
            9 ^ 11,
            8 ^ 7,
            7 ^ 6,
            6 ^ 5,
            5 ^ 4,
            4 ^ 3,
            3 ^ 2,
            2 ^ 1,
            1,
            1,
        ]
    );
    assert_eq!(
        pairing_confirm_second(&[0; 16], &PEER, &LOCAL),
        [0, 0, 0, 0, 6, 5, 4, 3, 2, 1, 0xe6, 0x55, 0x44, 0x33, 0x22, 0x11]
    );
    assert_eq!(
        stk_from_randoms_block(&random, &[1; 16]),
        [7, 6, 5, 4, 3, 2, 1, 0, 1, 1, 1, 1, 1, 1, 1, 1]
    );
}

#[test]
fn services_are_discovered() {
    let all = [0x10, 1, 0, 0xff, 0xff, 0x00, 0x28];
    assert_eq!(handle_read_by_group_type(&all), [0x11, 6, 1, 0, 5, 0, 0x00, 0x18]);
    let rest = [0x10, 6, 0, 0xff, 0xff, 0x00, 0x28];
    assert_eq!(handle_read_by_group_type(&rest), [0x11, 6, 6, 0, 18, 0, 0x12, 0x18]);
    let past = [0x10, 19, 0, 0xff, 0xff, 0x00, 0x28];
    assert_eq!(handle_read_by_group_type(&past), [0x01, 0x10, 19, 0, 0x0a]);
    assert_eq!(handle_read_by_group_type(&[0x10, 1]), [0x01, 0x10, 0, 0, 0x04]);
}

#[test]
fn attributes_are_discovered() {
    assert_eq!(
        handle_find_information(&[0x04, 1, 0, 0xff, 0xff]),
        [
            0x05, 0x01, 2, 0, 0x03, 0x28, 3, 0, 0x00, 0x2a, 4, 0, 0x03, 0x28, 5, 0, 0x01, 0x2a, 7,
            0, 0x03, 0x28
        ]
    );
    assert_eq!(
        handle_find_information(&[0x04, 13, 0, 14, 0]),
        [0x05, 0x01, 13, 0, 0x08, 0x29, 14, 0, 0x02, 0x29]
    );
    assert_eq!(handle_find_information(&[0x04, 19, 0, 20, 0]), [0x01, 0x04, 19, 0, 0x0a]);
    assert_eq!(
        handle_read_by_type(&[0x08, 1, 0, 0xff, 0xff, 0x03, 0x28]),
        [
            0x09, 7, 2, 0, 0x02, 3, 0, 0x00, 0x2a, 4, 0, 0x02, 5, 0, 0x01, 0x2a, 7, 0, 0x06, 8, 0,
            0x4e, 0x2a
        ]
    );
    let name = handle_read_by_type(&[0x08, 1, 0, 0xff, 0xff, 0x00, 0x2a]);
    assert_eq!(&name[4..], b"Elytra ESB");
    assert_eq!(
        handle_read_by_type(&[0x08, 1, 0, 0xff, 0xff, 0x99, 0x2a]),
        [0x01, 0x08, 1, 0, 0x0a]
    );
    assert_eq!(handle_read_by_type(&[0x08, 1, 0, 5, 0]), [0x01, 0x08, 1, 0, 0x04]);
}

#[test]
fn report_map_is_read_in_pieces() {
    let first = handle_read(&[0x0a, 10, 0], false);
    assert_eq!((first[0], first.len()), (0x0b, 23));
    let second = handle_read_blob(&[0x0c, 10, 0, 22, 0]);
    let third = handle_read_blob(&[0x0c, 10, 0, 44, 0]);
    assert_eq!((second.len(), third.len()), (23, 4));
    assert_eq!(handle_read_blob(&[0x0c, 10, 0, 47, 0]), [0x0d]);
    assert_eq!(handle_read_blob(&[0x0c, 10, 0, 48, 0]), [0x01, 0x0c, 10, 0, 0x07]);
    assert_eq!(handle_read_blob(&[0x0c, 3, 0, 0, 0]), [0x01, 0x0c, 3, 0, 0x0a]);
    assert_eq!(handle_read_blob(&[0x0c, 3, 0]), [0x01, 0x0c, 0, 0, 0x04]);
    let mut map = first[1..].to_vec();
    map.extend_from_slice(&second[1..]);
    map.extend_from_slice(&third[1..]);
    assert_eq!(map.len(), 47);
    assert_eq!(&map[..4], &[0x05, 0x01, 0x09, 0x06]);
    assert_eq!(map[46], 0xc0);
}

#[test]
fn values_are_read() {
    assert_eq!(handle_read(&[0x0a, 3, 0], false), b"\x0bElytra ESB");
    assert_eq!(handle_read(&[0x0a, 5, 0], false), [0x0b, 0xc1, 0x03]);
    assert_eq!(handle_read(&[0x0a, 12, 0], false), [0x0b, 0, 0, 0, 0, 0, 0, 0, 0]);
    assert_eq!(handle_read(&[0x0a, 14, 0], true), [0x0b, 1, 0]);
    assert_eq!(handle_read(&[0x0a, 16, 0], false), [0x0b, 0x11, 0x01, 0x00, 0x03]);
    assert_eq!(handle_read(&[0x0a, 18, 0], false), [0x01, 0x0a, 18, 0, 0x0a]);
    assert_eq!(req_handle(&[0x0a, 0x34, 0x12]), 0x1234);
    assert_eq!(req_handle(&[0x0a]), 0);
    assert_eq!(att_range(&[0x04, 1, 0, 2]), None);
}

#[test]
fn notifications_are_switched() {
    let mut notify = false;
    assert_eq!(handle_att(&[0x12, 14, 0, 1, 0], &mut notify), Some(vec![0x13]));
    assert!(notify);
    assert_eq!(handle_att(&[0x52, 14, 0, 0, 0], &mut notify), None);
    assert!(!notify);
    // Another attribute does not switch them.
    assert_eq!(handle_att(&[0x12, 12, 0, 1, 0], &mut notify), Some(vec![0x13]));
    assert!(!notify);
    assert_eq!(handle_att(&[0x02, 64, 0], &mut notify), Some(vec![0x03, 23, 0]));
    assert_eq!(handle_att(&[0x16, 3, 0], &mut notify), Some(vec![0x01, 0x16, 3, 0, 0x06]));
    assert_eq!(handle_att(&[], &mut notify), None);
}

#[test]
fn packets_are_framed() {
    let packet = send_l2cap(0xf040, CID_ATT, &[1, 2, 3]).unwrap();
    assert_eq!(packet, [0x40, 0x00, 7, 0, 3, 0, 4, 0, 1, 2, 3]);
    assert_eq!(parse_acl(&packet), Some((0x0040, CID_ATT, &[1, 2, 3][..])));
    assert_eq!(parse_acl(&packet[..10]), None);
    assert_eq!(send_l2cap(1, CID_ATT, &[0; 64]).unwrap().len(), 72);
    assert_eq!(send_l2cap(1, CID_ATT, &[0; 65]), None);
    assert_eq!(handle_l2cap_control(&[0x12, 9, 8, 0]), Some([0x13, 9, 2, 0, 0, 0]));
    assert_eq!(handle_l2cap_control(&[0x15, 9, 0, 0]), Some([0x01, 9, 2, 0, 0x15, 0]));
    assert_eq!(handle_l2cap_control(&[0x12, 9]), None);
    assert_eq!(
        security_request(HANDLE).unwrap(),
        [0x40, 0, 6, 0, 2, 0, 6, 0, 0x0b, 0x01]
    );
    let (len, data) = advertising_data();
    assert_eq!(len, 23);
    assert_eq!(&data[13..23], b"Elytra ESB");
    assert_eq!(&data[23..], &[0; 8]);
}

#[test]
fn host_is_notified_while_connected() {
    let mut link = connected();
    let report = [2, 0, 4, 0, 0, 0, 0, 0];
    assert_eq!(link.notify_hid(&report), None);
    let write = send_l2cap(HANDLE, CID_ATT, &[0x12, 14, 0, 1, 0]).unwrap();
    match link.handle_acl(&write) {
        AclAction::Send(packet) => assert_eq!(packet, [0x40, 0, 5, 0, 1, 0, 4, 0, 0x13]),
        _ => panic!("no response"),
    }
    assert_eq!(
        link.notify_hid(&report).unwrap(),
        [0x40, 0, 15, 0, 11, 0, 4, 0, 0x1b, 12, 0, 2, 0, 4, 0, 0, 0, 0, 0]
    );
    let update = send_l2cap(HANDLE, CID_CONTROL, &[0x12, 1, 8, 0]).unwrap();
    assert!(matches!(link.handle_acl(&update), AclAction::Send(_)));
    let other = send_l2cap(HANDLE, 0x0041, &[1]).unwrap();
    assert!(matches!(link.handle_acl(&other), AclAction::Nothing));
    assert!(matches!(link.handle_acl(&[1, 2]), AclAction::Nothing));

    let gone = [0x05, 4, 0, 0x40, 0, 0x13];
    assert_eq!(link.handle_hci_event(&gone, ID0, ID1), HciAction::Disconnected);
    assert_eq!(link.conn_handle, CONN_NONE);
    assert_eq!(link.notify_hid(&report), None);
    assert_eq!(link.smp.stage, SmpStage::Idle);
    assert_eq!(link.handle_hci_event(&[0x0e, 4, 1, 2, 3, 4], ID0, ID1), HciAction::Nothing);
}
