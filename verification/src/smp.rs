//! Pairing with a host: the legacy "just works" procedure of the security manager.
//!
//! The procedure encrypts blocks and draws random numbers on its way. Both are
//! steps that its owner performs: a step asks for a block to be encrypted under the
//! zero key, or for sixteen random bytes, and goes on with the result.

use crate::bytes;
use crate::bytes::copy_into;
use vstd::prelude::*;

verus! {

/// Opcode of a pairing request.
pub const SMP_PAIRING_REQUEST: u8 = 0x01;

/// Opcode of a pairing response.
pub const SMP_PAIRING_RESPONSE: u8 = 0x02;

/// Opcode of a confirm value.
pub const SMP_PAIRING_CONFIRM: u8 = 0x03;

/// Opcode of a random value.
pub const SMP_PAIRING_RANDOM: u8 = 0x04;

/// Opcode of a failure.
pub const SMP_PAIRING_FAILED: u8 = 0x05;

/// Opcode of the long-term key.
pub const SMP_ENCRYPTION_INFORMATION: u8 = 0x06;

/// Opcode of the identity of the long-term key.
pub const SMP_MASTER_IDENTIFICATION: u8 = 0x07;

/// Opcode of a security request.
pub const SMP_SECURITY_REQUEST: u8 = 0x0b;

/// Bonding is wanted.
pub const SMP_AUTH_BONDING: u8 = 0x01;

/// The long-term key is distributed.
pub const SMP_KEYDIST_ENCKEY: u8 = 0x01;

/// Identity of the long-term key: its diversifier.
pub const SMP_FIXED_EDIV: u16 = 0x4553;

/// Reason of a failure: the confirm value does not match.
pub const SMP_CONFIRM_FAILED: u8 = 0x04;

/// Reason of a failure: unspecified.
pub const SMP_UNSPECIFIED: u8 = 0x08;

/// Identity of the long-term key: its random number.
pub open spec fn fixed_rand() -> Seq<u8> {
    seq![0x45u8, 0x4c, 0x59, 0x54, 0x52, 0x41, 0x45, 0x53]
}

/// Identity of the long-term key: its random number.
pub fn smp_fixed_rand() -> (r: [u8; 8])
    ensures
        r@ == fixed_rand(),
{
    let r: [u8; 8] = [0x45, 0x4c, 0x59, 0x54, 0x52, 0x41, 0x45, 0x53];
    assert(r@ =~= fixed_rand());
    r
}

/// Where a pairing stands.
#[derive(Debug, Clone, Copy, PartialEq, Eq, Structural)]
pub enum SmpStage {
    /// Nothing is going on.
    Idle,
    /// The initiator's confirm value comes next.
    WaitConfirm,
    /// The initiator's random value comes next.
    WaitRandom,
    /// The link is to be encrypted next.
    WaitEncrypted,
}

/// What a step waits for.
#[derive(Debug, Clone, Copy, PartialEq, Eq, Structural)]
pub enum SmpTask {
    /// Nothing.
    Nothing,
    /// Random bytes for a pairing request.
    Random,
    /// First block of our confirm value.
    ConfirmFirst,
    /// Second block of our confirm value.
    ConfirmSecond,
    /// First block of the initiator's confirm value.
    VerifyFirst,
    /// Second block of the initiator's confirm value.
    VerifySecond,
    /// The short-term key.
    ShortTermKey,
}

/// What is to be done next.
#[derive(Debug, Clone, Copy, PartialEq, Eq)]
pub enum SmpStep {
    /// Nothing.
    Nothing,
    /// Draw sixteen random bytes, and call `on_random`.
    DrawRandom,
    /// Encrypt a block under the zero key, and call `on_block`.
    Encrypt([u8; 16]),
    /// Send a pairing response.
    SendResponse([u8; 7]),
    /// Send a confirm or random value.
    SendValue([u8; 17]),
    /// Send a failure with its reason.
    SendFailed(u8),
}

/// What is to be done next, in plain values.
#[verifier::ext_equal]
pub enum SmpDo {
    /// Nothing.
    Nothing,
    /// Draw sixteen random bytes.
    DrawRandom,
    /// Encrypt a block.
    Encrypt(Seq<u8>),
    /// Send this.
    Send(Seq<u8>),
}

impl SmpStep {
    /// The step in plain values.
    pub open spec fn act(self) -> SmpDo {
        match self {
            SmpStep::Nothing => SmpDo::Nothing,
            SmpStep::DrawRandom => SmpDo::DrawRandom,
            SmpStep::Encrypt(block) => SmpDo::Encrypt(block@),
            SmpStep::SendResponse(pdu) => SmpDo::Send(pdu@),
            SmpStep::SendValue(pdu) => SmpDo::Send(pdu@),
            SmpStep::SendFailed(reason) => SmpDo::Send(seq![SMP_PAIRING_FAILED, reason]),
        }
    }
}

/// State of a pairing.
pub struct SmpState {
    /// Where it stands.
    pub stage: SmpStage,
    /// What it waits for.
    pub task: SmpTask,
    /// Our address.
    pub local_addr: [u8; 6],
    /// Address of the initiator.
    pub peer_addr: [u8; 6],
    /// Type of that address.
    pub peer_addr_type: u8,
    /// Pairing request that waits for random bytes.
    pub incoming: [u8; 7],
    /// Pairing request.
    pub preq: [u8; 7],
    /// Pairing response.
    pub pres: [u8; 7],
    /// Our random value.
    pub srand: [u8; 16],
    /// The initiator's random value.
    pub mrand: [u8; 16],
    /// The initiator's confirm value.
    pub mconfirm: [u8; 16],
    /// Short-term key.
    pub stk: [u8; 16],
    /// Long-term key.
    pub ltk: [u8; 16],
}

/// State of a pairing, in plain values.
#[verifier::ext_equal]
pub struct SmpView {
    /// Where it stands.
    pub stage: SmpStage,
    /// What it waits for.
    pub task: SmpTask,
    /// Our address.
    pub local_addr: Seq<u8>,
    /// Address of the initiator.
    pub peer_addr: Seq<u8>,
    /// Type of that address.
    pub peer_addr_type: u8,
    /// Pairing request that waits for random bytes.
    pub incoming: Seq<u8>,
    /// Pairing request.
    pub preq: Seq<u8>,
    /// Pairing response.
    pub pres: Seq<u8>,
    /// Our random value.
    pub srand: Seq<u8>,
    /// The initiator's random value.
    pub mrand: Seq<u8>,
    /// The initiator's confirm value.
    pub mconfirm: Seq<u8>,
    /// Short-term key.
    pub stk: Seq<u8>,
    /// Long-term key.
    pub ltk: Seq<u8>,
}

impl View for SmpState {
    type V = SmpView;

    open spec fn view(&self) -> SmpView {
        SmpView {
            stage: self.stage,
            task: self.task,
            local_addr: self.local_addr@,
            peer_addr: self.peer_addr@,
            peer_addr_type: self.peer_addr_type,
            incoming: self.incoming@,
            preq: self.preq@,
            pres: self.pres@,
            srand: self.srand@,
            mrand: self.mrand@,
            mconfirm: self.mconfirm@,
            stk: self.stk@,
            ltk: self.ltk@,
        }
    }
}

/// `n` zero bytes.
pub open spec fn zeros(n: nat) -> Seq<u8> {
    Seq::new(n, |i: int| 0u8)
}

/// Sixteen bytes, each the exclusive or of two.
pub open spec fn xor16(a: Seq<u8>, b: Seq<u8>) -> Seq<u8> {
    Seq::new(16, |i: int| a[i] ^ b[i])
}

/// What the first block of a confirm value is mixed with: both PDUs and the types
/// of both addresses.
pub open spec fn confirm_p1(preq: Seq<u8>, pres: Seq<u8>, iat: u8, rat: u8) -> Seq<u8> {
    pres.reverse() + preq.reverse() + seq![rat & 0x01, iat & 0x01]
}

/// What the second block of a confirm value is mixed with: both addresses.
pub open spec fn confirm_p2(ia: Seq<u8>, ra: Seq<u8>) -> Seq<u8> {
    zeros(4) + ia.reverse() + ra.reverse()
}

/// The block that a short-term key is made of: half of each random value.
pub open spec fn stk_block(rr: Seq<u8>, ir: Seq<u8>) -> Seq<u8> {
    rr.reverse().subrange(8, 16) + ir.reverse().subrange(8, 16)
}

impl SmpView {
    /// First block of the confirm value of `random`.
    pub open spec fn first_block(self, random: Seq<u8>) -> Seq<u8> {
        xor16(random.reverse(), confirm_p1(self.preq, self.pres, self.peer_addr_type, 0))
    }

    /// Second block of a confirm value, from the first one encrypted.
    pub open spec fn second_block(self, block: Seq<u8>) -> Seq<u8> {
        xor16(block, confirm_p2(self.peer_addr, self.local_addr))
    }

    /// The confirm value of `random` under the encryption `e`.
    pub open spec fn confirm_value(self, random: Seq<u8>, e: spec_fn(Seq<u8>) -> Seq<u8>) -> Seq<
        u8,
    > {
        e(self.second_block(e(self.first_block(random)))).reverse()
    }

    /// The pairing is forgotten; addresses and long-term key stay.
    pub open spec fn reset(self) -> SmpView {
        SmpView {
            stage: SmpStage::Idle,
            task: SmpTask::Nothing,
            incoming: zeros(7),
            preq: zeros(7),
            pres: zeros(7),
            srand: zeros(16),
            mrand: zeros(16),
            mconfirm: zeros(16),
            stk: zeros(16),
            ..self
        }
    }

    /// A host has connected.
    pub open spec fn connected(
        self,
        local_addr: Seq<u8>,
        peer_addr: Seq<u8>,
        peer_addr_type: u8,
    ) -> SmpView {
        SmpView {
            local_addr,
            peer_addr,
            peer_addr_type: peer_addr_type & 0x01,
            ltk: fixed_ltk_of(local_addr),
            ..self.reset()
        }
    }

    /// A PDU has come.
    pub open spec fn on_pdu(self, pdu: Seq<u8>) -> (SmpView, SmpDo) {
        if pdu.len() >= 7 && pdu[0] == SMP_PAIRING_REQUEST {
            (
                SmpView { task: SmpTask::Random, incoming: pdu.take(7), ..self },
                SmpDo::DrawRandom,
            )
        } else if pdu.len() >= 17 && pdu[0] == SMP_PAIRING_CONFIRM && self.stage
            == SmpStage::WaitConfirm {
            let s = SmpView {
                mconfirm: pdu.subrange(1, 17),
                stage: SmpStage::WaitRandom,
                task: SmpTask::ConfirmFirst,
                ..self
            };
            (s, SmpDo::Encrypt(s.first_block(s.srand)))
        } else if pdu.len() >= 17 && pdu[0] == SMP_PAIRING_RANDOM && self.stage
            == SmpStage::WaitRandom {
            let s = SmpView {
                mrand: pdu.subrange(1, 17),
                task: SmpTask::VerifyFirst,
                ..self
            };
            (s, SmpDo::Encrypt(s.first_block(s.mrand)))
        } else {
            (self, SmpDo::Nothing)
        }
    }

    /// Random bytes have come, or could not be had.
    pub open spec fn on_random(self, random: Option<Seq<u8>>) -> (SmpView, SmpDo) {
        if self.task != SmpTask::Random {
            (self, SmpDo::Nothing)
        } else {
            match random {
                None => (
                    SmpView { task: SmpTask::Nothing, ..self },
                    SmpDo::Send(seq![SMP_PAIRING_FAILED, SMP_UNSPECIFIED]),
                ),
                Some(srand) => (
                    SmpView {
                        task: SmpTask::Nothing,
                        stage: SmpStage::WaitConfirm,
                        preq: self.incoming,
                        pres: response(),
                        srand,
                        stk: zeros(16),
                        ..self
                    },
                    SmpDo::Send(response()),
                ),
            }
        }
    }

    /// A block has been encrypted.
    pub open spec fn on_block(self, block: Seq<u8>) -> (SmpView, SmpDo) {
        match self.task {
            SmpTask::ConfirmFirst => (
                SmpView { task: SmpTask::ConfirmSecond, ..self },
                SmpDo::Encrypt(self.second_block(block)),
            ),
            SmpTask::ConfirmSecond => (
                SmpView { task: SmpTask::Nothing, ..self },
                SmpDo::Send(seq![SMP_PAIRING_CONFIRM] + block.reverse()),
            ),
            SmpTask::VerifyFirst => (
                SmpView { task: SmpTask::VerifySecond, ..self },
                SmpDo::Encrypt(self.second_block(block)),
            ),
            SmpTask::VerifySecond => if block.reverse() == self.mconfirm {
                (
                    SmpView { task: SmpTask::ShortTermKey, ..self },
                    SmpDo::Encrypt(stk_block(self.srand, self.mrand)),
                )
            } else {
                (
                    self.reset(),
                    SmpDo::Send(seq![SMP_PAIRING_FAILED, SMP_CONFIRM_FAILED]),
                )
            },
            SmpTask::ShortTermKey => (
                SmpView {
                    task: SmpTask::Nothing,
                    stage: SmpStage::WaitEncrypted,
                    stk: block.reverse(),
                    ..self
                },
                SmpDo::Send(seq![SMP_PAIRING_RANDOM] + self.srand),
            ),
            _ => (self, SmpDo::Nothing),
        }
    }

    /// The key for a request that names it by `rand` and `ediv`: the short-term key
    /// while a pairing is going on, or the long-term key.
    pub open spec fn key_for(self, rand: Seq<u8>, ediv: u16) -> Option<Seq<u8>> {
        if ediv == 0 && rand == zeros(8) && self.stage != SmpStage::Idle {
            Some(self.stk)
        } else if ediv == SMP_FIXED_EDIV && rand == fixed_rand() {
            Some(self.ltk)
        } else {
            None
        }
    }
}

/// The pairing response: no input and no output, bonding, a full-length key, and the
/// long-term key distributed.
pub open spec fn response() -> Seq<u8> {
    seq![
        SMP_PAIRING_RESPONSE,
        0x03u8,
        0x00u8,
        SMP_AUTH_BONDING,
        16u8,
        0x00u8,
        SMP_KEYDIST_ENCKEY,
    ]
}

/// The long-term key of a device with this address.
pub open spec fn fixed_ltk_of(local_addr: Seq<u8>) -> Seq<u8> {
    seq![0x45u8, 0x6c, 0x79, 0x74, 0x72, 0x61, 0x45, 0x53] + local_addr + bytes::u16_le(
        SMP_FIXED_EDIV,
    )
}

/// The long-term key of a device with this address.
pub fn fixed_ltk(local_addr: &[u8; 6]) -> (ltk: [u8; 16])
    ensures
        ltk@ == fixed_ltk_of(local_addr@),
{
    let ltk: [u8; 16] = [
        0x45,
        0x6c,
        0x79,
        0x74,
        0x72,
        0x61,
        0x45,
        0x53,
        local_addr[0],
        local_addr[1],
        local_addr[2],
        local_addr[3],
        local_addr[4],
        local_addr[5],
        0x53,
        0x45,
    ];
    assert(ltk@ =~= fixed_ltk_of(local_addr@));
    ltk
}

/// The address of a device with this identifier: its lower bytes, with the two bits
/// set that mark a static random address.
pub open spec fn addr_of(id0: u32, id1: u32) -> Seq<u8> {
    bytes::u32_le(id0) + seq![(id1 % 256) as u8, ((id1 / 256) % 256) as u8 | 0xc0u8]
}

/// The address of a device with this identifier.
pub fn local_addr_bytes(id0: u32, id1: u32) -> (addr: [u8; 6])
    ensures
        addr@ == addr_of(id0, id1),
{
    let addr: [u8; 6] = [
        (id0 % 256) as u8,
        ((id0 / 0x100) % 256) as u8,
        ((id0 / 0x1_0000) % 256) as u8,
        (id0 / 0x100_0000) as u8,
        (id1 % 256) as u8,
        ((id1 / 256) % 256) as u8 | 0xc0u8,
    ];
    assert(addr@ =~= addr_of(id0, id1));
    addr
}

/// Sixteen random bytes, of two draws of eight; none where a draw failed.
pub fn smp_random_128(lo: Option<[u8; 8]>, hi: Option<[u8; 8]>) -> (r: Option<[u8; 16]>)
    ensures
        lo is Some && hi is Some ==> r is Some && r->0@ == lo->0@ + hi->0@,
        lo is None || hi is None ==> r is None,
{
    match (lo, hi) {
        (Some(lo), Some(hi)) => {
            let mut out: [u8; 16] = [0; 16];
            copy_into(&mut out, 0, &lo);
            copy_into(&mut out, 8, &hi);
            assert(out@ =~= lo@ + hi@);
            Some(out)
        },
        _ => None,
    }
}

/// Sixteen bytes reversed.
fn reverse16(a: &[u8; 16]) -> (r: [u8; 16])
    ensures
        r@ == a@.reverse(),
{
    let mut r: [u8; 16] = [0; 16];
    let mut i: usize = 0;
    while i < 16
        invariant
            i <= 16,
            forall|j: int| 0 <= j < i ==> r@[j] == a@[15 - j],
        decreases 16 - i,
    {
        r[i] = a[15 - i];
        i = i + 1;
    }
    assert(r@ =~= a@.reverse());
    r
}

/// Exclusive or of sixteen bytes.
fn xor_block(a: &[u8; 16], b: &[u8; 16]) -> (r: [u8; 16])
    ensures
        r@ == xor16(a@, b@),
{
    let mut r: [u8; 16] = [0; 16];
    let mut i: usize = 0;
    while i < 16
        invariant
            i <= 16,
            forall|j: int| 0 <= j < i ==> r@[j] == a@[j] ^ b@[j],
        decreases 16 - i,
    {
        r[i] = a[i] ^ b[i];
        i = i + 1;
    }
    assert(r@ =~= xor16(a@, b@));
    r
}

/// Whether two blocks are the same.
fn same_block(a: &[u8; 16], b: &[u8; 16]) -> (r: bool)
    ensures
        r == (a@ == b@),
{
    let mut i: usize = 0;
    while i < 16
        invariant
            i <= 16,
            forall|j: int| 0 <= j < i ==> a@[j] == b@[j],
        decreases 16 - i,
    {
        if a[i] != b[i] {
            assert(a@[i as int] != b@[i as int]);
            return false;
        }
        i = i + 1;
    }
    assert(a@ =~= b@);
    true
}

/// Sixteen bytes out of a PDU, after its opcode.
fn value_of(pdu: &[u8]) -> (r: [u8; 16])
    requires
        pdu@.len() >= 17,
    ensures
        r@ == pdu@.subrange(1, 17),
{
    let mut r: [u8; 16] = [0; 16];
    copy_into(&mut r, 0, &pdu[1..17]);
    assert(r@ =~= pdu@.subrange(1, 17));
    r
}

/// A value with its opcode in front.
fn with_opcode(opcode: u8, value: &[u8; 16]) -> (r: [u8; 17])
    ensures
        r@ == seq![opcode] + value@,
{
    let mut r: [u8; 17] = [0; 17];
    r[0] = opcode;
    copy_into(&mut r, 1, value);
    assert(r@ =~= seq![opcode] + value@);
    r
}

/// First block of a confirm value.
pub fn pairing_confirm_first(
    random: &[u8; 16],
    preq: &[u8; 7],
    pres: &[u8; 7],
    initiator_addr_type: u8,
    responder_addr_type: u8,
) -> (block: [u8; 16])
    ensures
        block@ == xor16(
            random@.reverse(),
            confirm_p1(preq@, pres@, initiator_addr_type, responder_addr_type),
        ),
{
    let p1: [u8; 16] = [
        pres[6],
        pres[5],
        pres[4],
        pres[3],
        pres[2],
        pres[1],
        pres[0],
        preq[6],
        preq[5],
        preq[4],
        preq[3],
        preq[2],
        preq[1],
        preq[0],
        responder_addr_type & 0x01,
        initiator_addr_type & 0x01,
    ];
    assert(p1@ =~= confirm_p1(preq@, pres@, initiator_addr_type, responder_addr_type));
    xor_block(&reverse16(random), &p1)
}

/// Second block of a confirm value, from the first one encrypted.
pub fn pairing_confirm_second(
    block: &[u8; 16],
    initiator_addr: &[u8; 6],
    responder_addr: &[u8; 6],
) -> (r: [u8; 16])
    ensures
        r@ == xor16(block@, confirm_p2(initiator_addr@, responder_addr@)),
{
    let p2: [u8; 16] = [
        0,
        0,
        0,
        0,
        initiator_addr[5],
        initiator_addr[4],
        initiator_addr[3],
        initiator_addr[2],
        initiator_addr[1],
        initiator_addr[0],
        responder_addr[5],
        responder_addr[4],
        responder_addr[3],
        responder_addr[2],
        responder_addr[1],
        responder_addr[0],
    ];
    assert(p2@ =~= confirm_p2(initiator_addr@, responder_addr@));
    xor_block(block, &p2)
}

/// The block that a short-term key is made of.
pub fn stk_from_randoms_block(responder_random: &[u8; 16], initiator_random: &[u8; 16]) -> (block:
    [u8; 16])
    ensures
        block@ == stk_block(responder_random@, initiator_random@),
{
    let rr: [u8; 16] = reverse16(responder_random);
    let ir: [u8; 16] = reverse16(initiator_random);
    let mut block: [u8; 16] = [0; 16];
    copy_into(&mut block, 0, &rr[8..16]);
    copy_into(&mut block, 8, &ir[8..16]);
    assert(block@ =~= stk_block(responder_random@, initiator_random@));
    block
}

/// No pairing, and no address known.
pub open spec fn no_pairing() -> SmpView {
    SmpView {
        stage: SmpStage::Idle,
        task: SmpTask::Nothing,
        local_addr: zeros(6),
        peer_addr: zeros(6),
        peer_addr_type: 0,
        incoming: zeros(7),
        preq: zeros(7),
        pres: zeros(7),
        srand: zeros(16),
        mrand: zeros(16),
        mconfirm: zeros(16),
        stk: zeros(16),
        ltk: zeros(16),
    }
}

impl SmpState {
    /// No pairing, and no address known.
    pub fn new() -> (s: Self)
        ensures
            s@ == no_pairing(),
    {
        SmpState {
            stage: SmpStage::Idle,
            task: SmpTask::Nothing,
            local_addr: [0; 6],
            peer_addr: [0; 6],
            peer_addr_type: 0,
            incoming: [0; 7],
            preq: [0; 7],
            pres: [0; 7],
            srand: [0; 16],
            mrand: [0; 16],
            mconfirm: [0; 16],
            stk: [0; 16],
            ltk: [0; 16],
        }
    }

    /// Forget the pairing.
    pub fn reset_pairing(&mut self)
        ensures
            final(self)@ == old(self)@.reset(),
    {
        self.stage = SmpStage::Idle;
        self.task = SmpTask::Nothing;
        self.incoming = [0; 7];
        self.preq = [0; 7];
        self.pres = [0; 7];
        self.srand = [0; 16];
        self.mrand = [0; 16];
        self.mconfirm = [0; 16];
        self.stk = [0; 16];
    }

    /// A host has connected.
    pub fn connect(&mut self, local_addr: [u8; 6], peer_addr: [u8; 6], peer_addr_type: u8)
        ensures
            final(self)@ == old(self)@.connected(local_addr@, peer_addr@, peer_addr_type),
    {
        self.reset_pairing();
        self.ltk = fixed_ltk(&local_addr);
        self.local_addr = local_addr;
        self.peer_addr = peer_addr;
        self.peer_addr_type = peer_addr_type & 0x01;
    }

    /// First block of the confirm value of `random`.
    fn first(&self, random: &[u8; 16]) -> (block: [u8; 16])
        ensures
            block@ == self@.first_block(random@),
    {
        pairing_confirm_first(random, &self.preq, &self.pres, self.peer_addr_type, 0)
    }

    /// Second block of a confirm value.
    fn second(&self, block: &[u8; 16]) -> (r: [u8; 16])
        ensures
            r@ == self@.second_block(block@),
    {
        pairing_confirm_second(block, &self.peer_addr, &self.local_addr)
    }

    /// Take a PDU of the security manager.
    pub fn handle_smp(&mut self, pdu: &[u8]) -> (step: SmpStep)
        ensures
            final(self)@ == old(self)@.on_pdu(pdu@).0,
            step.act() == old(self)@.on_pdu(pdu@).1,
    {
        if pdu.len() >= 7 && pdu[0] == SMP_PAIRING_REQUEST {
            let mut preq: [u8; 7] = [0; 7];
            copy_into(&mut preq, 0, &pdu[0..7]);
            assert(preq@ =~= pdu@.take(7));
            self.incoming = preq;
            self.task = SmpTask::Random;
            SmpStep::DrawRandom
        } else if pdu.len() >= 17 && pdu[0] == SMP_PAIRING_CONFIRM && self.stage
            == SmpStage::WaitConfirm {
            self.mconfirm = value_of(pdu);
            self.stage = SmpStage::WaitRandom;
            self.task = SmpTask::ConfirmFirst;
            SmpStep::Encrypt(self.first(&self.srand))
        } else if pdu.len() >= 17 && pdu[0] == SMP_PAIRING_RANDOM && self.stage
            == SmpStage::WaitRandom {
            self.mrand = value_of(pdu);
            self.task = SmpTask::VerifyFirst;
            SmpStep::Encrypt(self.first(&self.mrand))
        } else {
            SmpStep::Nothing
        }
    }

    /// Go on with random bytes, or without where they could not be had.
    pub fn on_random(&mut self, random: Option<[u8; 16]>) -> (step: SmpStep)
        ensures
            ({
                let r = match random {
                    Some(a) => Some(a@),
                    None => None,
                };
                &&& final(self)@ == old(self)@.on_random(r).0
                &&& step.act() == old(self)@.on_random(r).1
            }),
    {
        if self.task != SmpTask::Random {
            return SmpStep::Nothing;
        }
        self.task = SmpTask::Nothing;
        match random {
            None => SmpStep::SendFailed(SMP_UNSPECIFIED),
            Some(srand) => {
                let pres: [u8; 7] = [
                    SMP_PAIRING_RESPONSE,
                    0x03,
                    0x00,
                    SMP_AUTH_BONDING,
                    16,
                    0x00,
                    SMP_KEYDIST_ENCKEY,
                ];
                assert(pres@ =~= response());
                self.stage = SmpStage::WaitConfirm;
                self.preq = self.incoming;
                self.pres = pres;
                self.srand = srand;
                self.stk = [0; 16];
                SmpStep::SendResponse(pres)
            },
        }
    }

    /// Go on with an encrypted block.
    pub fn on_block(&mut self, block: [u8; 16]) -> (step: SmpStep)
        ensures
            final(self)@ == old(self)@.on_block(block@).0,
            step.act() == old(self)@.on_block(block@).1,
    {
        match self.task {
            SmpTask::ConfirmFirst => {
                self.task = SmpTask::ConfirmSecond;
                SmpStep::Encrypt(self.second(&block))
            },
            SmpTask::ConfirmSecond => {
                self.task = SmpTask::Nothing;
                SmpStep::SendValue(with_opcode(SMP_PAIRING_CONFIRM, &reverse16(&block)))
            },
            SmpTask::VerifyFirst => {
                self.task = SmpTask::VerifySecond;
                SmpStep::Encrypt(self.second(&block))
            },
            SmpTask::VerifySecond => {
                if same_block(&reverse16(&block), &self.mconfirm) {
                    self.task = SmpTask::ShortTermKey;
                    SmpStep::Encrypt(stk_from_randoms_block(&self.srand, &self.mrand))
                } else {
                    self.reset_pairing();
                    SmpStep::SendFailed(SMP_CONFIRM_FAILED)
                }
            },
            SmpTask::ShortTermKey => {
                self.task = SmpTask::Nothing;
                self.stk = reverse16(&block);
                self.stage = SmpStage::WaitEncrypted;
                SmpStep::SendValue(with_opcode(SMP_PAIRING_RANDOM, &self.srand))
            },
            _ => SmpStep::Nothing,
        }
    }

    /// The key for a request of the controller, if there is one.
    pub fn ltk_for(&self, rand: &[u8; 8], ediv: u16) -> (key: Option<[u8; 16]>)
        ensures
            match self@.key_for(rand@, ediv) {
                Some(k) => key is Some && key->0@ == k,
                None => key is None,
            },
    {
        let zero: [u8; 8] = [0; 8];
        assert(zero@ =~= zeros(8));
        if ediv == 0 && same_rand(rand, &zero) && self.stage != SmpStage::Idle {
            return Some(self.stk);
        }
        if ediv == SMP_FIXED_EDIV && same_rand(rand, &smp_fixed_rand()) {
            return Some(self.ltk);
        }
        None
    }

    /// The link is encrypted: the long-term key to distribute, once per pairing.
    pub fn take_bond_key(&mut self) -> (key: Option<[u8; 16]>)
        ensures
            old(self)@.stage == SmpStage::WaitEncrypted ==> {
                &&& key is Some && key->0@ == old(self)@.ltk
                &&& final(self)@ == (SmpView { stage: SmpStage::Idle, ..old(self)@ })
            },
            old(self)@.stage != SmpStage::WaitEncrypted ==> key is None && final(self)@ == old(
                self,
            )@,
    {
        if self.stage == SmpStage::WaitEncrypted {
            self.stage = SmpStage::Idle;
            Some(self.ltk)
        } else {
            None
        }
    }
}

/// Whether two random numbers are the same.
fn same_rand(a: &[u8; 8], b: &[u8; 8]) -> (r: bool)
    ensures
        r == (a@ == b@),
{
    let mut i: usize = 0;
    while i < 8
        invariant
            i <= 8,
            forall|j: int| 0 <= j < i ==> a@[j] == b@[j],
        decreases 8 - i,
    {
        if a[i] != b[i] {
            assert(a@[i as int] != b@[i as int]);
            return false;
        }
        i = i + 1;
    }
    assert(a@ =~= b@);
    true
}

/// The first PDU of the long-term key: the key itself.
pub open spec fn encryption_information(ltk: Seq<u8>) -> Seq<u8> {
    seq![SMP_ENCRYPTION_INFORMATION] + ltk
}

/// The second PDU of the long-term key: its identity.
pub open spec fn master_identification() -> Seq<u8> {
    seq![SMP_MASTER_IDENTIFICATION] + bytes::u16_le(SMP_FIXED_EDIV) + fixed_rand()
}

/// The two PDUs that distribute a long-term key.
pub fn bond_key_pdus(ltk: &[u8; 16]) -> (r: ([u8; 17], [u8; 11]))
    ensures
        r.0@ == encryption_information(ltk@),
        r.1@ == master_identification(),
{
    let master: [u8; 11] = [
        SMP_MASTER_IDENTIFICATION,
        0x53,
        0x45,
        0x45,
        0x4c,
        0x59,
        0x54,
        0x52,
        0x41,
        0x45,
        0x53,
    ];
    assert(master@ =~= master_identification());
    (with_opcode(SMP_ENCRYPTION_INFORMATION, ltk), master)
}

/// A confirm value is answered with ours: under any encryption, the two blocks that
/// are asked for lead to the confirm value of our random number.
pub proof fn law_confirm_is_answered(
    s: SmpView,
    pdu: Seq<u8>,
    e: spec_fn(Seq<u8>) -> Seq<u8>,
)
    requires
        s.stage == SmpStage::WaitConfirm,
        pdu.len() >= 17,
        pdu[0] == SMP_PAIRING_CONFIRM,
    ensures
        ({
            let (s1, d1) = s.on_pdu(pdu);
            let (s2, d2) = s1.on_block(e(d1->Encrypt_0));
            let (s3, d3) = s2.on_block(e(d2->Encrypt_0));
            &&& d1 is Encrypt && d2 is Encrypt
            &&& d3 == SmpDo::Send(
                seq![SMP_PAIRING_CONFIRM] + s.confirm_value(s.srand, e),
            )
            &&& s3.stage == SmpStage::WaitRandom
            &&& s3.mconfirm == pdu.subrange(1, 17)
        }),
{
}

/// A random value is checked against the confirm value that came before it: only
/// where they match is our random value revealed and a key made.
pub proof fn law_random_is_checked(s: SmpView, pdu: Seq<u8>, e: spec_fn(Seq<u8>) -> Seq<u8>)
    requires
        s.stage == SmpStage::WaitRandom,
        pdu.len() >= 17,
        pdu[0] == SMP_PAIRING_RANDOM,
    ensures
        ({
            let mrand = pdu.subrange(1, 17);
            let (s1, d1) = s.on_pdu(pdu);
            let (s2, d2) = s1.on_block(e(d1->Encrypt_0));
            let (s3, d3) = s2.on_block(e(d2->Encrypt_0));
            let (s4, d4) = s3.on_block(e(d3->Encrypt_0));
            &&& d1 is Encrypt && d2 is Encrypt
            &&& s.confirm_value(mrand, e) == s.mconfirm ==> {
                &&& d3 is Encrypt
                &&& d4 == SmpDo::Send(seq![SMP_PAIRING_RANDOM] + s.srand)
                &&& s4.stage == SmpStage::WaitEncrypted
                &&& s4.stk == e(stk_block(s.srand, mrand)).reverse()
            }
            &&& s.confirm_value(mrand, e) != s.mconfirm ==> {
                &&& d3 == SmpDo::Send(seq![SMP_PAIRING_FAILED, SMP_CONFIRM_FAILED])
                &&& s3 == s.reset()
            }
        }),
{
    let s1 = s.on_pdu(pdu).0;
    if s.confirm_value(pdu.subrange(1, 17), e) != s.mconfirm {
        assert(s1.reset() =~= s.reset());
    }
}

/// Without a pairing no short-term key is given out.
pub proof fn law_no_stk_without_pairing(s: SmpView, rand: Seq<u8>, ediv: u16)
    requires
        s.stage == SmpStage::Idle,
    ensures
        s.key_for(rand, ediv) matches Some(k) ==> k == s.ltk && ediv == SMP_FIXED_EDIV,
{
}

/// The keys that are distributed are the ones that are found again: the identity
/// that goes out with the long-term key is the one under which it is given out.
pub proof fn law_bonded_key_is_found(s: SmpView)
    ensures
        s.key_for(fixed_rand(), SMP_FIXED_EDIV) == Some(s.ltk),
        master_identification().subrange(3, 11) == fixed_rand(),
        bytes::u16_at(master_identification(), 1) == SMP_FIXED_EDIV,
{
    assert(master_identification().subrange(3, 11) =~= fixed_rand());
}

/// Where the bytes of the blocks come from: the first block mixes the random value
/// with the response, the request and both types of address, the second one mixes in
/// both addresses, and the block of the short-term key takes half of each random
/// value, ours first.
pub proof fn law_block_bytes(s: SmpView, random: Seq<u8>, block: Seq<u8>, other: Seq<u8>, i: int)
    requires
        random.len() == 16,
        other.len() == 16,
        block.len() == 16,
        s.preq.len() == 7,
        s.pres.len() == 7,
        s.peer_addr.len() == 6,
        s.local_addr.len() == 6,
        0 <= i < 16,
    ensures
        i < 7 ==> s.first_block(random)[i] == random[15 - i] ^ s.pres[6 - i],
        7 <= i < 14 ==> s.first_block(random)[i] == random[15 - i] ^ s.preq[13 - i],
        i == 14 ==> s.first_block(random)[i] == random[1],
        i == 15 ==> s.first_block(random)[i] == random[0] ^ (s.peer_addr_type & 0x01),
        i < 4 ==> s.second_block(block)[i] == block[i],
        4 <= i < 10 ==> s.second_block(block)[i] == block[i] ^ s.peer_addr[9 - i],
        10 <= i < 16 ==> s.second_block(block)[i] == block[i] ^ s.local_addr[15 - i],
        i < 8 ==> stk_block(random, other)[i] == random[7 - i],
        i >= 8 ==> stk_block(random, other)[i] == other[15 - i],
{
    let b = random[1];
    let c = block[i];
    assert(b ^ (0u8 & 0x01) == b && c ^ 0u8 == c) by (bit_vector);
}

/// A whole pairing: after a request, our response, the host's confirm value and its
/// random value, both sides hold the key of the two random values, and it is the key
/// that is given out for the connection.
pub proof fn law_pairing_agrees_on_key(
    s: SmpView,
    request: Seq<u8>,
    srand: Seq<u8>,
    mrand: Seq<u8>,
    e: spec_fn(Seq<u8>) -> Seq<u8>,
)
    requires
        request.len() >= 7,
        request[0] == SMP_PAIRING_REQUEST,
        srand.len() == 16,
        mrand.len() == 16,
        forall|b: Seq<u8>| #[trigger] e(b).len() == 16,
    ensures
        ({
            let (s1, d1) = s.on_pdu(request);
            let (s2, d2) = s1.on_random(Some(srand));
            let confirm = seq![SMP_PAIRING_CONFIRM] + s2.confirm_value(mrand, e);
            let (s3, d3) = s2.on_pdu(confirm);
            let (s4, d4) = s3.on_block(e(d3->Encrypt_0));
            let (s5, d5) = s4.on_block(e(d4->Encrypt_0));
            let (s6, d6) = s5.on_pdu(seq![SMP_PAIRING_RANDOM] + mrand);
            let (s7, d7) = s6.on_block(e(d6->Encrypt_0));
            let (s8, d8) = s7.on_block(e(d7->Encrypt_0));
            let (s9, d9) = s8.on_block(e(d8->Encrypt_0));
            &&& d1 is DrawRandom
            &&& d2 == SmpDo::Send(response())
            &&& s2.preq == request.take(7) && s2.pres == response()
            &&& s2.local_addr == s.local_addr && s2.peer_addr == s.peer_addr
            &&& d5 == SmpDo::Send(seq![SMP_PAIRING_CONFIRM] + s2.confirm_value(srand, e))
            &&& d9 == SmpDo::Send(seq![SMP_PAIRING_RANDOM] + srand)
            &&& s9.key_for(zeros(8), 0) == Some(e(stk_block(srand, mrand)).reverse())
            &&& s9.ltk == s.ltk
        }),
{
    let s2 = s.on_pdu(request).0.on_random(Some(srand)).0;
    let confirm = seq![SMP_PAIRING_CONFIRM] + s2.confirm_value(mrand, e);
    law_confirm_is_answered(s2, confirm, e);
    let (s3, d3) = s2.on_pdu(confirm);
    let (s4, d4) = s3.on_block(e(d3->Encrypt_0));
    let (s5, d5) = s4.on_block(e(d4->Encrypt_0));
    let random = seq![SMP_PAIRING_RANDOM] + mrand;
    assert(confirm.subrange(1, 17) =~= s2.confirm_value(mrand, e));
    assert(random.subrange(1, 17) =~= mrand);
    assert(s5.confirm_value(mrand, e) == s2.confirm_value(mrand, e));
    law_random_is_checked(s5, random, e);
}

/// What comes out of turn is ignored: a confirm or random value that is not waited
/// for, random bytes or a block that nobody asked for, and anything that is too short.
pub proof fn law_out_of_turn_is_ignored(s: SmpView, pdu: Seq<u8>, bytes: Seq<u8>)
    ensures
        pdu.len() > 0 && pdu[0] == SMP_PAIRING_CONFIRM && s.stage != SmpStage::WaitConfirm
            ==> s.on_pdu(pdu) == (s, SmpDo::Nothing),
        pdu.len() > 0 && pdu[0] == SMP_PAIRING_RANDOM && s.stage != SmpStage::WaitRandom
            ==> s.on_pdu(pdu) == (s, SmpDo::Nothing),
        pdu.len() < 7 ==> s.on_pdu(pdu) == (s, SmpDo::Nothing),
        s.task != SmpTask::Random ==> s.on_random(Some(bytes)) == (s, SmpDo::Nothing),
        s.task == SmpTask::Nothing || s.task == SmpTask::Random ==> s.on_block(bytes) == (
            s,
            SmpDo::Nothing,
        ),
{
}

/// A connection starts without a pairing, knows the addresses of both sides, and has
/// a long-term key of its own: devices with different addresses have different keys.
pub proof fn law_connection_starts_fresh(
    s: SmpView,
    local: Seq<u8>,
    other: Seq<u8>,
    peer: Seq<u8>,
    peer_type: u8,
)
    requires
        local.len() == 6,
        other.len() == 6,
    ensures
        s.connected(local, peer, peer_type).stage == SmpStage::Idle,
        s.connected(local, peer, peer_type).task == SmpTask::Nothing,
        s.connected(local, peer, peer_type).stk == zeros(16),
        s.connected(local, peer, peer_type).local_addr == local,
        s.connected(local, peer, peer_type).peer_addr == peer,
        s.connected(local, peer, peer_type).ltk.len() == 16,
        local != other ==> s.connected(local, peer, peer_type).ltk != s.connected(
            other,
            peer,
            peer_type,
        ).ltk,
{
    if fixed_ltk_of(local) == fixed_ltk_of(other) {
        assert(fixed_ltk_of(local).subrange(8, 14) =~= local);
        assert(fixed_ltk_of(other).subrange(8, 14) =~= other);
    }
}

/// The address of a device is six bytes of its identifier, least significant first,
/// marked as a static random address.
pub proof fn law_address_is_static_random(id0: u32, id1: u32)
    ensures
        addr_of(id0, id1).len() == 6,
        bytes::u32_at(addr_of(id0, id1), 0) == id0,
        addr_of(id0, id1)[4] == id1 % 256,
        addr_of(id0, id1)[5] >= 0xc0,
        addr_of(id0, id1)[5] % 64 == (id1 / 256) % 64,
{
    bytes::lemma_u32_round_trip(id0);
    let b = ((id1 / 256) % 256) as u8;
    assert((b | 0xc0u8) >= 0xc0 && (b | 0xc0u8) % 64 == b % 64) by (bit_vector);
}

} // verus!
