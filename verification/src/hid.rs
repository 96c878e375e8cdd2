//! Keyboard reports: which keys of both halves are held, and what the host is told.

use crate::keymap;
use crate::keymap::{hid_for_pos, key_id_to_pos, HidUsage, TOTAL_COLS, TOTAL_KEYS};
use crate::matrix;
use crate::matrix::{KeyEvent, COLS};
use crate::right_half;
use crate::right_half::RightHalf;
use vstd::prelude::*;

verus! {

/// How long the right half may be silent before its keys count as released: it
/// repeats itself much more often while a key is held.
pub const LINK_LOSS_TIMEOUT_MS: u32 = 500;

/// What has been gathered of the keys at the first `n` positions: the modifier
/// bits, and the keys in the order in which they are found, each of them once and
/// no more than six.
pub open spec fn gathered(active: Seq<bool>, n: int) -> (u8, Seq<u8>)
    decreases n,
{
    if n <= 0 {
        (0, Seq::empty())
    } else {
        let (modifiers, keys) = gathered(active, n - 1);
        match keymap::usage(n - 1) {
            Some(u) if active[n - 1] => (
                modifiers | u.modifier,
                if u.key != 0 && !keys.contains(u.key) && keys.len() < 6 {
                    keys.push(u.key)
                } else {
                    keys
                },
            ),
            _ => (modifiers, keys),
        }
    }
}

/// The report of a set of held keys: modifiers, a reserved byte, and six keys.
pub open spec fn report_of(active: Seq<bool>) -> Seq<u8> {
    let (modifiers, keys) = gathered(active, TOTAL_KEYS as int);
    seq![modifiers, 0u8] + Seq::new(
        6,
        |i: int|
            if i < keys.len() {
                keys[i]
            } else {
                0u8
            },
    )
}

/// A key is among the first `n`.
fn has_key(keys: &[u8; 6], n: usize, key: u8) -> (r: bool)
    requires
        n <= 6,
    ensures
        r == keys@.take(n as int).contains(key),
{
    let mut i: usize = 0;
    while i < n
        invariant
            i <= n <= 6,
            forall|j: int| 0 <= j < i ==> keys@[j] != key,
        decreases n - i,
    {
        if keys[i] == key {
            assert(keys@.take(n as int)[i as int] == key);
            return true;
        }
        i = i + 1;
    }
    false
}

/// The report of a set of held keys.
pub fn build_report(active: &[bool; TOTAL_KEYS]) -> (report: [u8; 8])
    ensures
        report@ == report_of(active@),
{
    let mut modifiers: u8 = 0;
    let mut keys: [u8; 6] = [0, 0, 0, 0, 0, 0];
    let mut count: usize = 0;
    let mut pos: usize = 0;
    while pos < TOTAL_KEYS
        invariant
            pos <= TOTAL_KEYS,
            count <= 6,
            gathered(active@, pos as int) == (modifiers, keys@.take(count as int)),
            forall|i: int| count <= i < 6 ==> keys@[i] == 0,
        decreases TOTAL_KEYS - pos,
    {
        if active[pos] {
            let found = hid_for_pos(pos / TOTAL_COLS, pos % TOTAL_COLS);
            assert((pos / 15) * 15 + pos % 15 == pos);
            if let Some(u) = found {
                modifiers = modifiers | u.modifier;
                if u.key != 0 && count < 6 && !has_key(&keys, count, u.key) {
                    let ghost before = keys@.take(count as int);
                    keys[count] = u.key;
                    count = count + 1;
                    assert(keys@.take(count as int) =~= before.push(u.key));
                }
            }
        }
        pos = pos + 1;
    }
    let report: [u8; 8] = [
        modifiers,
        0,
        keys[0],
        keys[1],
        keys[2],
        keys[3],
        keys[4],
        keys[5],
    ];
    assert(report@ =~= report_of(active@));
    report
}

/// A held key at position `p` has this usage.
pub open spec fn holds(active: Seq<bool>, p: int, u: HidUsage) -> bool {
    0 <= p < TOTAL_KEYS && active[p] && keymap::usage(p) == Some(u)
}

/// What has been gathered is right: every key is held, no key comes twice, and a
/// held key is missing only where six others are there.
proof fn lemma_gathered(active: Seq<bool>, n: int)
    requires
        0 <= n <= TOTAL_KEYS,
    ensures
        gathered(active, n).1.len() <= 6,
        gathered(active, n).1.no_duplicates(),
        forall|i: int| 0 <= i < gathered(active, n).1.len() ==> gathered(active, n).1[i] != 0,
        forall|i: int|
            0 <= i < gathered(active, n).1.len() ==> exists|p: int|
                p < n && #[trigger] holds(
                    active,
                    p,
                    HidUsage { modifier: 0, key: #[trigger] gathered(active, n).1[i] },
                ),
        forall|p: int, u: HidUsage| #[trigger]
            holds(active, p, u) && p < n && u.key != 0 ==> gathered(active, n).1.contains(u.key)
                || gathered(active, n).1.len() == 6,
        forall|p: int, u: HidUsage| #[trigger]
            holds(active, p, u) && p < n ==> gathered(active, n).0 & u.modifier == u.modifier,
    decreases n,
{
    if n > 0 {
        lemma_gathered(active, n - 1);
        let (m0, k0) = gathered(active, n - 1);
        let (m1, k1) = gathered(active, n);
        let here = keymap::usage(n - 1);
        assert forall|i: int| 0 <= i < k1.len() implies exists|p: int|
            p < n && #[trigger] holds(
                active,
                p,
                HidUsage { modifier: 0, key: #[trigger] k1[i] },
            ) by {
            if i < k0.len() {
                assert(k1[i] == k0[i]);
                let p = choose|p: int|
                    p < n - 1 && #[trigger] holds(
                        active,
                        p,
                        HidUsage { modifier: 0, key: k0[i] },
                    );
                assert(holds(active, p, HidUsage { modifier: 0, key: k1[i] }));
            } else {
                assert(here->0.key == k1[i]);
                assert(holds(active, n - 1, HidUsage { modifier: 0, key: k1[i] }));
            }
        }
        assert forall|p: int, u: HidUsage| #[trigger]
            holds(active, p, u) && p < n && u.key != 0 implies k1.contains(u.key) || k1.len()
            == 6 by {
            if p < n - 1 {
                if k0.contains(u.key) {
                    let i = choose|i: int| 0 <= i < k0.len() && k0[i] == u.key;
                    assert(k1[i] == u.key);
                }
            } else if k1 != k0 {
                assert(k1[k0.len() as int] == u.key);
            }
        }
        assert forall|p: int, u: HidUsage| #[trigger] holds(active, p, u) && p < n implies m1
            & u.modifier == u.modifier by {
            let a = u.modifier;
            if here is Some && active[n - 1] {
                let b = here->0.modifier;
                assert((m0 & a == a ==> (m0 | b) & a == a) && (m0 | b) & b == b) by (bit_vector);
            }
        }
    }
}

/// A report tells the truth: every key in it is held, and none of them twice.
pub proof fn law_reported_keys_are_held(active: Seq<bool>, i: int)
    requires
        active.len() == TOTAL_KEYS,
        2 <= i < 8,
        report_of(active)[i] != 0,
    ensures
        exists|p: int| holds(active, p, HidUsage { modifier: 0, key: report_of(active)[i] }),
        forall|j: int| 2 <= j < 8 && j != i ==> report_of(active)[j] != report_of(active)[i],
{
    lemma_gathered(active, TOTAL_KEYS as int);
    let keys = gathered(active, TOTAL_KEYS as int).1;
    assert(keys[i - 2] == report_of(active)[i]);
    let p = choose|p: int|
        p < TOTAL_KEYS && #[trigger] holds(
            active,
            p,
            HidUsage { modifier: 0, key: keys[i - 2] },
        );
    assert(holds(active, p, HidUsage { modifier: 0, key: report_of(active)[i] }));
}

/// Modifiers are gathered from held keys alone.
proof fn lemma_gathered_modifiers(active: Seq<bool>, n: int, b: u8)
    requires
        0 <= n <= TOTAL_KEYS,
        gathered(active, n).0 & b != 0,
    ensures
        exists|p: int, u: HidUsage|
            #![trigger holds(active, p, u)]
            p < n && holds(active, p, u) && u.modifier & b != 0,
    decreases n,
{
    assert(0u8 & b == 0) by (bit_vector);
    let m0 = gathered(active, n - 1).0;
    if gathered(active, n) == (0u8, Seq::<u8>::empty()) {
    } else if m0 & b != 0 {
        lemma_gathered_modifiers(active, n - 1, b);
    } else {
        let u = keymap::usage(n - 1)->0;
        let m = u.modifier;
        assert((m0 | m) & b != 0 && m0 & b == 0 ==> m & b != 0) by (bit_vector);
        assert(holds(active, n - 1, u));
    }
}

/// A report tells no modifier that is not held: every bit of its first byte is the bit
/// of a held modifier key. Its second byte is zero.
pub proof fn law_reported_modifiers_are_held(active: Seq<bool>, b: u8)
    requires
        active.len() == TOTAL_KEYS,
        report_of(active)[0] & b != 0,
    ensures
        exists|p: int, u: HidUsage|
            #![trigger holds(active, p, u)]
            holds(active, p, u) && u.modifier & b != 0,
        report_of(active)[1] == 0,
{
    lemma_gathered_modifiers(active, TOTAL_KEYS as int, b);
}

/// Keys are gathered in the order of their positions.
proof fn lemma_gathered_order(active: Seq<bool>, n: int, i: int, j: int)
    requires
        0 <= n <= TOTAL_KEYS,
        0 <= i < j < gathered(active, n).1.len(),
    ensures
        exists|p: int|
            p < n && #[trigger] holds(
                active,
                p,
                HidUsage { modifier: 0, key: gathered(active, n).1[i] },
            ) && forall|q: int|
                q <= p ==> !#[trigger] holds(
                    active,
                    q,
                    HidUsage { modifier: 0, key: gathered(active, n).1[j] },
                ),
    decreases n,
{
    lemma_gathered(active, n - 1);
    let k0 = gathered(active, n - 1).1;
    let k1 = gathered(active, n).1;
    if j < k0.len() {
        lemma_gathered_order(active, n - 1, i, j);
    } else {
        let first = HidUsage { modifier: 0, key: k1[i] };
        assert(k0[i] == k1[i]);
        let p = choose|p: int| p < n - 1 && #[trigger] holds(active, p, first);
        assert(holds(active, p, first) && p < n - 1);
        assert forall|q: int| q <= p implies !#[trigger] holds(
            active,
            q,
            HidUsage { modifier: 0, key: k1[j] },
        ) by {
            let u = HidUsage { modifier: 0, key: k1[j] };
            if holds(active, q, u) {
                assert(k0.contains(u.key));
            }
        }
    }
}

/// The keys of a report stand in the order of their positions, and without a gap.
pub proof fn law_reported_keys_in_order(active: Seq<bool>, i: int, j: int)
    requires
        active.len() == TOTAL_KEYS,
        2 <= i < j < 8,
    ensures
        report_of(active)[i] == 0 ==> report_of(active)[j] == 0,
        report_of(active)[j] != 0 ==> exists|p: int|
            #[trigger] holds(active, p, HidUsage { modifier: 0, key: report_of(active)[i] })
                && forall|q: int|
                q <= p ==> !#[trigger] holds(
                    active,
                    q,
                    HidUsage { modifier: 0, key: report_of(active)[j] },
                ),
{
    lemma_gathered(active, TOTAL_KEYS as int);
    let keys = gathered(active, TOTAL_KEYS as int).1;
    if i - 2 < keys.len() {
        assert(keys[i - 2] == report_of(active)[i]);
    }
    if j - 2 < keys.len() {
        assert(keys[j - 2] == report_of(active)[j]);
        lemma_gathered_order(active, TOTAL_KEYS as int, i - 2, j - 2);
    }
}

/// A snapshot of the right half and the events of its keys mean the same keys: the bit
/// in a row and a column stands for the key whose event has the identifier of that row
/// and column. Keys of the left half stay as they are.
pub proof fn law_snapshot_and_events_agree(
    active: Seq<bool>,
    rows: Seq<u8>,
    row: int,
    col: u8,
    left: u8,
)
    requires
        active.len() == TOTAL_KEYS,
        0 <= row < 5,
        col < 8,
        left < 35,
    ensures
        ({
            let key = (keymap::RIGHT_KEY_BASE + 8 * row + col) as u8;
            &&& keymap::position(key) matches Some(p) && with_right_rows(active, rows)[p]
                == matrix::row_bit(rows[row], col)
            &&& keymap::position(left) matches Some(p) && with_right_rows(active, rows)[p]
                == active[p]
        }),
{
}

/// An event changes its key and no other.
pub proof fn law_event_changes_its_key(active: Seq<bool>, ev: KeyEvent, other: u8)
    requires
        active.len() == TOTAL_KEYS,
        keymap::position(ev.key_id) is Some,
    ensures
        with_event(active, ev)[keymap::position(ev.key_id)->0] == ev.pressed,
        other != ev.key_id && keymap::position(other) is Some ==> with_event(
            active,
            ev,
        )[keymap::position(other)->0] == active[keymap::position(other)->0],
        event_changes(active, ev) <==> with_event(active, ev) != active,
{
    keymap::law_positions(ev.key_id, other);
    let p = keymap::position(ev.key_id)->0;
    keymap::law_positions(ev.key_id, ev.key_id);
    if event_changes(active, ev) {
        assert(with_event(active, ev)[p] != active[p]);
    } else {
        assert(with_event(active, ev) =~= active);
    }
}

/// A report is complete: a held key is in it unless six others are, and so is
/// every held modifier.
pub proof fn law_held_key_is_reported(active: Seq<bool>, p: int, u: HidUsage)
    requires
        active.len() == TOTAL_KEYS,
        holds(active, p, u),
    ensures
        report_of(active)[0] & u.modifier == u.modifier,
        u.key != 0 ==> (exists|i: int| 2 <= i < 8 && #[trigger] report_of(active)[i] == u.key)
            || (forall|i: int| 2 <= i < 8 ==> #[trigger] report_of(active)[i] != 0),
{
    lemma_gathered(active, TOTAL_KEYS as int);
    let keys = gathered(active, TOTAL_KEYS as int).1;
    if u.key != 0 {
        if keys.contains(u.key) {
            let i = choose|i: int| 0 <= i < keys.len() && keys[i] == u.key;
            assert(report_of(active)[i + 2] == u.key);
        } else {
            assert forall|i: int| 2 <= i < 8 implies #[trigger] report_of(active)[i] != 0 by {
                assert(keys[i - 2] != 0);
            }
        }
    }
}

/// With no key held the report is empty.
pub proof fn law_nothing_held(active: Seq<bool>)
    requires
        active.len() == TOTAL_KEYS,
        forall|p: int| 0 <= p < TOTAL_KEYS ==> !#[trigger] active[p],
    ensures
        report_of(active) == seq![0u8, 0, 0, 0, 0, 0, 0, 0],
{
    lemma_nothing_gathered(active, TOTAL_KEYS as int);
}

/// Nothing is gathered where nothing is held.
proof fn lemma_nothing_gathered(active: Seq<bool>, n: int)
    requires
        0 <= n <= TOTAL_KEYS,
        forall|p: int| 0 <= p < TOTAL_KEYS ==> !#[trigger] active[p],
    ensures
        gathered(active, n) == (0u8, Seq::<u8>::empty()),
    decreases n,
{
    if n > 0 {
        lemma_nothing_gathered(active, n - 1);
        assert(!active[n - 1]);
    }
}

/// The held keys with those of the right half taken from its rows.
pub open spec fn with_right_rows(active: Seq<bool>, rows: Seq<u8>) -> Seq<bool> {
    Seq::new(
        active.len(),
        |p: int|
            if p % 15 >= 7 {
                matrix::row_bit(rows[p / 15], (p % 15 - 7) as u8)
            } else {
                active[p]
            },
    )
}

/// The held keys after an event.
pub open spec fn with_event(active: Seq<bool>, ev: KeyEvent) -> Seq<bool> {
    match keymap::position(ev.key_id) {
        Some(p) => active.update(p, ev.pressed),
        None => active,
    }
}

/// The held keys after a series of events.
pub open spec fn with_events(active: Seq<bool>, events: Seq<KeyEvent>) -> Seq<bool>
    decreases events.len(),
{
    if events.len() == 0 {
        active
    } else {
        with_event(with_events(active, events.drop_last()), events.last())
    }
}

/// Whether an event changes the held keys.
pub open spec fn event_changes(active: Seq<bool>, ev: KeyEvent) -> bool {
    keymap::position(ev.key_id) matches Some(p) && active[p] != ev.pressed
}

/// Whether a series of events changes a key on its way.
pub open spec fn events_change(active: Seq<bool>, events: Seq<KeyEvent>) -> bool
    decreases events.len(),
{
    events.len() > 0 && (events_change(active, events.drop_last()) || event_changes(
        with_events(active, events.drop_last()),
        events.last(),
    ))
}

/// One round of the task that reports keys.
pub struct HidRound {
    /// Held keys by position.
    pub active: [bool; TOTAL_KEYS],
    /// A key has changed in this round.
    pub changed: bool,
    /// A key of the right half may have.
    pub right_changed: bool,
}

impl HidRound {
    /// No key is held.
    pub fn new() -> (h: Self)
        ensures
            h.active@ == Seq::new(TOTAL_KEYS as nat, |p: int| false),
            !h.changed,
            !h.right_changed,
    {
        HidRound { active: [false; TOTAL_KEYS], changed: false, right_changed: false }
    }

    /// Take the keys of the right half over, if they have changed.
    pub fn take_right(&mut self, right: &mut RightHalf)
        ensures
            final(right).state() == (right_half::RightState {
                dirty: false,
                ..old(right).state()
            }),
            old(right).dirty ==> final(self).active@ == with_right_rows(
                old(self).active@,
                old(right).rows.rows@,
            ) && final(self).changed && final(self).right_changed,
            !old(right).dirty ==> *final(self) == *old(self),
    {
        if !right.dirty {
            return ;
        }
        right.dirty = false;
        let mut p: usize = 0;
        while p < TOTAL_KEYS
            invariant
                p <= TOTAL_KEYS,
                forall|i: int|
                    0 <= i < p ==> #[trigger] self.active@[i] == with_right_rows(
                        old(self).active@,
                        right.rows.rows@,
                    )[i],
                forall|i: int|
                    p <= i < TOTAL_KEYS ==> #[trigger] self.active@[i] == old(self).active@[i],
            decreases TOTAL_KEYS - p,
        {
            let col: usize = p % TOTAL_COLS;
            let row: usize = p / TOTAL_COLS;
            if col >= COLS {
                let bit: u8 = (col - COLS) as u8;
                self.active[p] = right.rows.rows[row] & (1u8 << bit) != 0;
            }
            p = p + 1;
        }
        self.changed = true;
        self.right_changed = true;
        assert(self.active@ =~= with_right_rows(old(self).active@, right.rows.rows@));
    }

    /// Start a round: release all keys if that is asked for, release the keys of a
    /// right half that has been silent for too long, and take its keys over. The
    /// time of silence is returned where that was too long. Where nothing has
    /// changed, the task waits for a key next.
    pub fn start(
        &mut self,
        right: &mut RightHalf,
        clear_requested: bool,
        prx_active: bool,
        now_ms: u32,
    ) -> (silent_ms: Option<u32>)
        ensures
            ({
                let cleared = if clear_requested {
                    Seq::new(TOTAL_KEYS as nat, |p: int| false)
                } else {
                    old(self).active@
                };
                let lost = prx_active && old(right).state().lost(now_ms);
                let state = if lost {
                    old(right).state().cleared()
                } else {
                    old(right).state()
                };
                &&& silent_ms == (if lost {
                    Some((now_ms - old(right).last_seen_ms) as u32)
                } else {
                    None
                })
                &&& final(right).state() == (right_half::RightState { dirty: false, ..state })
                &&& final(self).active@ == (if state.dirty {
                    with_right_rows(cleared, state.rows)
                } else {
                    cleared
                })
                &&& final(self).changed == (clear_requested || state.dirty)
                &&& final(self).right_changed == state.dirty
            }),
    {
        self.changed = false;
        self.right_changed = false;
        if clear_requested {
            self.active = [false; TOTAL_KEYS];
            self.changed = true;
            assert(self.active@ =~= Seq::new(TOTAL_KEYS as nat, |p: int| false));
        }
        let mut silent_ms: Option<u32> = None;
        if prx_active {
            silent_ms = right.check_link(now_ms);
        }
        self.take_right(right);
        silent_ms
    }

    /// Take a key event into account.
    pub fn on_event(&mut self, ev: KeyEvent)
        ensures
            final(self).active@ == with_event(old(self).active@, ev),
            final(self).changed == (old(self).changed || event_changes(old(self).active@, ev)),
            final(self).right_changed == old(self).right_changed,
    {
        if let Some(pos) = key_id_to_pos(ev.key_id) {
            if self.active[pos] != ev.pressed {
                self.active[pos] = ev.pressed;
                self.changed = true;
            } else {
                assert(self.active@ =~= with_event(self.active@, ev));
            }
        }
    }

    /// Take a series of key events into account.
    pub fn on_events(&mut self, events: &[KeyEvent])
        ensures
            final(self).active@ == with_events(old(self).active@, events@),
            final(self).changed == (old(self).changed || events_change(
                old(self).active@,
                events@,
            )),
            final(self).right_changed == old(self).right_changed,
    {
        let mut i: usize = 0;
        assert(events@.take(0) =~= Seq::empty());
        while i < events.len()
            invariant
                i <= events@.len(),
                self.active@ == with_events(old(self).active@, events@.take(i as int)),
                self.changed == (old(self).changed || events_change(
                    old(self).active@,
                    events@.take(i as int),
                )),
                self.right_changed == old(self).right_changed,
            decreases events@.len() - i,
        {
            self.on_event(events[i]);
            assert(events@.take(i as int + 1).drop_last() =~= events@.take(i as int));
            assert(events@.take(i as int + 1).last() == events@[i as int]);
            i = i + 1;
        }
        assert(events@.take(i as int) =~= events@);
    }

    /// The report to send at the end of a round, if a key has changed in it.
    pub fn finish(&self) -> (r: Option<[u8; 8]>)
        ensures
            self.changed ==> r is Some && r->0@ == report_of(self.active@),
            !self.changed ==> r is None,
    {
        if self.changed {
            Some(build_report(&self.active))
        } else {
            None
        }
    }
}

/// Events that change nothing leave every key as it is, so that a report is owed only
/// where one of them changes a key; and the last event of a key decides.
pub proof fn law_quiet_events_change_nothing(active: Seq<bool>, events: Seq<KeyEvent>, ev: KeyEvent)
    requires
        active.len() == TOTAL_KEYS,
    ensures
        !events_change(active, events) ==> with_events(active, events) == active,
        with_events(active, events).len() == TOTAL_KEYS,
        keymap::position(ev.key_id) matches Some(p) ==> with_events(active, events.push(ev))[p]
            == ev.pressed,
    decreases events.len(),
{
    let all = events.push(ev);
    assert(all.drop_last() =~= events);
    assert(all.last() == ev);
    keymap::law_positions(ev.key_id, ev.key_id);
    assert(with_events(active, all) == with_event(with_events(active, events), ev));
    if events.len() > 0 {
        let prior = events.drop_last();
        let last = events.last();
        law_quiet_events_change_nothing(active, prior, last);
        if keymap::position(last.key_id) is Some {
            keymap::law_positions(last.key_id, last.key_id);
            law_event_changes_its_key(with_events(active, prior), last, last.key_id);
        }
        assert(with_events(active, events) == with_event(with_events(active, prior), last));
    }
    assert(with_events(active, events).len() == TOTAL_KEYS);
}

} // verus!
