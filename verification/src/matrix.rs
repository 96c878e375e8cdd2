//! The key matrix of one keyboard half.
//!
//! Columns are driven one at a time, and the rows read. A half keeps one byte per
//! row, with a bit per column.

use vstd::prelude::*;

verus! {

/// Rows of each half.
pub const ROWS: usize = 5;

/// Columns of the left half.
pub const COLS: usize = 7;

/// Columns of the right half.
pub const RIGHT_COLS: usize = 8;

/// A key of the left half was pressed or released, or one of the right half with
/// an identifier from `RIGHT_KEY_BASE` on.
#[derive(Debug, Clone, Copy, PartialEq, Eq, Structural)]
pub struct KeyEvent {
    /// Which key.
    pub key_id: u8,
    /// Pressed or released.
    pub pressed: bool,
}

/// The keys of a half that are held.
#[derive(Debug, Clone, Copy, PartialEq, Eq)]
pub struct Matrix {
    /// One byte per row, with a bit per column.
    pub rows: [u8; ROWS],
}

/// Bit `col` of a row.
pub open spec fn row_bit(row: u8, col: u8) -> bool {
    row & (1u8 << col) != 0
}

/// A row with one bit changed.
pub open spec fn row_with(row: u8, col: u8, on: bool) -> u8 {
    if on {
        row | (1u8 << col)
    } else {
        row & !(1u8 << col)
    }
}

/// Changing a bit of a row changes that bit and no other.
pub proof fn law_row_bits(row: u8, col: u8, on: bool, other: u8)
    requires
        col < 8,
        other < 8,
    ensures
        row_bit(row_with(row, col, on), col) == on,
        other != col ==> row_bit(row_with(row, col, on), other) == row_bit(row, other),
        row_bit(row, col) == on ==> row_with(row, col, on) == row,
        row_with(row, col, on) == row ==> row_bit(row, col) == on,
{
    assert((row | (1u8 << col)) & (1u8 << col) != 0 && (row & !(1u8 << col)) & (1u8 << col) == 0
        && (other != col ==> ((row | (1u8 << col)) & (1u8 << other) == row & (1u8 << other) && (row
        & !(1u8 << col)) & (1u8 << other) == row & (1u8 << other))) && (row & (1u8 << col) != 0
        ==> row | (1u8 << col) == row) && (row & (1u8 << col) == 0 ==> row & !(1u8 << col) == row))
        by (bit_vector)
        requires
            col < 8,
            other < 8,
    ;
}

/// The edges of the first `n` rows when column `col` reads `pressed`, on a half
/// with `cols` columns.
pub open spec fn edges(rows: Seq<u8>, cols: u8, col: u8, pressed: Seq<bool>, n: int) -> Seq<
    KeyEvent,
>
    decreases n,
{
    if n <= 0 {
        Seq::empty()
    } else {
        let before = edges(rows, cols, col, pressed, n - 1);
        if row_bit(rows[n - 1], col) != pressed[n - 1] {
            before.push(
                KeyEvent { key_id: ((n - 1) * cols + col) as u8, pressed: pressed[n - 1] },
            )
        } else {
            before
        }
    }
}

impl Matrix {
    /// The key in row `r` and column `c` is held.
    pub open spec fn held(self, r: int, c: u8) -> bool {
        row_bit(self.rows@[r], c)
    }

    /// No key is held.
    pub fn new() -> (m: Self)
        ensures
            m.rows@ == seq![0u8, 0u8, 0u8, 0u8, 0u8],
    {
        Matrix { rows: [0, 0, 0, 0, 0] }
    }

    /// Take in what the rows read while column `col` of `cols` is driven. The edges
    /// come in the order of the rows.
    pub fn scan_column(&mut self, cols: u8, col: u8, pressed: &[bool; ROWS]) -> (events: Vec<
        KeyEvent,
    >)
        requires
            col < cols <= 8,
        ensures
            events@ == edges(old(self).rows@, cols, col, pressed@, ROWS as int),
            forall|r: int| 0 <= r < ROWS ==> #[trigger] final(self).rows@[r] == row_with(
                old(self).rows@[r],
                col,
                pressed@[r],
            ),
    {
        let mut events: Vec<KeyEvent> = Vec::new();
        let mut r: usize = 0;
        while r < ROWS
            invariant
                r <= ROWS,
                col < cols <= 8,
                events@ == edges(old(self).rows@, cols, col, pressed@, r as int),
                forall|i: int|
                    r <= i < ROWS ==> #[trigger] self.rows@[i] == old(self).rows@[i],
                forall|i: int|
                    0 <= i < r ==> #[trigger] self.rows@[i] == row_with(
                        old(self).rows@[i],
                        col,
                        pressed@[i],
                    ),
            decreases ROWS - r,
        {
            let row: u8 = self.rows[r];
            let was: bool = row & (1u8 << col) != 0;
            let now: bool = pressed[r];
            proof {
                law_row_bits(row, col, now, 0);
                assert(r * cols + col <= 39) by (nonlinear_arith)
                    requires
                        r <= 4,
                        cols <= 8,
                        col < 8,
                ;
            }
            if was != now {
                self.rows[r] = if now {
                    row | (1u8 << col)
                } else {
                    row & !(1u8 << col)
                };
                events.push(KeyEvent { key_id: r as u8 * cols + col, pressed: now });
            }
            r = r + 1;
        }
        events
    }

    /// Whether any key is held.
    pub fn any_held(&self) -> (r: bool)
        ensures
            r == (exists|i: int| 0 <= i < ROWS && #[trigger] self.rows@[i] != 0),
    {
        let mut i: usize = 0;
        while i < ROWS
            invariant
                i <= ROWS,
                forall|j: int| 0 <= j < i ==> #[trigger] self.rows@[j] == 0,
            decreases ROWS - i,
        {
            if self.rows[i] != 0 {
                assert(self.rows@[i as int] != 0);
                return true;
            }
            i = i + 1;
        }
        false
    }
}

/// After a column was read, the matrix holds what was read in it and what it held
/// elsewhere; reading the same again gives no edge.
pub proof fn law_scan_settles(before: Matrix, after: Matrix, cols: u8, col: u8, pressed: Seq<bool>)
    requires
        col < cols <= 8,
        pressed.len() == ROWS,
        forall|r: int| 0 <= r < ROWS ==> #[trigger] after.rows@[r] == row_with(
            before.rows@[r],
            col,
            pressed[r],
        ),
    ensures
        forall|r: int| 0 <= r < ROWS ==> #[trigger] after.held(r, col) == pressed[r],
        forall|r: int, c: u8|
            0 <= r < ROWS && c < 8 && c != col ==> #[trigger] after.held(r, c) == before.held(r, c),
        edges(after.rows@, cols, col, pressed, ROWS as int) == Seq::<KeyEvent>::empty(),
{
    assert forall|r: int| 0 <= r < ROWS implies #[trigger] after.held(r, col) == pressed[r] by {
        law_row_bits(before.rows@[r], col, pressed[r], 0);
    }
    assert forall|r: int, c: u8| 0 <= r < ROWS && c < 8 && c != col implies #[trigger] after.held(
        r,
        c,
    ) == before.held(r, c) by {
        law_row_bits(before.rows@[r], col, pressed[r], c);
    }
    lemma_no_edges(after, cols, col, pressed, ROWS as int);
}

/// A column that reads as it is held gives no edge.
proof fn lemma_no_edges(m: Matrix, cols: u8, col: u8, pressed: Seq<bool>, n: int)
    requires
        0 <= n <= ROWS,
        forall|r: int| 0 <= r < ROWS ==> #[trigger] m.held(r, col) == pressed[r],
    ensures
        edges(m.rows@, cols, col, pressed, n) == Seq::<KeyEvent>::empty(),
    decreases n,
{
    if n > 0 {
        lemma_no_edges(m, cols, col, pressed, n - 1);
        assert(m.held(n - 1, col) == pressed[n - 1]);
    }
}

/// An edge is told for every key of a column that reads otherwise than it was held, and
/// for no other: with the key's identifier, which counts row by row, and its new state.
pub proof fn law_edges_are_changes(
    m: Matrix,
    cols: u8,
    col: u8,
    pressed: Seq<bool>,
    n: int,
    r: int,
    e: KeyEvent,
)
    requires
        col < cols <= 8,
        pressed.len() == ROWS,
        0 <= r < n <= ROWS,
    ensures
        edges(m.rows@, cols, col, pressed, n).contains(
            KeyEvent { key_id: (r * cols + col) as u8, pressed: pressed[r] },
        ) <==> m.held(r, col) != pressed[r],
        edges(m.rows@, cols, col, pressed, n).contains(e) ==> exists|q: int|
            0 <= q < n && #[trigger] m.held(q, col) != pressed[q] && e.key_id == q * cols + col
                && e.pressed == pressed[q],
    decreases n,
{
    let here = KeyEvent { key_id: ((n - 1) * cols + col) as u8, pressed: pressed[n - 1] };
    let wanted = KeyEvent { key_id: (r * cols + col) as u8, pressed: pressed[r] };
    let prior = edges(m.rows@, cols, col, pressed, n - 1);
    let all = edges(m.rows@, cols, col, pressed, n);
    assert(0 <= (n - 1) * cols <= 32 && 0 <= r * cols <= 32 && (r < n - 1 ==> r * cols + cols <= (n
        - 1) * cols)) by (nonlinear_arith)
        requires
            0 <= r < n <= 5,
            0 < cols <= 8,
    ;
    if m.held(n - 1, col) != pressed[n - 1] {
        assert(all[all.len() - 1] == here);
        assert forall|x: KeyEvent| prior.contains(x) implies #[trigger] all.contains(x) by {
            let i = choose|i: int| 0 <= i < prior.len() && prior[i] == x;
            assert(all[i] == x);
        }
        assert forall|x: KeyEvent| #[trigger] all.contains(x) implies prior.contains(x) || x
            == here by {
            let i = choose|i: int| 0 <= i < all.len() && all[i] == x;
            if i < prior.len() {
                assert(prior[i] == x);
            }
        }
    }
    if r < n - 1 {
        law_edges_are_changes(m, cols, col, pressed, n - 1, r, e);
    } else {
        lemma_edges_before(m, cols, col, pressed, n - 1, e);
        lemma_edges_before(m, cols, col, pressed, n - 1, wanted);
    }
}

/// The edges of the first `n` rows are changes of these rows.
proof fn lemma_edges_before(
    m: Matrix,
    cols: u8,
    col: u8,
    pressed: Seq<bool>,
    n: int,
    e: KeyEvent,
)
    requires
        col < cols <= 8,
        0 <= n <= ROWS,
    ensures
        edges(m.rows@, cols, col, pressed, n).contains(e) ==> exists|q: int|
            0 <= q < n && #[trigger] m.held(q, col) != pressed[q] && e.key_id == q * cols + col
                && e.pressed == pressed[q] && q * cols + cols <= n * cols,
    decreases n,
{
    if n > 0 {
        lemma_edges_before(m, cols, col, pressed, n - 1, e);
        let prior = edges(m.rows@, cols, col, pressed, n - 1);
        let all = edges(m.rows@, cols, col, pressed, n);
        assert(0 <= (n - 1) * cols <= 32 && (n - 1) * cols + cols == n * cols) by (nonlinear_arith)
            requires
                0 < n <= 5,
                0 < cols <= 8,
        ;
        if all.contains(e) {
            let i = choose|i: int| 0 <= i < all.len() && all[i] == e;
            if i < prior.len() {
                assert(prior[i] == e);
            } else {
                assert(m.held(n - 1, col) != pressed[n - 1]);
            }
        }
    }
}

} // verus!
