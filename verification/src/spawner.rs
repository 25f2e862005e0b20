//! Choosing a free cell for new food.
//!
//! A cell is first sought by rejection sampling over the whole board. After
//! `MAX_DRAWS` rejections in a row the free cells are counted and one of
//! them is drawn by its rank, so a call always returns, and every free cell
//! is as likely as any other either way.

use crate::board::{in_board, lemma_contains_cons, occupies, Cell};
use crate::dice::draw_below;
use rand::rngs::ThreadRng;
use std::collections::VecDeque;
use vstd::prelude::*;

verus! {

/// How many draws over the whole board are rejected before the spawner
/// draws among the free cells directly.
pub const MAX_DRAWS: u32 = 1000;

/// Whether the board has a cell that is none of `occupied`.
pub open spec fn has_free_cell(occupied: Seq<Cell>, width: u16, height: u16) -> bool {
    exists|c: Cell| #[trigger] in_board(c, width, height) && !occupied.contains(c)
}

/// The number of free cells among the first `n` cells of row `y`.
pub open spec fn free_in_row(occupied: Seq<Cell>, y: u16, n: nat) -> nat
    decreases n,
{
    if n == 0 {
        0
    } else {
        let before = free_in_row(occupied, y, (n - 1) as nat);
        if occupied.contains(((n - 1) as u16, y)) {
            before
        } else {
            before + 1
        }
    }
}

/// The number of free cells in the first `rows` rows of a board of the
/// given width.
pub open spec fn free_in_rows(occupied: Seq<Cell>, width: u16, rows: nat) -> nat
    decreases rows,
{
    if rows == 0 {
        0
    } else {
        free_in_rows(occupied, width, (rows - 1) as nat) + free_in_row(
            occupied,
            (rows - 1) as u16,
            width as nat,
        )
    }
}

/// The number of free cells on the board.
pub open spec fn free_count(occupied: Seq<Cell>, width: u16, height: u16) -> nat {
    free_in_rows(occupied, width, height as nat)
}

/// The number of free cells that come before `c` when the board is read row
/// by row, each row from left to right.
pub open spec fn rank(occupied: Seq<Cell>, width: u16, c: Cell) -> nat {
    free_in_rows(occupied, width, c.1 as nat) + free_in_row(occupied, c.1, c.0 as nat)
}

/// A row's count never exceeds the cells counted, and grows with them.
pub proof fn lemma_free_in_row_grows(occupied: Seq<Cell>, y: u16, m: nat, n: nat)
    requires
        m <= n,
    ensures
        free_in_row(occupied, y, m) <= free_in_row(occupied, y, n),
        free_in_row(occupied, y, n) <= n,
    decreases n,
{
    if n > 0 {
        if m < n {
            lemma_free_in_row_grows(occupied, y, m, (n - 1) as nat);
        } else {
            lemma_free_in_row_grows(occupied, y, (n - 1) as nat, (n - 1) as nat);
        }
    }
}

/// The count over rows grows with the rows, and each row adds at most
/// 65535 cells.
pub proof fn lemma_free_in_rows_grows(occupied: Seq<Cell>, width: u16, m: nat, n: nat)
    requires
        m <= n,
    ensures
        free_in_rows(occupied, width, m) <= free_in_rows(occupied, width, n),
        free_in_rows(occupied, width, n) <= n * 65535,
    decreases n,
{
    if n > 0 {
        lemma_free_in_row_grows(occupied, (n - 1) as u16, 0, width as nat);
        if m < n {
            lemma_free_in_rows_grows(occupied, width, m, (n - 1) as nat);
        } else {
            lemma_free_in_rows_grows(occupied, width, (n - 1) as nat, (n - 1) as nat);
        }
    }
}

/// A free cell of the board has a rank below the number of free cells.
pub proof fn lemma_free_cell_is_counted(occupied: Seq<Cell>, width: u16, height: u16, c: Cell)
    requires
        in_board(c, width, height),
        !occupied.contains(c),
    ensures
        rank(occupied, width, c) < free_count(occupied, width, height),
{
    let (x, y) = c;
    assert(free_in_row(occupied, y, (x + 1) as nat) == free_in_row(occupied, y, x as nat) + 1);
    lemma_free_in_row_grows(occupied, y, (x + 1) as nat, width as nat);
    assert(free_in_rows(occupied, width, (y + 1) as nat) == free_in_rows(
        occupied,
        width,
        y as nat,
    ) + free_in_row(occupied, y, width as nat));
    lemma_free_in_rows_grows(occupied, width, (y + 1) as nat, height as nat);
}

/// Counts the free cells of the board.
pub fn count_free(occupied: &VecDeque<Cell>, width: u16, height: u16) -> (n: u32)
    ensures
        n == free_count(occupied@, width, height),
{
    let mut n: u32 = 0;
    let mut y: u16 = 0;
    while y < height
        invariant
            y <= height,
            n == free_in_rows(occupied@, width, y as nat),
            n <= y * 65535,
        decreases height - y,
    {
        let mut x: u16 = 0;
        let ghost start = n;
        while x < width
            invariant
                x <= width,
                y < height,
                start <= y * 65535,
                n == start + free_in_row(occupied@, y, x as nat),
                n <= start + x,
            decreases width - x,
        {
            if !occupies(occupied, (x, y)) {
                n += 1;
            }
            x += 1;
        }
        y += 1;
    }
    n
}

/// Finds the free cell of rank `k`.
pub fn nth_free(occupied: &VecDeque<Cell>, width: u16, height: u16, k: u32) -> (c: Cell)
    requires
        k < free_count(occupied@, width, height),
    ensures
        in_board(c, width, height),
        !occupied@.contains(c),
        rank(occupied@, width, c) == k,
{
    let mut seen: u32 = 0;
    let mut y: u16 = 0;
    while y < height
        invariant
            y <= height,
            seen == free_in_rows(occupied@, width, y as nat),
            seen <= k,
            k < free_count(occupied@, width, height),
        decreases height - y,
    {
        let mut x: u16 = 0;
        let ghost start = seen;
        while x < width
            invariant
                x <= width,
                y < height,
                start == free_in_rows(occupied@, width, y as nat),
                seen == start + free_in_row(occupied@, y, x as nat),
                seen <= k,
                k < free_count(occupied@, width, height),
            decreases width - x,
        {
            if !occupies(occupied, (x, y)) {
                if seen == k {
                    return (x, y);
                }
                seen += 1;
            }
            x += 1;
        }
        y += 1;
    }
    (0, 0)
}

/// Chooses a free cell of the board at random, each free cell alike.
///
/// The board must have a free cell. Which one is returned is up to the
/// generator; whatever it draws, the cell lies on the board and is free.
pub fn place(occupied: &VecDeque<Cell>, width: u16, height: u16, rng: &mut ThreadRng) -> (c: Cell)
    requires
        has_free_cell(occupied@, width, height),
    ensures
        in_board(c, width, height),
        !occupied@.contains(c),
{
    let mut tries: u32 = 0;
    while tries < MAX_DRAWS
        invariant
            width > 0,
            height > 0,
        decreases MAX_DRAWS - tries,
    {
        let x = draw_below(rng, width as u32) as u16;
        let y = draw_below(rng, height as u32) as u16;
        if !occupies(occupied, (x, y)) {
            return (x, y);
        }
        tries += 1;
    }
    let free = count_free(occupied, width, height);
    proof {
        let c = choose|c: Cell| #[trigger] in_board(c, width, height) && !occupied@.contains(c);
        lemma_free_cell_is_counted(occupied@, width, height, c);
    }
    let k = draw_below(rng, free);
    nth_free(occupied, width, height, k)
}

/// Whether the board has a free cell other than `extra`.
pub fn has_room_besides(occupied: &VecDeque<Cell>, extra: Cell, width: u16, height: u16) -> (b:
    bool)
    ensures
        b == has_free_cell(seq![extra] + occupied@, width, height),
{
    let ghost taken = seq![extra] + occupied@;
    assert forall|c: Cell| taken.contains(c) <==> (c == extra || occupied@.contains(c)) by {
        lemma_contains_cons(extra, occupied@, c);
    }
    let mut y: u16 = 0;
    while y < height
        invariant
            y <= height,
            taken == seq![extra] + occupied@,
            forall|c: Cell| taken.contains(c) <==> (c == extra || occupied@.contains(c)),
            forall|c: Cell| #[trigger] in_board(c, width, height) && c.1 < y ==> taken.contains(c),
        decreases height - y,
    {
        let mut x: u16 = 0;
        while x < width
            invariant
                x <= width,
                y < height,
                taken == seq![extra] + occupied@,
                forall|c: Cell| taken.contains(c) <==> (c == extra || occupied@.contains(c)),
                forall|c: Cell| #[trigger]
                    in_board(c, width, height) && c.1 < y ==> taken.contains(c),
                forall|c: Cell| #[trigger]
                    in_board(c, width, height) && c.1 == y && c.0 < x ==> taken.contains(c),
            decreases width - x,
        {
            if !(x == extra.0 && y == extra.1) && !occupies(occupied, (x, y)) {
                assert(in_board((x, y), width, height));
                return true;
            }
            x += 1;
        }
        y += 1;
    }
    false
}

} // verus!
