//! Cells of the wrap-around board, and the one-cell move.

use crate::direction::Direction;
use std::collections::VecDeque;
use vstd::arithmetic::div_mod::{lemma_mod_add_multiples_vanish, lemma_small_mod};
use vstd::prelude::*;

verus! {

/// A cell of the board: column `x`, then row `y`.
pub type Cell = (u16, u16);

/// Whether `c` lies on a board of the given size.
pub open spec fn in_board(c: Cell, width: u16, height: u16) -> bool {
    c.0 < width && c.1 < height
}

/// Whether every cell of `cells` lies on the board.
pub open spec fn all_in_board(cells: Seq<Cell>, width: u16, height: u16) -> bool {
    forall|i: int| 0 <= i < cells.len() ==> in_board(#[trigger] cells[i], width, height)
}

/// A coordinate brought back onto an axis of length `n`: leaving at one end
/// re-enters at the other.
pub open spec fn wrap(v: int, n: int) -> int {
    v % n
}

/// The cell one move from `c` in heading `d` on the wrap-around board.
pub open spec fn neighbour(c: Cell, d: Direction, width: u16, height: u16) -> Cell {
    (wrap(c.0 + d.dx(), width as int) as u16, wrap(c.1 + d.dy(), height as int) as u16)
}

/// On an axis of length `n`, a step up from the last coordinate lands on 0,
/// a step down from 0 lands on the last coordinate, and any other step stays
/// next door.
pub proof fn lemma_wrap_step(v: int, n: int)
    requires
        0 <= v < n,
    ensures
        wrap(v + 1, n) == if v == n - 1 { 0 } else { v + 1 },
        wrap(v - 1, n) == if v == 0 { n - 1 } else { v - 1 },
        wrap(v, n) == v,
{
    lemma_small_mod(v as nat, n as nat);
    if v == n - 1 {
        lemma_mod_add_multiples_vanish(0, n);
        lemma_small_mod(0, n as nat);
    } else {
        lemma_small_mod((v + 1) as nat, n as nat);
    }
    if v == 0 {
        lemma_mod_add_multiples_vanish(-1, n);
        lemma_small_mod((n - 1) as nat, n as nat);
    } else {
        lemma_small_mod((v - 1) as nat, n as nat);
    }
}

/// A move never leaves the board.
pub proof fn lemma_neighbour_in_board(c: Cell, d: Direction, width: u16, height: u16)
    requires
        in_board(c, width, height),
    ensures
        in_board(neighbour(c, d, width, height), width, height),
{
    lemma_wrap_step(c.0 as int, width as int);
    lemma_wrap_step(c.1 as int, height as int);
}

/// Moves one cell from `c` in heading `d`, wrapping at the edges.
pub fn step_cell(c: Cell, d: Direction, width: u16, height: u16) -> (r: Cell)
    requires
        in_board(c, width, height),
    ensures
        r == neighbour(c, d, width, height),
        in_board(r, width, height),
{
    proof {
        lemma_wrap_step(c.0 as int, width as int);
        lemma_wrap_step(c.1 as int, height as int);
    }
    let (x, y) = c;
    match d {
        Direction::Up => (x, if y == 0 { height - 1 } else { y - 1 }),
        Direction::Down => (x, if y == height - 1 { 0 } else { y + 1 }),
        Direction::Left => (if x == 0 { width - 1 } else { x - 1 }, y),
        Direction::Right => (if x == width - 1 { 0 } else { x + 1 }, y),
    }
}

/// A sequence that starts with `first` holds `first` and whatever the rest
/// holds, and nothing else.
pub proof fn lemma_contains_cons(first: Cell, rest: Seq<Cell>, c: Cell)
    ensures
        (seq![first] + rest).contains(c) <==> (c == first || rest.contains(c)),
{
    let s = seq![first] + rest;
    if s.contains(c) {
        let i = choose|i: int| 0 <= i < s.len() && s[i] == c;
        if i > 0 {
            assert(rest[i - 1] == c);
        }
    }
    if c == first {
        assert(s[0] == c);
    }
    if rest.contains(c) {
        let i = choose|i: int| 0 <= i < rest.len() && rest[i] == c;
        assert(s[i + 1] == c);
    }
}

/// Whether `c` is one of `cells`.
pub fn occupies(cells: &VecDeque<Cell>, c: Cell) -> (b: bool)
    ensures
        b == cells@.contains(c),
{
    let mut i: usize = 0;
    while i < cells.len()
        invariant
            i <= cells.len(),
            forall|j: int| 0 <= j < i ==> cells@[j] != c,
        decreases cells.len() - i,
    {
        let p = cells[i];
        if p.0 == c.0 && p.1 == c.1 {
            return true;
        }
        i += 1;
    }
    false
}

} // verus!
