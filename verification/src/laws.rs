//! What holds of every game, proved over the model.

use crate::board::{
    all_in_board, in_board, lemma_contains_cons, lemma_neighbour_in_board, lemma_wrap_step, Cell,
};
use crate::direction::Direction;
use crate::game::{start_body, start_body_fits, start_cell, Food, GameView};
use vstd::prelude::*;

verus! {

/// One tick as the driver sees it: an optional request to turn, then a
/// step, with the food that appears if the step eats.
pub struct Tick {
    pub turn: Option<Direction>,
    pub fresh: Food,
}

impl GameView {
    /// The game once the tick's request to turn, if any, has been heard.
    pub open spec fn heard(self, tick: Tick) -> GameView {
        match tick.turn {
            Some(d) => self.turn(d),
            None => self,
        }
    }

    /// The game after one tick of the driver.
    pub open spec fn after(self, tick: Tick) -> GameView {
        self.heard(tick).step(tick.fresh)
    }

    /// The game after the given ticks, in order.
    pub open spec fn run(self, ticks: Seq<Tick>) -> GameView
        decreases ticks.len(),
    {
        if ticks.len() == 0 {
            self
        } else {
            self.run(ticks.drop_last()).after(ticks.last())
        }
    }

    /// Whether the first of the given ticks eats and none of the later
    /// ones runs the eel into itself.
    pub open spec fn eats_then_moves(self, ticks: Seq<Tick>) -> bool {
        &&& ticks.len() > 0
        &&& self.heard(ticks[0]).eats()
        &&& forall|i: int|
            1 <= i < ticks.len() ==> !(#[trigger] self.run(ticks.take(i)).heard(
                ticks[i],
            )).collides()
    }

    /// Whether none of the given ticks after the first eats.
    pub open spec fn eats_once_at_most(self, ticks: Seq<Tick>) -> bool {
        forall|i: int|
            1 <= i < ticks.len() ==> !(#[trigger] self.run(ticks.take(i)).heard(ticks[i])).eats()
    }
}

/// A step keeps the eel free of repeated cells: the head only ever moves
/// onto a cell the eel does not cover.
pub proof fn lemma_step_keeps_eel_distinct(s: GameView, fresh: Food)
    requires
        s.eel.no_duplicates(),
    ensures
        s.step(fresh).eel.no_duplicates(),
{
    if !s.over && !s.collides() {
        let grown = s.grown();
        assert forall|i: int, j: int| 0 <= i < grown.len() && 0 <= j < grown.len() && i != j
            implies grown[i] != grown[j] by {
            if i == 0 {
                assert(s.eel[j - 1] == grown[j]);
            } else if j == 0 {
                assert(s.eel[i - 1] == grown[i]);
            } else {
                assert(s.eel[i - 1] == grown[i]);
                assert(s.eel[j - 1] == grown[j]);
            }
        }
    }
}

/// No run of ticks, with whatever turns and whatever food, brings a
/// repeated cell into an eel that had none.
pub proof fn lemma_run_keeps_eel_distinct(s: GameView, ticks: Seq<Tick>)
    requires
        s.eel.no_duplicates(),
    ensures
        s.run(ticks).eel.no_duplicates(),
    decreases ticks.len(),
{
    if ticks.len() > 0 {
        lemma_run_keeps_eel_distinct(s, ticks.drop_last());
        let before = s.run(ticks.drop_last()).heard(ticks.last());
        lemma_step_keeps_eel_distinct(before, ticks.last().fresh);
    }
}

/// A fresh eel has three different cells exactly when it fits on the board
/// without being pressed against an edge.
pub proof fn lemma_start_body_distinct(width: u16, height: u16, dir: Direction)
    requires
        width > 0,
        height > 0,
    ensures
        start_body(width, height, dir).no_duplicates() <==> start_body_fits(width, height, dir),
{
    let body = start_body(width, height, dir);
    let b0 = start_cell(width, height, dir, 0);
    let b1 = start_cell(width, height, dir, 1);
    let b2 = start_cell(width, height, dir, 2);
    assert(body[0] == b0 && body[1] == b1 && body[2] == b2);
    if body.no_duplicates() {
        assert(body[0] != body[1] && body[1] != body[2]);
    }
}

/// After a step the food is not under the eel, provided it was not before
/// and food that appears is placed off the eel as it stands once the head
/// has moved.
pub proof fn lemma_food_stays_off_eel(s: GameView, fresh: Food)
    requires
        s.wf(),
        s.eats() ==> !s.grown().contains((fresh.0, fresh.1)),
    ensures
        !s.step(fresh).eel.contains(s.step(fresh).food_cell()),
{
    let t = s.step(fresh);
    if !s.over && !s.collides() {
        lemma_contains_cons(s.next_head(), s.eel, t.food_cell());
        if !s.eats() && s.grow == 0 {
            let grown = s.grown();
            if t.eel.contains(t.food_cell()) {
                let i = choose|i: int| 0 <= i < t.eel.len() && t.eel[i] == t.food_cell();
                assert(grown[i] == t.food_cell());
            }
        }
    }
}

/// A step keeps a game well formed, provided food that appears is placed on
/// the board and off the eel as it stands once the head has moved.
pub proof fn lemma_step_keeps_wf(s: GameView, fresh: Food)
    requires
        s.wf(),
        s.eats() ==> in_board((fresh.0, fresh.1), s.width, s.height) && !s.grown().contains(
            (fresh.0, fresh.1),
        ),
    ensures
        s.step(fresh).wf(),
{
    let t = s.step(fresh);
    lemma_food_stays_off_eel(s, fresh);
    if !s.over && !s.collides() {
        lemma_neighbour_in_board(s.head(), s.dir, s.width, s.height);
        let grown = s.grown();
        assert forall|i: int| 0 <= i < grown.len() implies in_board(
            #[trigger] grown[i],
            s.width,
            s.height,
        ) by {
            if i > 0 {
                assert(grown[i] == s.eel[i - 1]);
            }
        }
        assert(all_in_board(t.eel, t.width, t.height)) by {
            assert forall|i: int| 0 <= i < t.eel.len() implies in_board(
                #[trigger] t.eel[i],
                s.width,
                s.height,
            ) by {
                assert(t.eel[i] == grown[i]);
            }
        }
    }
}

/// A finished game is frozen: a step changes nothing, whatever food is
/// offered.
pub proof fn lemma_finished_game_is_frozen(s: GameView, fresh: Food)
    requires
        s.over,
    ensures
        s.step(fresh) == s,
{
}

/// However many steps a finished game is given, it stays finished and its
/// eel, its food and its growth debt stay as they were.
pub proof fn lemma_finished_game_stays_frozen(s: GameView, ticks: Seq<Tick>)
    requires
        s.over,
    ensures
        s.run(ticks).over,
        s.run(ticks).eel == s.eel,
        s.run(ticks).food == s.food,
        s.run(ticks).grow == s.grow,
        (forall|i: int| 0 <= i < ticks.len() ==> (#[trigger] ticks[i]).turn is None) ==> s.run(
            ticks,
        ) == s,
    decreases ticks.len(),
{
    if ticks.len() > 0 {
        lemma_finished_game_stays_frozen(s, ticks.drop_last());
        if forall|i: int| 0 <= i < ticks.len() ==> (#[trigger] ticks[i]).turn is None {
            assert forall|i: int| 0 <= i < ticks.drop_last().len() implies (
            #[trigger] ticks.drop_last()[i]).turn is None by {
                assert(ticks.drop_last()[i] == ticks[i]);
            }
            assert(ticks.last() == ticks[ticks.len() - 1]);
        }
    }
}

/// A request to reverse never changes the heading, nor anything else; any
/// other request is adopted.
pub proof fn lemma_reversal_is_ignored(s: GameView, wanted: Direction)
    ensures
        s.turn(s.dir.opposite()) == s,
        wanted != s.dir.opposite() ==> s.turn(wanted).dir == wanted,
        s.turn(wanted).dir != s.dir.opposite(),
{
}

/// Eating food of reward `r` lengthens the eel by exactly `r` cells over
/// the `r` ticks that start with the meal, one cell per tick, as long as
/// none of these ticks collides. If none of them eats again, the growth
/// debt is then back where it was.
pub proof fn lemma_growth(s: GameView, ticks: Seq<Tick>)
    requires
        s.eats_then_moves(ticks),
        ticks.len() == s.food.2.reward(),
    ensures
        s.run(ticks).eel.len() == s.eel.len() + s.food.2.reward(),
        !s.run(ticks).over,
        s.eats_once_at_most(ticks) ==> s.run(ticks).grow == s.grow,
{
    lemma_growth_so_far(s, ticks, ticks.len());
    assert(ticks.take(ticks.len() as int) =~= ticks);
}

/// The eel's length and debt after the first `n` of the ticks of a meal:
/// one cell longer per tick, with the rest of the reward still owed, and
/// more if it ate again.
pub proof fn lemma_growth_so_far(s: GameView, ticks: Seq<Tick>, n: nat)
    requires
        s.eats_then_moves(ticks),
        1 <= n <= ticks.len(),
        n <= s.food.2.reward(),
    ensures
        s.run(ticks.take(n as int)).eel.len() == s.eel.len() + n,
        s.run(ticks.take(n as int)).grow >= s.grow + s.food.2.reward() - n,
        s.eats_once_at_most(ticks) ==> s.run(ticks.take(n as int)).grow == s.grow
            + s.food.2.reward() - n,
        !s.run(ticks.take(n as int)).over,
    decreases n,
{
    let now = ticks.take(n as int);
    assert(now.drop_last() =~= ticks.take(n - 1));
    assert(now.last() == ticks[n - 1]);
    if n == 1 {
        assert(s.run(now.drop_last()) == s);
    } else {
        lemma_growth_so_far(s, ticks, (n - 1) as nat);
        let before = s.run(ticks.take(n - 1)).heard(ticks[n - 1]);
        assert(!before.collides());
        if s.eats_once_at_most(ticks) {
            assert(!before.eats());
        }
    }
}

/// A head that moves off an edge comes back in on the opposite edge, in
/// the same row or column.
pub proof fn lemma_wrap_at_edges(s: GameView)
    requires
        s.wf(),
    ensures
        s.dir == Direction::Left && s.head().0 == 0 ==> s.next_head() == (
            (s.width - 1) as u16,
            s.head().1,
        ),
        s.dir == Direction::Right && s.head().0 == s.width - 1 ==> s.next_head() == (
            0u16,
            s.head().1,
        ),
        s.dir == Direction::Up && s.head().1 == 0 ==> s.next_head() == (
            s.head().0,
            (s.height - 1) as u16,
        ),
        s.dir == Direction::Down && s.head().1 == s.height - 1 ==> s.next_head() == (
            s.head().0,
            0u16,
        ),
        in_board(s.next_head(), s.width, s.height),
{
    assert(in_board(s.eel[0], s.width, s.height));
    lemma_wrap_step(s.head().0 as int, s.width as int);
    lemma_wrap_step(s.head().1 as int, s.height as int);
}

/// Crossing an edge is a move like any other: a step finishes a game only
/// when the cell the head moves to is one of the eel's, and otherwise puts
/// the head on that cell.
pub proof fn lemma_only_the_eel_stops_the_eel(s: GameView, fresh: Food)
    requires
        s.wf(),
        !s.over,
    ensures
        s.step(fresh).over <==> s.eel.contains(s.next_head()),
        !s.step(fresh).over ==> s.step(fresh).head() == s.next_head(),
        s.step(fresh).over ==> s.step(fresh).eel == s.eel,
{
    if !s.collides() {
        assert(s.grown()[0] == s.next_head());
        assert(s.grown().drop_last()[0] == s.grown()[0]);
    }
}

} // verus!
