//! The simulation: its state, its model, and the tick.

use crate::board::{
    all_in_board, in_board, lemma_contains_cons, neighbour, occupies, step_cell, Cell,
};
use crate::dice::draw_below;
use crate::direction::Direction;
use crate::food::FoodType;
use crate::laws::{lemma_start_body_distinct, lemma_step_keeps_eel_distinct};
use crate::palette::{is_start_gradient, random_eel_gradient, Paint};
use crate::spawner::{has_free_cell, has_room_besides, place};
use rand::rngs::ThreadRng;
use std::collections::VecDeque;
use vstd::prelude::*;

verus! {

/// A piece of food: its column, its row and its kind.
pub type Food = (u16, u16, FoodType);

/// The mathematical model of a game.
pub struct GameView {
    /// Number of columns.
    pub width: u16,
    /// Number of rows.
    pub height: u16,
    /// The eel's cells from head to tail.
    pub eel: Seq<Cell>,
    /// The heading the next tick moves in.
    pub dir: Direction,
    /// The food on the board.
    pub food: Food,
    /// Whether the eel has run into itself.
    pub over: bool,
    /// Ticks of growth still owed to the eel.
    pub grow: nat,
    /// The colours of the eel at its head and at its tail.
    pub eel_gradient: (Paint, Paint),
}

/// `v` held between `lo` and `hi`.
pub open spec fn clamp(v: int, lo: int, hi: int) -> int {
    if v < lo {
        lo
    } else if v > hi {
        hi
    } else {
        v
    }
}

/// The `i`-th cell of a fresh eel: `i` cells behind the centre of the board,
/// against the heading, and no further than the edge.
pub open spec fn start_cell(width: u16, height: u16, dir: Direction, i: int) -> Cell {
    (
        clamp(width / 2 - i * dir.dx(), 0, width - 1) as u16,
        clamp(height / 2 - i * dir.dy(), 0, height - 1) as u16,
    )
}

/// The three cells of a fresh eel, head first.
pub open spec fn start_body(width: u16, height: u16, dir: Direction) -> Seq<Cell> {
    seq![
        start_cell(width, height, dir, 0),
        start_cell(width, height, dir, 1),
        start_cell(width, height, dir, 2),
    ]
}

/// Whether a fresh eel with this heading fits on the board without being
/// pressed against an edge.
pub open spec fn start_body_fits(width: u16, height: u16, dir: Direction) -> bool {
    &&& 0 <= width / 2 - 2 * dir.dx() <= width - 1
    &&& 0 <= height / 2 - 2 * dir.dy() <= height - 1
}

impl GameView {
    /// The food's cell.
    pub open spec fn food_cell(self) -> Cell {
        (self.food.0, self.food.1)
    }

    /// What every game satisfies: a board with at least one cell, an eel of
    /// at least one cell that lies on the board, and food on a cell of the
    /// board that the eel does not cover.
    pub open spec fn wf(self) -> bool {
        &&& self.width > 0
        &&& self.height > 0
        &&& self.eel.len() > 0
        &&& all_in_board(self.eel, self.width, self.height)
        &&& in_board(self.food_cell(), self.width, self.height)
        &&& !self.eel.contains(self.food_cell())
    }

    /// The eel's head.
    pub open spec fn head(self) -> Cell {
        self.eel[0]
    }

    /// The cell the head moves to on the next tick.
    pub open spec fn next_head(self) -> Cell {
        neighbour(self.head(), self.dir, self.width, self.height)
    }

    /// Whether the next tick runs the head into the eel.
    pub open spec fn collides(self) -> bool {
        self.eel.contains(self.next_head())
    }

    /// Whether the next tick eats the food.
    pub open spec fn eats(self) -> bool {
        !self.over && !self.collides() && self.next_head() == self.food_cell()
    }

    /// The eel with its head moved on and its tail left in place.
    pub open spec fn grown(self) -> Seq<Cell> {
        seq![self.next_head()] + self.eel
    }

    /// Whether the next tick has an outcome: a tick that eats needs a free
    /// cell for the new food once the head has moved, and a growth debt
    /// that the machine can hold.
    pub open spec fn can_step(self) -> bool {
        self.eats() ==> {
            &&& has_free_cell(self.grown(), self.width, self.height)
            &&& self.grow + self.food.2.reward() - 1 <= usize::MAX
        }
    }

    /// The game after one tick, where `fresh` is the food that appears if
    /// the tick eats.
    ///
    /// A finished game stays as it is. A move into the eel finishes the
    /// game and changes nothing else. Otherwise the head moves on; if it
    /// eats, the debt rises by the reward less one, the head takes the
    /// food's colour and `fresh` appears; else a debt is paid down by one;
    /// else the tail follows.
    pub open spec fn step(self, fresh: Food) -> GameView {
        if self.over {
            self
        } else if self.collides() {
            GameView { over: true, ..self }
        } else if self.next_head() == self.food_cell() {
            GameView {
                eel: self.grown(),
                grow: (self.grow + self.food.2.reward() - 1) as nat,
                eel_gradient: (self.food.2.paint(), self.eel_gradient.1),
                food: fresh,
                ..self
            }
        } else if self.grow > 0 {
            GameView { eel: self.grown(), grow: (self.grow - 1) as nat, ..self }
        } else {
            GameView { eel: self.grown().drop_last(), ..self }
        }
    }

    /// The game after a step was attempted: a step that has no outcome
    /// leaves the game as it is.
    pub open spec fn attempt(self, fresh: Food) -> GameView {
        if self.can_step() {
            self.step(fresh)
        } else {
            self
        }
    }

    /// The game after a request to head in `wanted`: a request to reverse
    /// is ignored, any other is adopted.
    pub open spec fn turn(self, wanted: Direction) -> GameView {
        if wanted == self.dir.opposite() {
            self
        } else {
            GameView { dir: wanted, ..self }
        }
    }
}

/// A game in progress.
pub struct Game {
    eel: VecDeque<Cell>,
    dir: Direction,
    food: Food,
    over: bool,
    width: u16,
    height: u16,
    grow: usize,
    eel_gradient: (Paint, Paint),
}

impl View for Game {
    type V = GameView;

    closed spec fn view(&self) -> GameView {
        GameView {
            width: self.width,
            height: self.height,
            eel: self.eel@,
            dir: self.dir,
            food: self.food,
            over: self.over,
            grow: self.grow as nat,
            eel_gradient: self.eel_gradient,
        }
    }
}

/// A fresh eel never covers a board of three cells or more.
pub proof fn lemma_start_body_leaves_room(width: u16, height: u16, dir: Direction)
    requires
        width > 0,
        height > 0,
        width * height >= 3,
    ensures
        has_free_cell(start_body(width, height, dir), width, height),
        all_in_board(start_body(width, height, dir), width, height),
{
    let body = start_body(width, height, dir);
    let b0 = start_cell(width, height, dir, 0);
    let b1 = start_cell(width, height, dir, 1);
    let b2 = start_cell(width, height, dir, 2);
    assert(body[0] == b0 && body[1] == b1 && body[2] == b2);
    assert(forall|c: Cell| body.contains(c) ==> c == b0 || c == b1 || c == b2);
    if width == 1 {
        assert(height >= 3) by (nonlinear_arith)
            requires
                width == 1,
                width * height >= 3,
        ;
    }
    if height == 1 {
        assert(width >= 3) by (nonlinear_arith)
            requires
                height == 1,
                width * height >= 3,
        ;
    }
    let free: Cell = if dir == Direction::Down && width == 1 {
        (0u16, (height - 1) as u16)
    } else if dir == Direction::Right && height == 1 {
        ((width - 1) as u16, 0u16)
    } else {
        (0u16, 0u16)
    };
    assert(in_board(free, width, height));
    assert(free != b0 && free != b1 && free != b2);
}

impl Game {
    /// What every game satisfies; see [`GameView::wf`].
    pub open spec fn wf(&self) -> bool {
        self@.wf()
    }

    /// Starts a game on a board of the given size: a random heading, an eel
    /// of three cells from the centre of the board against the heading,
    /// food on a random free cell, and a random gradient.
    ///
    /// The board must have three cells or more, so that the eel leaves room
    /// for the food whatever the heading.
    pub fn new_with_size(width: u16, height: u16, rng: &mut ThreadRng) -> (g: Game)
        requires
            width > 0,
            height > 0,
            width * height >= 3,
        ensures
            g.wf(),
            g@.width == width,
            g@.height == height,
            g@.eel == start_body(width, height, g@.dir),
            g@.eel.no_duplicates() <==> start_body_fits(width, height, g@.dir),
            !g@.over,
            g@.grow == 0,
            is_start_gradient(g@.eel_gradient),
    {
        let dir = Direction::from_draw(draw_below(rng, 4));
        let eel = Self::fresh_eel(width, height, dir);
        proof {
            lemma_start_body_leaves_room(width, height, dir);
            lemma_start_body_distinct(width, height, dir);
        }
        let food = Self::random_food(&eel, width, height, rng);
        let (head, tail) = random_eel_gradient(rng);
        Game { eel, dir, food, over: false, width, height, grow: 0, eel_gradient: (head, tail) }
    }

    /// Starts a game; the same as [`Game::new_with_size`].
    pub fn new(rng: &mut ThreadRng, width: u16, height: u16) -> (g: Game)
        requires
            width > 0,
            height > 0,
            width * height >= 3,
        ensures
            g.wf(),
            g@.width == width,
            g@.height == height,
            g@.eel == start_body(width, height, g@.dir),
            g@.eel.no_duplicates() <==> start_body_fits(width, height, g@.dir),
            !g@.over,
            g@.grow == 0,
            is_start_gradient(g@.eel_gradient),
    {
        Self::new_with_size(width, height, rng)
    }

    /// The cells of a fresh eel with the given heading.
    pub fn fresh_eel(width: u16, height: u16, dir: Direction) -> (eel: VecDeque<Cell>)
        requires
            width > 0,
            height > 0,
        ensures
            eel@ == start_body(width, height, dir),
    {
        let (dx, dy): (i32, i32) = match dir {
            Direction::Up => (0, 1),
            Direction::Down => (0, -1),
            Direction::Left => (1, 0),
            Direction::Right => (-1, 0),
        };
        let center_x: i32 = (width / 2) as i32;
        let center_y: i32 = (height / 2) as i32;
        let mut eel: VecDeque<Cell> = VecDeque::new();
        let mut i: i32 = 0;
        while i < 3
            invariant
                0 <= i <= 3,
                width > 0,
                height > 0,
                dx == -dir.dx(),
                dy == -dir.dy(),
                center_x == width / 2,
                center_y == height / 2,
                eel@.len() == i,
                forall|j: int| 0 <= j < i ==> eel@[j] == start_cell(width, height, dir, j),
            decreases 3 - i,
        {
            assert(-2 <= i * dx <= 2 && -2 <= i * dy <= 2) by (nonlinear_arith)
                requires
                    0 <= i < 3,
                    -1 <= dx <= 1,
                    -1 <= dy <= 1,
            ;
            assert(i * dx == -(i * dir.dx()) && i * dy == -(i * dir.dy())) by (nonlinear_arith)
                requires
                    dx == -dir.dx(),
                    dy == -dir.dy(),
            ;
            let x = Self::clamp_to_axis(center_x + i * dx, width);
            let y = Self::clamp_to_axis(center_y + i * dy, height);
            eel.push_back((x, y));
            i += 1;
        }
        assert(eel@ =~= start_body(width, height, dir));
        eel
    }

    /// Brings a coordinate back onto an axis of `len` cells.
    fn clamp_to_axis(v: i32, len: u16) -> (r: u16)
        requires
            len > 0,
        ensures
            r == clamp(v as int, 0, len - 1),
    {
        if v < 0 {
            0
        } else if v > (len - 1) as i32 {
            len - 1
        } else {
            v as u16
        }
    }

    /// Places new food: a random free cell of the board and a random kind.
    ///
    /// The board must have a cell that `eel` does not cover.
    pub fn random_food(eel: &VecDeque<Cell>, width: u16, height: u16, rng: &mut ThreadRng) -> (f:
        Food)
        requires
            has_free_cell(eel@, width, height),
        ensures
            in_board((f.0, f.1), width, height),
            !eel@.contains((f.0, f.1)),
    {
        let p = place(eel, width, height, rng);
        (p.0, p.1, FoodType::random(rng))
    }

    /// Advances the game by one tick.
    ///
    /// The outcome is [`GameView::step`] of the state before, with the food
    /// that this call placed if the tick ate; the result's `wf` says that
    /// such food lies on the board and off the eel.
    pub fn update(&mut self, rng: &mut ThreadRng)
        requires
            old(self).wf(),
            old(self)@.can_step(),
        ensures
            final(self).wf(),
            final(self)@ == old(self)@.step(final(self)@.food),
            old(self)@.eel.no_duplicates() ==> final(self)@.eel.no_duplicates(),
    {
        if self.over {
            return ;
        }
        proof {
            if self@.eel.no_duplicates() {
                assert forall|fresh: Food| #[trigger] self@.step(fresh).eel.no_duplicates() by {
                    lemma_step_keeps_eel_distinct(self@, fresh);
                }
            }
        }
        let head = self.eel[0];
        let next = step_cell(head, self.dir, self.width, self.height);
        if occupies(&self.eel, next) {
            self.over = true;
            return ;
        }
        proof {
            assert forall|c: Cell| #[trigger] old(self)@.grown().contains(c) <==> (c == next
                || old(self)@.eel.contains(c)) by {
                lemma_contains_cons(next, old(self)@.eel, c);
            }
        }
        self.eel.push_front(next);
        if next.0 == self.food.0 && next.1 == self.food.1 {
            self.grow += self.food.2.length() - 1;
            let new_head = self.food.2.color();
            let prev_tail = self.eel_gradient.1;
            self.eel_gradient = (new_head, prev_tail);
            self.food = Self::random_food(&self.eel, self.width, self.height, rng);
        } else if self.grow > 0 {
            self.grow -= 1;
        } else {
            self.eel.pop_back();
            assert(self.eel@ =~= old(self)@.grown().drop_last());
        }
    }

    /// Advances the game by one tick if the tick has an outcome, and says
    /// whether it did; a game whose tick has none is left as it is.
    pub fn try_update(&mut self, rng: &mut ThreadRng) -> (stepped: bool)
        requires
            old(self).wf(),
        ensures
            final(self).wf(),
            stepped == old(self)@.can_step(),
            final(self)@ == old(self)@.attempt(final(self)@.food),
            old(self)@.eel.no_duplicates() ==> final(self)@.eel.no_duplicates(),
    {
        if self.can_update() {
            self.update(rng);
            true
        } else {
            false
        }
    }

    /// Whether the next tick has an outcome; see [`GameView::can_step`].
    pub fn can_update(&self) -> (b: bool)
        requires
            self.wf(),
        ensures
            b == self@.can_step(),
    {
        if self.over {
            return true;
        }
        let next = step_cell(self.eel[0], self.dir, self.width, self.height);
        if occupies(&self.eel, next) {
            return true;
        }
        if !(next.0 == self.food.0 && next.1 == self.food.1) {
            return true;
        }
        self.grow <= usize::MAX - (self.food.2.length() - 1) && has_room_besides(
            &self.eel,
            next,
            self.width,
            self.height,
        )
    }

    /// Builds a game in progress from its parts, the eel head first, or
    /// nothing if the parts do not make a well-formed game.
    pub fn from_parts(
        width: u16,
        height: u16,
        body: Vec<Cell>,
        dir: Direction,
        food: Food,
        grow: usize,
        eel_gradient: (Paint, Paint),
    ) -> (r: Option<Game>)
        ensures
            r is Some <==> (GameView {
                width,
                height,
                eel: body@,
                dir,
                food,
                over: false,
                grow: grow as nat,
                eel_gradient,
            }).wf(),
            r matches Some(g) ==> g@ == (GameView {
                width,
                height,
                eel: body@,
                dir,
                food,
                over: false,
                grow: grow as nat,
                eel_gradient,
            }),
    {
        if width == 0 || height == 0 || body.len() == 0 {
            return None;
        }
        if food.0 >= width || food.1 >= height {
            return None;
        }
        let mut eel: VecDeque<Cell> = VecDeque::new();
        let mut i: usize = 0;
        while i < body.len()
            invariant
                i <= body.len(),
                eel@ == body@.take(i as int),
                all_in_board(eel@, width, height),
            decreases body.len() - i,
        {
            let c = body[i];
            if c.0 >= width || c.1 >= height {
                assert(!in_board(body@[i as int], width, height));
                return None;
            }
            eel.push_back(c);
            assert(eel@ =~= body@.take(i + 1));
            i += 1;
        }
        assert(eel@ =~= body@);
        if occupies(&eel, (food.0, food.1)) {
            return None;
        }
        Some(Game { eel, dir, food, over: false, width, height, grow, eel_gradient })
    }

    /// The number of columns of the board.
    pub fn width(&self) -> (w: u16)
        ensures
            w == self@.width,
    {
        self.width
    }

    /// The number of rows of the board.
    pub fn height(&self) -> (h: u16)
        ensures
            h == self@.height,
    {
        self.height
    }

    /// The eel's cells from head to tail.
    pub fn eel(&self) -> (cells: &VecDeque<Cell>)
        ensures
            cells@ == self@.eel,
    {
        &self.eel
    }

    /// The number of cells of the eel.
    pub fn len(&self) -> (n: usize)
        ensures
            n == self@.eel.len(),
    {
        self.eel.len()
    }

    /// The heading the next tick moves in.
    pub fn dir(&self) -> (d: Direction)
        ensures
            d == self@.dir,
    {
        self.dir
    }

    /// The food on the board.
    pub fn food(&self) -> (f: Food)
        ensures
            f == self@.food,
    {
        self.food
    }

    /// Whether the eel has run into itself.
    pub fn over(&self) -> (b: bool)
        ensures
            b == self@.over,
    {
        self.over
    }

    /// Ticks of growth still owed to the eel.
    pub fn grow(&self) -> (n: usize)
        ensures
            n == self@.grow,
    {
        self.grow
    }

    /// The colours of the eel at its head and at its tail.
    pub fn eel_gradient(&self) -> (g: (Paint, Paint))
        ensures
            g == self@.eel_gradient,
    {
        self.eel_gradient
    }

    /// Asks the eel to head in `new_dir`. A request to reverse is ignored.
    pub fn change_dir(&mut self, new_dir: Direction)
        ensures
            final(self)@ == old(self)@.turn(new_dir),
    {
        if self.dir.is_opposite(new_dir) {
        } else {
            self.dir = new_dir;
        }
    }
}

} // verus!
