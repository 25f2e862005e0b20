//! A play session: the screens around the game, and what one frame's input
//! does to it.
//!
//! The session decides; the caller polls the keyboard and the clock, draws,
//! and waits for the next frame.

use crate::direction::Direction;
use crate::game::{start_body, Food, Game, GameView};
use crate::palette::is_start_gradient;
use crate::scheduler::{SchedulerView, TickScheduler, BASE_INTERVAL, MIN_SPEED};
use rand::rngs::ThreadRng;
use vstd::prelude::*;

verus! {

/// The board's width when a session opens.
pub const DEFAULT_BOARD_WIDTH: u16 = 30;

/// The board's height when a session opens.
pub const DEFAULT_BOARD_HEIGHT: u16 = 30;

/// The shortest side the options screen offers.
pub const MIN_BOARD_SIDE: u16 = 10;

/// The longest side the options screen offers.
pub const MAX_BOARD_SIDE: u16 = 60;

/// The screen a session shows.
#[derive(Copy, Clone, PartialEq, Eq, Structural, Debug)]
pub enum GameState {
    Splash,
    Options,
    Playing,
}

/// What the keyboard says in one frame. A key is pressed in the frame it
/// goes down, and held for as long as it is down.
#[derive(Copy, Clone, Debug)]
pub struct Input {
    pub space_pressed: bool,
    pub up_pressed: bool,
    pub down_pressed: bool,
    pub left_pressed: bool,
    pub right_pressed: bool,
    pub up_held: bool,
    pub down_held: bool,
    pub left_held: bool,
    pub right_held: bool,
    pub shift_held: bool,
    /// The keys 1 to 9, in order.
    pub digits_pressed: [bool; 9],
    pub quit_pressed: bool,
}

impl Input {
    /// The heading the held arrow keys ask for: up before down before left
    /// before right.
    pub open spec fn wanted_heading(self) -> Option<Direction> {
        if self.up_held {
            Some(Direction::Up)
        } else if self.down_held {
            Some(Direction::Down)
        } else if self.left_held {
            Some(Direction::Left)
        } else if self.right_held {
            Some(Direction::Right)
        } else {
            None
        }
    }

    /// Whether the frame asks for a double step: shift held together with
    /// an arrow key.
    pub open spec fn wants_fast(self) -> bool {
        self.shift_held && self.wanted_heading() is Some
    }

    /// A frame in which no key is down.
    pub fn none() -> (input: Input)
        ensures
            !input.space_pressed,
            !input.up_pressed && !input.down_pressed && !input.left_pressed
                && !input.right_pressed,
            input.wanted_heading() is None,
            !input.shift_held,
            forall|i: int| 0 <= i < 9 ==> !input.digits_pressed@[i],
            !input.quit_pressed,
    {
        Input {
            space_pressed: false,
            up_pressed: false,
            down_pressed: false,
            left_pressed: false,
            right_pressed: false,
            up_held: false,
            down_held: false,
            left_held: false,
            right_held: false,
            shift_held: false,
            digits_pressed: [false, false, false, false, false, false, false, false, false],
            quit_pressed: false,
        }
    }

    /// The heading the held arrow keys ask for, if any.
    pub fn heading(&self) -> (d: Option<Direction>)
        ensures
            d == self.wanted_heading(),
    {
        if self.up_held {
            Some(Direction::Up)
        } else if self.down_held {
            Some(Direction::Down)
        } else if self.left_held {
            Some(Direction::Left)
        } else if self.right_held {
            Some(Direction::Right)
        } else {
            None
        }
    }

    /// Whether the frame asks for a double step.
    pub fn fast(&self) -> (b: bool)
        ensures
            b == self.wants_fast(),
    {
        self.shift_held && (self.up_held || self.down_held || self.left_held || self.right_held)
    }
}

/// The speed level after the first `n` digit keys were looked at: the
/// highest of them that is pressed, or `current` if none is.
pub open spec fn speed_after(current: u8, digits: Seq<bool>, n: nat) -> u8
    decreases n,
{
    if n == 0 {
        current
    } else if digits[n - 1] {
        n as u8
    } else {
        speed_after(current, digits, (n - 1) as nat)
    }
}

/// A chosen level is a speed level whenever the current one is.
pub proof fn lemma_speed_after_is_level(current: u8, digits: Seq<bool>, n: nat)
    requires
        n <= 9,
        1 <= current <= 9,
    ensures
        1 <= speed_after(current, digits, n) <= 9,
    decreases n,
{
    if n > 0 && !digits[n - 1] {
        lemma_speed_after_is_level(current, digits, (n - 1) as nat);
    }
}

/// The speed level the digit keys choose: the highest pressed, or
/// `current` if none is.
pub fn pick_speed(current: u8, digits: &[bool; 9]) -> (level: u8)
    ensures
        level == speed_after(current, digits@, 9),
{
    let mut level = current;
    let mut n: u8 = 0;
    while n < 9
        invariant
            n <= 9,
            level == speed_after(current, digits@, n as nat),
        decreases 9 - n,
    {
        if digits[n as usize] {
            level = n + 1;
        }
        n += 1;
    }
    level
}

/// A side made one cell shorter, down to the shortest.
pub open spec fn shorter(side: u16) -> u16 {
    if side > MIN_BOARD_SIDE {
        (side - 1) as u16
    } else {
        side
    }
}

/// A side made one cell longer, up to the longest.
pub open spec fn longer(side: u16) -> u16 {
    if side < MAX_BOARD_SIDE {
        (side + 1) as u16
    } else {
        side
    }
}

/// The width after the arrow keys: left shortens, then right lengthens.
pub open spec fn width_after(width: u16, input: Input) -> u16 {
    let w = if input.left_pressed {
        shorter(width)
    } else {
        width
    };
    if input.right_pressed {
        longer(w)
    } else {
        w
    }
}

/// The height after the arrow keys: up lengthens, then down shortens.
pub open spec fn height_after(height: u16, input: Input) -> u16 {
    let h = if input.up_pressed {
        longer(height)
    } else {
        height
    };
    if input.down_pressed {
        shorter(h)
    } else {
        h
    }
}

/// Whether `g` is a game as it starts on a board of the given size.
pub open spec fn is_fresh_game(g: GameView, width: u16, height: u16) -> bool {
    &&& g.wf()
    &&& g.width == width
    &&& g.height == height
    &&& g.eel == start_body(width, height, g.dir)
    &&& !g.over
    &&& g.grow == 0
    &&& is_start_gradient(g.eel_gradient)
}

/// What chance adds to one frame: the game that starts if one does, and
/// the food that appears if the first or the second step eats.
pub struct Chance {
    pub fresh: GameView,
    pub first: Food,
    pub second: Food,
}

/// The model of a session.
pub struct SessionView {
    /// The screen shown.
    pub state: GameState,
    /// The width chosen on the options screen.
    pub board_width: u16,
    /// The height chosen on the options screen.
    pub board_height: u16,
    /// The game being played, or the last one played.
    pub game: GameView,
    /// Whether play is paused.
    pub paused: bool,
    /// The tick scheduler, which also holds the speed level.
    pub scheduler: SchedulerView,
}

impl SessionView {
    /// What every session satisfies: sides within the offered range, a
    /// well-formed game and scheduler, and while playing a game on the
    /// board that was chosen.
    pub open spec fn wf(self) -> bool {
        &&& MIN_BOARD_SIDE <= self.board_width <= MAX_BOARD_SIDE
        &&& MIN_BOARD_SIDE <= self.board_height <= MAX_BOARD_SIDE
        &&& self.game.wf()
        &&& self.scheduler.wf()
        &&& self.state == GameState::Playing ==> self.game.width == self.board_width
            && self.game.height == self.board_height
    }

    /// The session as `game` starts in it at `now`: playing, not paused, at
    /// speed level 1, with the tick count starting over.
    pub open spec fn started(self, now: u64, game: GameView) -> SessionView {
        SessionView {
            state: GameState::Playing,
            game,
            paused: false,
            scheduler: SchedulerView { speed: MIN_SPEED, last_tick: now, ..self.scheduler },
            ..self
        }
    }

    /// Whether this frame starts a game: space on the options screen, or
    /// space after the game is over.
    pub open spec fn starts_game(self, input: Input) -> bool {
        input.space_pressed && match self.state {
            GameState::Splash => false,
            GameState::Options => true,
            GameState::Playing => self.game.over,
        }
    }

    /// A frame of the splash screen: space moves on to the options.
    pub open spec fn splash_frame(self, input: Input) -> SessionView {
        if input.space_pressed {
            SessionView { state: GameState::Options, ..self }
        } else {
            self
        }
    }

    /// A frame of the options screen: the arrow keys resize the board, then
    /// space starts a game on it.
    pub open spec fn options_frame(self, input: Input, now: u64, fresh: GameView) -> SessionView {
        let sized = SessionView {
            board_width: width_after(self.board_width, input),
            board_height: height_after(self.board_height, input),
            ..self
        };
        if input.space_pressed {
            sized.started(now, fresh)
        } else {
            sized
        }
    }

    /// The first part of a frame of play: space starts over once the game
    /// is over and toggles the pause before that; the digit keys set the
    /// speed; and while the game is on, the held arrow keys turn the eel.
    pub open spec fn heard(self, input: Input, now: u64, fresh: GameView) -> SessionView {
        let spaced = if !input.space_pressed {
            self
        } else if self.game.over {
            self.started(now, fresh)
        } else {
            SessionView { paused: !self.paused, ..self }
        };
        let level = speed_after(spaced.scheduler.speed, input.digits_pressed@, 9);
        let game = match input.wanted_heading() {
            Some(d) if !spaced.game.over => spaced.game.turn(d),
            _ => spaced.game,
        };
        SessionView { game, scheduler: spaced.scheduler.with_speed(level), ..spaced }
    }

    /// The number of steps a frame of play attempts once its input was
    /// heard: none while paused or over or before the tick is due, then
    /// one, or two if the frame asks for a double step.
    pub open spec fn steps_due(self, input: Input, now: u64) -> u8 {
        if self.paused || self.game.over {
            0
        } else {
            self.scheduler.steps_at(now, input.wants_fast())
        }
    }

    /// A frame of play: the input is heard, then the steps that are due
    /// are attempted and the tick count starts over.
    pub open spec fn playing_frame(self, input: Input, now: u64, chance: Chance) -> SessionView {
        let heard = self.heard(input, now, chance.fresh);
        let steps = heard.steps_due(input, now);
        if steps == 0 {
            heard
        } else {
            let once = heard.game.attempt(chance.first);
            let game = if steps == 1 {
                once
            } else {
                once.attempt(chance.second)
            };
            SessionView { game, scheduler: heard.scheduler.polled(now), ..heard }
        }
    }

    /// The session after one frame.
    pub open spec fn frame(self, input: Input, now: u64, chance: Chance) -> SessionView {
        match self.state {
            GameState::Splash => self.splash_frame(input),
            GameState::Options => self.options_frame(input, now, chance.fresh),
            GameState::Playing => self.playing_frame(input, now, chance),
        }
    }

    /// Whether a game that this frame starts is one as it starts on the
    /// board then chosen.
    pub open spec fn fair(self, input: Input, chance: Chance) -> bool {
        self.starts_game(input) ==> is_fresh_game(
            chance.fresh,
            if self.state == GameState::Options {
                width_after(self.board_width, input)
            } else {
                self.board_width
            },
            if self.state == GameState::Options {
                height_after(self.board_height, input)
            } else {
                self.board_height
            },
        )
    }
}

/// A play session.
pub struct Session {
    state: GameState,
    board_width: u16,
    board_height: u16,
    game: Game,
    paused: bool,
    scheduler: TickScheduler,
}

impl View for Session {
    type V = SessionView;

    closed spec fn view(&self) -> SessionView {
        SessionView {
            state: self.state,
            board_width: self.board_width,
            board_height: self.board_height,
            game: self.game@,
            paused: self.paused,
            scheduler: self.scheduler@,
        }
    }
}

impl Session {
    /// What every session satisfies; see [`SessionView::wf`].
    pub open spec fn wf(&self) -> bool {
        self@.wf()
    }

    /// Opens a session at `now`: the splash screen, the default board with
    /// a game ready on it, speed level 1, not paused.
    pub fn new(now: u64, rng: &mut ThreadRng) -> (s: Session)
        ensures
            s.wf(),
            s@.state == GameState::Splash,
            s@.board_width == DEFAULT_BOARD_WIDTH,
            s@.board_height == DEFAULT_BOARD_HEIGHT,
            is_fresh_game(s@.game, DEFAULT_BOARD_WIDTH, DEFAULT_BOARD_HEIGHT),
            !s@.paused,
            s@.scheduler == (SchedulerView {
                base: BASE_INTERVAL,
                speed: MIN_SPEED,
                last_tick: now,
            }),
    {
        Session {
            state: GameState::Splash,
            board_width: DEFAULT_BOARD_WIDTH,
            board_height: DEFAULT_BOARD_HEIGHT,
            game: Game::new(rng, DEFAULT_BOARD_WIDTH, DEFAULT_BOARD_HEIGHT),
            paused: false,
            scheduler: TickScheduler::new(BASE_INTERVAL, now),
        }
    }

    /// Takes up `game` at `now` on the playing screen, at speed level 1 and
    /// not paused, or gives nothing if a side of its board is outside the
    /// range that the options screen offers.
    pub fn playing(game: Game, now: u64) -> (r: Option<Session>)
        requires
            game.wf(),
        ensures
            r is Some <==> MIN_BOARD_SIDE <= game@.width <= MAX_BOARD_SIDE && MIN_BOARD_SIDE
                <= game@.height <= MAX_BOARD_SIDE,
            r matches Some(s) ==> s.wf() && s@ == (SessionView {
                state: GameState::Playing,
                board_width: game@.width,
                board_height: game@.height,
                game: game@,
                paused: false,
                scheduler: SchedulerView { base: BASE_INTERVAL, speed: MIN_SPEED, last_tick: now },
            }),
    {
        let width = game.width();
        let height = game.height();
        if width < MIN_BOARD_SIDE || width > MAX_BOARD_SIDE || height < MIN_BOARD_SIDE || height
            > MAX_BOARD_SIDE {
            return None;
        }
        Some(
            Session {
                state: GameState::Playing,
                board_width: width,
                board_height: height,
                game,
                paused: false,
                scheduler: TickScheduler::new(BASE_INTERVAL, now),
            },
        )
    }

    /// The screen shown.
    pub fn state(&self) -> (state: GameState)
        ensures
            state == self@.state,
    {
        self.state
    }

    /// The width chosen on the options screen.
    pub fn board_width(&self) -> (w: u16)
        ensures
            w == self@.board_width,
    {
        self.board_width
    }

    /// The height chosen on the options screen.
    pub fn board_height(&self) -> (h: u16)
        ensures
            h == self@.board_height,
    {
        self.board_height
    }

    /// The game being played, or the last one played.
    pub fn game(&self) -> (g: &Game)
        ensures
            g@ == self@.game,
    {
        &self.game
    }

    /// Whether play is paused.
    pub fn paused(&self) -> (b: bool)
        ensures
            b == self@.paused,
    {
        self.paused
    }

    /// The speed level.
    pub fn speed(&self) -> (level: u8)
        ensures
            level == self@.scheduler.speed,
    {
        self.scheduler.speed()
    }

    /// Starts a game on the chosen board at `now`.
    fn start(&mut self, now: u64, rng: &mut ThreadRng)
        requires
            old(self).wf(),
        ensures
            final(self).wf(),
            final(self)@ == old(self)@.started(now, final(self)@.game),
            is_fresh_game(final(self)@.game, old(self)@.board_width, old(self)@.board_height),
    {
        assert(self.board_width * self.board_height >= 3) by (nonlinear_arith)
            requires
                self.board_width >= 10,
                self.board_height >= 10,
        ;
        self.game = Game::new(rng, self.board_width, self.board_height);
        self.paused = false;
        self.scheduler.set_speed(MIN_SPEED);
        self.scheduler.restart(now);
        self.state = GameState::Playing;
    }

    /// Resizes the board as the arrow keys ask.
    fn resize(&mut self, input: &Input)
        requires
            old(self).wf(),
            old(self)@.state == GameState::Options,
        ensures
            final(self).wf(),
            final(self)@ == (SessionView {
                board_width: width_after(old(self)@.board_width, *input),
                board_height: height_after(old(self)@.board_height, *input),
                ..old(self)@
            }),
    {
        if input.left_pressed && self.board_width > MIN_BOARD_SIDE {
            self.board_width -= 1;
        }
        if input.right_pressed && self.board_width < MAX_BOARD_SIDE {
            self.board_width += 1;
        }
        if input.up_pressed && self.board_height < MAX_BOARD_SIDE {
            self.board_height += 1;
        }
        if input.down_pressed && self.board_height > MIN_BOARD_SIDE {
            self.board_height -= 1;
        }
    }

    /// Hears the input of a frame of play.
    fn hear(&mut self, input: &Input, now: u64, rng: &mut ThreadRng) -> (fresh: Ghost<GameView>)
        requires
            old(self).wf(),
            old(self)@.state == GameState::Playing,
        ensures
            final(self).wf(),
            final(self)@ == old(self)@.heard(*input, now, fresh@),
            old(self)@.starts_game(*input) ==> is_fresh_game(
                fresh@,
                old(self)@.board_width,
                old(self)@.board_height,
            ),
    {
        let ghost mut fresh = self.game@;
        if input.space_pressed {
            if self.game.over() {
                self.start(now, rng);
                proof {
                    fresh = self.game@;
                }
            } else {
                self.paused = !self.paused;
            }
        }
        proof {
            lemma_speed_after_is_level(self.scheduler@.speed, input.digits_pressed@, 9);
        }
        let level = pick_speed(self.scheduler.speed(), &input.digits_pressed);
        self.scheduler.set_speed(level);
        if !self.game.over() {
            match input.heading() {
                Some(d) => {
                    self.game.change_dir(d);
                },
                None => {},
            }
        }
        Ghost(fresh)
    }

    /// Plays one frame: hears `input`, and on the playing screen runs the
    /// steps that are due at `now`. Returns whether the session goes on,
    /// which it does until quit is pressed.
    ///
    /// The outcome is [`SessionView::frame`] of the session before, for
    /// some fair contribution of chance.
    pub fn frame(&mut self, input: &Input, now: u64, rng: &mut ThreadRng) -> (running: bool)
        requires
            old(self).wf(),
        ensures
            final(self).wf(),
            running == !input.quit_pressed,
            exists|chance: Chance| #[trigger]
                old(self)@.fair(*input, chance) && final(self)@ == old(self)@.frame(
                    *input,
                    now,
                    chance,
                ),
    {
        let ghost mut chance = Chance {
            fresh: self.game@,
            first: self.game@.food,
            second: self.game@.food,
        };
        match self.state {
            GameState::Splash => {
                if input.space_pressed {
                    self.state = GameState::Options;
                }
            },
            GameState::Options => {
                self.resize(input);
                if input.space_pressed {
                    self.start(now, rng);
                    proof {
                        chance.fresh = self.game@;
                    }
                }
            },
            GameState::Playing => {
                let fresh = self.hear(input, now, rng);
                proof {
                    chance.fresh = fresh@;
                }
                if !self.paused && !self.game.over() {
                    let steps = self.scheduler.poll(now, input.fast());
                    if steps >= 1 {
                        self.game.try_update(rng);
                        proof {
                            chance.first = self.game@.food;
                            chance.second = self.game@.food;
                        }
                    }
                    if steps >= 2 {
                        self.game.try_update(rng);
                        proof {
                            chance.second = self.game@.food;
                        }
                    }
                }
            },
        }
        assert(old(self)@.fair(*input, chance));
        assert(self@ == old(self)@.frame(*input, now, chance));
        !input.quit_pressed
    }
}

} // verus!
