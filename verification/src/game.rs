//! One tick of the whole game, in the order that the systems have to keep.
//!
//! A tick has three steps. [`Game::advance`] takes the frame's real time
//! and input, runs the clock and the arbiter, and on the play screen lets
//! the dinosaur take off and follows its jump. The caller then scrolls each
//! tree with [`Game::scroll_tree`]. [`Game::settle`] places an airborne
//! dinosaur on its arc, tests for a collision on the positions so reached,
//! commits the requested screen and starts or ends the round with it.
//!
//! Two numbers come from the caller, because they take a logarithm and a
//! sine: the hardness for each tree that is scrolled, and the sine of the
//! phase of the jump.

use vstd::prelude::*;
use crate::clock::{ClockView, VirtualClock};
use crate::components::{Dino, GameState, JumpFrame, JumpOutcome, Tree};
use crate::dino::{
    animation_frame,
    arc_height,
    dino_jump_animation,
    dino_jump_system,
    dino_place,
    dino_pos_fix_system,
    jump_requested,
    placed_height,
    setup_dino,
};
use crate::game_control::{
    fired_trigger,
    game_info,
    next_score,
    screen_changes,
    InputSnapshot,
};
use crate::game_logic::{detector_runs, dino_touched_tree, first_touched};
use crate::geometry::Body;
use crate::resources::{GameConfig, GameStatus, SpeedControlInfo};
use crate::screens::{
    clock_on_entering,
    transition,
    GameScreen,
    ScreenChange,
    ScreenMachine,
    ScreenTrigger,
    ScreenView,
};
use crate::tree::{scroll_step, setup_tree, step_for, tree_move_animation, TrackView, TreeMove};

verus! {

/// What [`Game::advance`] found: the trigger that the input fired, whether
/// the dinosaur took off (the caller plays the jump sound), and what the
/// frame does to the dinosaur's height (for an airborne dinosaur the caller
/// takes the sine of the phase of its jump).
#[derive(Clone, Copy, PartialEq, Eq, Structural, Debug)]
pub struct Advance {
    /// The trigger fired by the input on the active screen.
    pub fired: Option<ScreenTrigger>,
    /// Whether the dinosaur took off.
    pub jump: JumpOutcome,
    /// What the frame does to the dinosaur's height.
    pub frame: JumpFrame,
}

/// What [`Game::settle`] found: the tree that the dinosaur touched, and the
/// change of screen that was committed.
#[derive(Clone, Copy, PartialEq, Eq, Structural, Debug)]
pub struct Settled {
    /// The first tree that the dinosaur overlaps, if the detector ran and
    /// found one.
    pub touched: Option<usize>,
    /// The change of screen committed at the end of the tick.
    pub change: Option<ScreenChange>,
}

/// Everything that goes into one tick: what the caller samples before it,
/// what it computes between the steps, and what the detector finds.
pub struct TickInput {
    /// Wall-clock nanoseconds since the last tick.
    pub real_delta: u64,
    /// The input of the tick.
    pub input: InputSnapshot,
    /// For each tree, the hardness at the time it is scrolled, in
    /// thousandths.
    pub hardness_milli: Seq<u16>,
    /// The sine of the phase of the jump, in thousandths.
    pub sine_milli: u16,
    /// The tree that the detector reports.
    pub touched: Option<usize>,
}

/// Whether `change` starts a round: the play screen is entered, and not
/// from a pause.
pub open spec fn starts_round(change: ScreenChange) -> bool {
    &&& change.entered == GameScreen::PlayScreen
    &&& change.exited != GameScreen::PlayScreen
    &&& change.exited != GameScreen::UnfocusedPauseScreen
    &&& change.exited != GameScreen::ManuallyPauseScreen
}

/// Whether `change` ends a round: the game-over screen or the exit screen
/// is entered.
pub open spec fn ends_round(change: ScreenChange) -> bool {
    change.entered == GameScreen::GameOverScreen || change.entered == GameScreen::ExitScreen
}

/// The whole state of the game.
pub struct Game {
    /// The virtual clock.
    pub time: VirtualClock,
    /// The active screen and the one requested.
    pub screens: ScreenMachine,
    /// Score, speed and window size.
    pub status: GameStatus,
    /// The difficulty curve.
    pub info: SpeedControlInfo,
    /// The dinosaur, while a round is on.
    pub dino: Option<Dino>,
    /// The trees, while a round is on.
    pub trees: Vec<Tree>,
    /// The tunable parameters.
    pub config: GameConfig,
}

/// Mathematical state of a [`Game`].
pub struct GameView {
    /// The virtual clock.
    pub time: ClockView,
    /// The active screen and the one requested.
    pub screens: ScreenView,
    /// Score, speed and window size.
    pub status: GameStatus,
    /// The difficulty curve.
    pub info: SpeedControlInfo,
    /// The dinosaur, while a round is on.
    pub dino: Option<Dino>,
    /// The trees, while a round is on.
    pub trees: Seq<Tree>,
    /// The tunable parameters.
    pub config: GameConfig,
}

impl GameView {
    /// Whether the state is consistent: the clock fits its counter and no
    /// jump has taken off in the future.
    pub open spec fn wf(self) -> bool {
        &&& self.time.elapsed <= u64::MAX
        &&& self.time.delta <= u64::MAX
        &&& self.dino matches Some(dino) ==> dino.took_off_by(self.time.elapsed as u64)
    }

    /// Whether a tick of `real_delta` nanoseconds fits the counters of the
    /// clock and of the score.
    pub open spec fn can_advance(self, real_delta: u64) -> bool {
        &&& self.time.paused || self.time.elapsed + real_delta <= u64::MAX
        &&& self.status.score < u64::MAX
    }

    /// Whether the systems of the play screen run in this tick.
    pub open spec fn playing(self) -> bool {
        self.screens.current == GameScreen::PlayScreen
    }

    /// Where the window puts a dinosaur `width` wide.
    pub open spec fn dino_x(self, width: u32) -> i64 {
        dino_place(
            self.status.window_width as nat,
            width as nat,
            self.config.dino_offset_permille as nat,
        ) as i64
    }

    /// The game after the clock has ticked and the arbiter has applied the
    /// input: a fired trigger pauses or resumes the clock at once and
    /// requests its screen.
    pub open spec fn controlled(self, real_delta: u64, input: InputSnapshot) -> GameView {
        let ticked = self.time.tick(real_delta as nat);
        match fired_trigger(self.screens.current, input) {
            Some(trigger) => {
                let next = transition(self.screens.current, trigger);
                GameView {
                    time: clock_on_entering(next, ticked),
                    screens: self.screens.request(next),
                    ..self
                }
            },
            None => GameView { time: ticked, ..self },
        }
    }

    /// The dinosaur after it has been put where the window has it and has
    /// taken off if asked and able to.
    pub open spec fn dino_after_request(self, dino: Dino, input: InputSnapshot) -> Dino {
        let stood = Dino { body: Body { x: self.dino_x(dino.body.width), ..dino.body }, ..dino };
        if jump_requested(input, self.time) {
            stood.jumped(self.time.elapsed as u64)
        } else {
            stood
        }
    }

    /// The dinosaur after the systems of one frame: put in place, taken off
    /// on request, and its jump followed while the clock runs.
    pub open spec fn dino_after_frame(self, dino: Dino, input: InputSnapshot) -> Dino {
        let requested = self.dino_after_request(dino, input);
        if self.time.paused {
            requested
        } else {
            requested.followed(self.time.elapsed as u64, self.config.jump_duration_ms)
        }
    }

    /// The game after the first step of a tick.
    ///
    /// Off the play screen only the clock and the arbiter run. On the play
    /// screen the frame is counted into the score while the clock runs, and
    /// the dinosaur, if there is one, goes through its systems.
    pub open spec fn advance(self, real_delta: u64, input: InputSnapshot) -> GameView {
        let controlled = self.controlled(real_delta, input);
        if controlled.playing() {
            GameView {
                status: GameStatus {
                    score: next_score(controlled.status.score, controlled.time.paused, None) as u64,
                    ..controlled.status
                },
                dino: match controlled.dino {
                    Some(dino) => Some(controlled.dino_after_frame(dino, input)),
                    None => None,
                },
                ..controlled
            }
        } else {
            controlled
        }
    }

    /// What the first step of a tick reports.
    pub open spec fn advance_report(self, real_delta: u64, input: InputSnapshot) -> Advance {
        let controlled = self.controlled(real_delta, input);
        let fired = fired_trigger(self.screens.current, input);
        match controlled.dino {
            Some(dino) if controlled.playing() => Advance {
                fired,
                jump: if jump_requested(input, controlled.time) && !dino.in_flight() {
                    JumpOutcome::Started
                } else {
                    JumpOutcome::Ignored
                },
                frame: animation_frame(
                    controlled.dino_after_request(dino, input),
                    controlled.time,
                    self.config.jump_duration_ms,
                ),
            },
            _ => Advance { fired, jump: JumpOutcome::Ignored, frame: JumpFrame::Unchanged },
        }
    }

    /// The step that tree `index` takes in this frame at the given
    /// hardness.
    pub open spec fn step(self, index: int, hardness_milli: u16) -> nat {
        step_for(
            self.time.delta,
            self.status.window_width as nat,
            self.trees[index].body.width as nat,
            hardness_milli as nat,
        )
    }

    /// The game after tree `index` has been scrolled at the given hardness.
    pub open spec fn scroll_tree(self, index: int, hardness_milli: u16) -> GameView {
        let before = TrackView::of(self.trees[index], self.status, self.info);
        let after = before.scroll(
            self.time.paused,
            self.status.window_width as nat,
            self.step(index, hardness_milli),
        );
        GameView {
            trees: self.trees.update(
                index,
                Tree { body: Body { x: after.x as i64, ..self.trees[index].body }, ..self.trees[index] },
            ),
            status: GameStatus { speed: after.difficulty.speed as u64, ..self.status },
            info: SpeedControlInfo {
                speed_increment: after.difficulty.speed_increment as u64,
                max_game_speed: after.difficulty.speed_ceiling as u64,
            },
            ..self
        }
    }

    /// The game after the first `hardness_milli.len()` trees have been
    /// scrolled in order, tree `i` at hardness `hardness_milli[i]`.
    pub open spec fn scrolled(self, hardness_milli: Seq<u16>) -> GameView
        decreases hardness_milli.len(),
    {
        if hardness_milli.len() == 0 || hardness_milli.len() > self.trees.len() {
            self
        } else {
            self.scrolled(hardness_milli.drop_last()).scroll_tree(
                hardness_milli.len() - 1,
                hardness_milli.last(),
            )
        }
    }

    /// Whether the dinosaur is on the arc of a jump in this tick: the play
    /// screen is active, the clock runs and a jump is in flight.
    pub open spec fn airborne(self) -> bool {
        &&& self.playing()
        &&& !self.time.paused
        &&& self.dino matches Some(dino) && dino.in_flight()
    }

    /// The game after an airborne dinosaur has been placed on its arc,
    /// where the sine of the phase is `sine_milli` thousandths.
    pub open spec fn placed(self, sine_milli: u16) -> GameView {
        match self.dino {
            Some(dino) if self.airborne() => GameView {
                dino: Some(
                    Dino {
                        body: Body {
                            y: placed_height(
                                dino.rest_y as int,
                                self.config.jump_height as nat,
                                sine_milli as nat,
                            ) as i64,
                            ..dino.body
                        },
                        ..dino
                    },
                ),
                ..self
            },
            _ => self,
        }
    }

    /// Whether `touched` is what the collision detector reports: the first
    /// tree that overlaps the dinosaur, provided that there is a dinosaur,
    /// the play screen is active and the clock runs; nothing otherwise.
    pub open spec fn detects(self, touched: Option<usize>) -> bool {
        match self.dino {
            Some(dino) if detector_runs(self.screens.current, self.time) => first_touched(
                dino.body,
                self.trees,
                touched,
            ),
            _ => touched is None,
        }
    }

    /// The game after the detector has reported `touched`: on a hit the
    /// clock is paused, the dinosaur is marked and the game-over screen is
    /// requested.
    pub open spec fn collided(self, touched: Option<usize>) -> GameView {
        match (self.dino, touched) {
            (Some(dino), Some(_)) => GameView {
                time: self.time.pause(),
                dino: Some(Dino { state: GameState::Over, ..dino }),
                screens: self.screens.request(GameScreen::GameOverScreen),
                ..self
            },
            _ => self,
        }
    }

    /// The dinosaur that a round starts with: on the ground, where the
    /// window puts it, playing.
    pub open spec fn fresh_dino(self) -> Dino {
        Dino {
            body: Body {
                x: self.dino_x(self.config.dino_width),
                y: self.config.standing(self.config.dino_height) as i64,
                width: self.config.dino_width,
                height: self.config.dino_height,
                scale_x: 1,
                scale_y: 1,
            },
            rest_y: self.config.standing(self.config.dino_height) as i64,
            in_air_start_time: None,
            state: GameState::Playing,
        }
    }

    /// The tree that a round starts with: on the ground, one tree width
    /// left of the distance of the window's width from the origin.
    pub open spec fn fresh_tree(self) -> Tree {
        Tree {
            body: Body {
                x: (self.status.window_width - self.config.tree_width) as i64,
                y: self.config.standing(self.config.tree_height) as i64,
                width: self.config.tree_width,
                height: self.config.tree_height,
                scale_x: 1,
                scale_y: 1,
            },
            succeeded: 0,
            score: 0,
        }
    }

    /// The game after the requested screen has been committed. A change
    /// that starts a round puts a fresh dinosaur and a fresh tree in place,
    /// sets the score to zero and the difficulty to the configured start;
    /// one that ends a round removes dinosaur and trees. Any other change,
    /// and none, leaves them.
    pub open spec fn committed(self) -> GameView {
        let screens = self.screens.apply();
        match self.screens.change() {
            Some(change) if starts_round(change) => GameView {
                screens,
                status: GameStatus { score: 0, speed: self.config.speed, ..self.status },
                info: SpeedControlInfo {
                    speed_increment: self.config.speed_increment,
                    max_game_speed: self.config.max_game_speed,
                },
                dino: Some(self.fresh_dino()),
                trees: seq![self.fresh_tree()],
                ..self
            },
            Some(change) if ends_round(change) => GameView {
                screens,
                dino: None,
                trees: Seq::empty(),
                ..self
            },
            _ => GameView { screens, ..self },
        }
    }

    /// The game after the last step of a tick in which the detector
    /// reported `touched`.
    pub open spec fn settle(self, sine_milli: u16, touched: Option<usize>) -> GameView {
        self.placed(sine_milli).collided(touched).committed()
    }

    /// The game after a whole tick: the first step, the trees scrolled in
    /// order, and the last step.
    pub open spec fn tick(self, frame: TickInput) -> GameView {
        self.advance(frame.real_delta, frame.input).scrolled(frame.hardness_milli).settle(
            frame.sine_milli,
            frame.touched,
        )
    }

    /// Whether `frame` is what a tick of this game can see: `touched` is
    /// what the detector reports on the positions reached.
    pub open spec fn admits(self, frame: TickInput) -> bool {
        self.advance(frame.real_delta, frame.input).scrolled(frame.hardness_milli).placed(
            frame.sine_milli,
        ).detects(frame.touched)
    }

    /// Whether the clock is as the active screen wants it: running on the
    /// play screen, frozen on the two pause screens and on the game-over
    /// screen.
    pub open spec fn clock_matches_screen(self) -> bool {
        match self.screens.current {
            GameScreen::PlayScreen => !self.time.paused,
            GameScreen::UnfocusedPauseScreen
            | GameScreen::ManuallyPauseScreen
            | GameScreen::GameOverScreen => self.time.paused,
            GameScreen::StartScreen | GameScreen::ExitScreen => true,
        }
    }

    /// Whether the dinosaur, if there is one, stands where the window puts
    /// it.
    pub open spec fn dino_in_place(self) -> bool {
        self.dino matches Some(dino) ==> dino.body.x == self.dino_x(dino.body.width)
    }
}

impl View for Game {
    type V = GameView;

    open spec fn view(&self) -> GameView {
        GameView {
            time: self.time@,
            screens: self.screens@,
            status: self.status,
            info: self.info,
            dino: self.dino,
            trees: self.trees@,
            config: self.config,
        }
    }
}

impl Game {
    /// A game on the start screen with a paused clock at time zero, no
    /// entities and the configured difficulty, in a window of the given
    /// size.
    pub fn init(config: GameConfig, window_width: u32, window_height: u32) -> (game: Game)
        ensures
            game@ == (GameView {
                time: ClockView { elapsed: 0, delta: 0, paused: true },
                screens: ScreenView { current: GameScreen::StartScreen, pending: None },
                status: GameStatus { score: 0, speed: config.speed, window_width, window_height },
                info: SpeedControlInfo {
                    speed_increment: config.speed_increment,
                    max_game_speed: config.max_game_speed,
                },
                dino: None,
                trees: Seq::empty(),
                config,
            }),
            game@.wf(),
    {
        let mut time = VirtualClock::new();
        time.pause();
        Game {
            time,
            screens: ScreenMachine::new(),
            status: GameStatus { score: 0, speed: config.speed, window_width, window_height },
            info: SpeedControlInfo {
                speed_increment: config.speed_increment,
                max_game_speed: config.max_game_speed,
            },
            dino: None,
            trees: Vec::new(),
            config,
        }
    }

    /// Reports whether the state is consistent: no jump has taken off in
    /// the future of the clock.
    pub fn is_consistent(&self) -> (ok: bool)
        ensures
            ok == self@.wf(),
    {
        proof {
            self.time.lemma_view_fits();
        }
        match self.dino {
            Some(dino) => match dino.in_air_start_time {
                Some(start) => start <= self.time.elapsed(),
                None => true,
            },
            None => true,
        }
    }

    /// Reports whether a tick of `real_delta` nanoseconds fits the
    /// counters, that is, whether [`Game::advance`] may be called with it.
    pub fn can_advance(&self, real_delta: u64) -> (ok: bool)
        ensures
            ok == self@.can_advance(real_delta),
    {
        self.time.fits(real_delta) && self.status.score < u64::MAX
    }

    /// First step of a tick: runs the clock and the arbiter, and on the
    /// play screen counts the frame into the score, keeps the dinosaur in
    /// its place in the window, lets it take off and follows its jump.
    pub fn advance(&mut self, real_delta: u64, input: &InputSnapshot) -> (report: Advance)
        requires
            old(self)@.wf(),
            old(self)@.can_advance(real_delta),
        ensures
            final(self)@ == old(self)@.advance(real_delta, *input),
            report == old(self)@.advance_report(real_delta, *input),
            final(self)@.wf(),
    {
        self.time.tick(real_delta);
        let playing = self.screens.current() == GameScreen::PlayScreen;
        let fired = screen_changes(&mut self.time, input, &mut self.screens);
        proof {
            self.time.lemma_view_fits();
        }
        let mut jump = JumpOutcome::Ignored;
        let mut frame = JumpFrame::Unchanged;
        if playing {
            game_info(&mut self.status, &self.time, None);
            match self.dino {
                Some(mut dino) => {
                    dino_pos_fix_system(
                        &mut dino,
                        self.status.window_width,
                        self.config.dino_offset_permille,
                    );
                    jump = dino_jump_system(&mut dino, input, &self.time);
                    frame = dino_jump_animation(&self.time, &mut dino, self.config.jump_duration_ms);
                    self.dino = Some(dino);
                },
                None => {},
            }
        }
        Advance { fired, jump, frame }
    }

    /// Scrolls tree `index` for this frame, as [`tree_move_animation`]
    /// describes, by the step that [`scroll_step`] gives for the clock's
    /// delta. The caller takes the hardness, the binary logarithm of the
    /// speed in thousandths, from the speed that the status holds at the
    /// time of the call.
    pub fn scroll_tree(&mut self, index: usize, hardness_milli: u16) -> (moved: TreeMove)
        requires
            index < old(self).trees.len(),
        ensures
            moved == TrackView::of(
                old(self).trees[index as int],
                old(self).status,
                old(self).info,
            ).kind(old(self).time@.paused, old(self).status.window_width as nat),
            final(self)@ == old(self)@.scroll_tree(index as int, hardness_milli),
            old(self)@.wf() ==> final(self)@.wf(),
    {
        let mut tree = self.trees[index];
        let step = scroll_step(
            self.time.delta(),
            self.status.window_width,
            tree.body.width,
            hardness_milli,
        );
        let moved = tree_move_animation(&mut tree, &self.time, &mut self.status, &mut self.info, step);
        self.trees.set(index, tree);
        moved
    }

    /// Last step of a tick: places an airborne dinosaur on its arc, tests
    /// it against the trees, commits the requested screen and starts or
    /// ends the round with it. The caller takes `sine_milli`, the sine of
    /// the phase of the jump in thousandths, from the age that
    /// [`Game::advance`] reported, and runs the hooks of the change
    /// reported here.
    pub fn settle(&mut self, sine_milli: u16) -> (report: Settled)
        requires
            old(self)@.wf(),
        ensures
            old(self)@.placed(sine_milli).detects(report.touched),
            report.change == old(self)@.placed(sine_milli).collided(report.touched).screens.change(),
            final(self)@ == old(self)@.settle(sine_milli, report.touched),
            final(self)@.wf(),
    {
        proof {
            self.time.lemma_view_fits();
        }
        let mut touched: Option<usize> = None;
        match self.dino {
            Some(mut dino) => {
                if self.screens.current() == GameScreen::PlayScreen && !self.time.is_paused()
                    && dino.in_air_start_time.is_some() {
                    dino.set_height(arc_height(dino.rest_y, self.config.jump_height, sine_milli));
                }
                touched = dino_touched_tree(&mut dino, &self.trees, &mut self.time, &mut self.screens);
                self.dino = Some(dino);
            },
            None => {},
        }
        proof {
            self.time.lemma_view_fits();
        }
        let change = self.screens.apply_pending();
        match change {
            Some(change) => {
                if change.entered == GameScreen::PlayScreen && change.exited
                    != GameScreen::PlayScreen && change.exited != GameScreen::UnfocusedPauseScreen
                    && change.exited != GameScreen::ManuallyPauseScreen {
                    self.status.score = 0;
                    self.status.speed = self.config.speed;
                    self.info.speed_increment = self.config.speed_increment;
                    self.info.max_game_speed = self.config.max_game_speed;
                    let mut dino = setup_dino(&self.config, self.status.window_width);
                    dino.start();
                    self.dino = Some(dino);
                    let mut trees: Vec<Tree> = Vec::new();
                    trees.push(setup_tree(&self.config, self.status.window_width));
                    self.trees = trees;
                } else if change.entered == GameScreen::GameOverScreen || change.entered
                    == GameScreen::ExitScreen {
                    self.dino = None;
                    self.trees = Vec::new();
                }
            },
            None => {},
        }
        Settled { touched, change }
    }
}

/// Scrolling trees touches neither the clock nor the screens nor the
/// dinosaur nor the score nor the parameters, and keeps the number of
/// trees.
pub proof fn lemma_scrolling_moves_trees_only(game: GameView, hardness_milli: Seq<u16>)
    ensures
        game.scrolled(hardness_milli).time == game.time,
        game.scrolled(hardness_milli).screens == game.screens,
        game.scrolled(hardness_milli).dino == game.dino,
        game.scrolled(hardness_milli).config == game.config,
        game.scrolled(hardness_milli).status.score == game.status.score,
        game.scrolled(hardness_milli).status.window_width == game.status.window_width,
        game.scrolled(hardness_milli).status.window_height == game.status.window_height,
        game.scrolled(hardness_milli).trees.len() == game.trees.len(),
    decreases hardness_milli.len(),
{
    if hardness_milli.len() != 0 && hardness_milli.len() <= game.trees.len() {
        lemma_scrolling_moves_trees_only(game, hardness_milli.drop_last());
    }
}

/// While the clock is paused, scrolling any number of trees at any
/// hardness leaves the whole game as it is.
pub proof fn lemma_paused_scrolling_changes_nothing(game: GameView, hardness_milli: Seq<u16>)
    requires
        game.time.paused,
    ensures
        game.scrolled(hardness_milli) == game,
    decreases hardness_milli.len(),
{
    if hardness_milli.len() != 0 && hardness_milli.len() <= game.trees.len() {
        lemma_paused_scrolling_changes_nothing(game, hardness_milli.drop_last());
        let index = hardness_milli.len() - 1;
        assert(game.scroll_tree(index, hardness_milli.last()).trees =~= game.trees);
    }
}

/// A tick whose clock is paused once the arbiter has run freezes the
/// round: it moves no virtual time, counts nothing into the score, leaves
/// the difficulty, the dinosaur and the trees as they are, and detects no
/// collision.
pub proof fn lemma_paused_tick_freezes_round(game: GameView, frame: TickInput)
    requires
        game.screens.pending is None,
        game.dino_in_place(),
        game.controlled(frame.real_delta, frame.input).time.paused,
        game.admits(frame),
    ensures
        frame.touched is None,
        game.tick(frame).time.paused,
        game.tick(frame).time.elapsed == game.controlled(frame.real_delta, frame.input).time.elapsed,
        game.time.paused ==> game.tick(frame).time.elapsed == game.time.elapsed,
        game.tick(frame).status == game.status,
        game.tick(frame).info == game.info,
        game.tick(frame).dino == game.dino,
        game.tick(frame).trees == game.trees,
{
    let advanced = game.advance(frame.real_delta, frame.input);
    lemma_scrolling_moves_trees_only(advanced, frame.hardness_milli);
    lemma_paused_scrolling_changes_nothing(advanced, frame.hardness_milli);
}

/// The screen after a tick that began with nothing requested.
///
/// A collision leads to the game-over screen; otherwise the trigger that
/// the input fired leads where the transition table says; otherwise the
/// screen stays. A collision and a trigger never fall into the same tick.
pub proof fn lemma_tick_follows_table(game: GameView, frame: TickInput)
    requires
        game.screens.pending is None,
        game.admits(frame),
    ensures
        game.tick(frame).screens.pending is None,
        game.tick(frame).screens.current == (match (
            frame.touched,
            fired_trigger(game.screens.current, frame.input),
        ) {
            (Some(_), _) => transition(game.screens.current, ScreenTrigger::Collision),
            (None, Some(trigger)) => transition(game.screens.current, trigger),
            (None, None) => game.screens.current,
        }),
        frame.touched is Some ==> fired_trigger(game.screens.current, frame.input) is None
            && game.screens.current == GameScreen::PlayScreen,
{
    let advanced = game.advance(frame.real_delta, frame.input);
    lemma_scrolling_moves_trees_only(advanced, frame.hardness_milli);
}

/// Ticks keep the clock as the active screen wants it: if it runs on the
/// play screen and is frozen on the pause screens and the game-over screen
/// before a tick that began with nothing requested, then so it is after.
pub proof fn lemma_tick_keeps_clock_with_screen(game: GameView, frame: TickInput)
    requires
        game.screens.pending is None,
        game.clock_matches_screen(),
        game.admits(frame),
    ensures
        game.tick(frame).clock_matches_screen(),
{
    lemma_tick_follows_table(game, frame);
    let advanced = game.advance(frame.real_delta, frame.input);
    lemma_scrolling_moves_trees_only(advanced, frame.hardness_milli);
}

/// A round ends only through a collision on the play screen: a tick that
/// began with nothing requested and off the game-over screen reaches that
/// screen only if the detector reported a tree, and then the clock is
/// paused and dinosaur and trees are gone.
pub proof fn lemma_round_ends_only_by_collision(game: GameView, frame: TickInput)
    requires
        game.screens.pending is None,
        game.screens.current != GameScreen::GameOverScreen,
        game.admits(frame),
        game.tick(frame).screens.current == GameScreen::GameOverScreen,
    ensures
        game.screens.current == GameScreen::PlayScreen,
        frame.touched is Some,
        game.dino is Some,
        game.tick(frame).time.paused,
        game.tick(frame).dino is None,
        game.tick(frame).trees.len() == 0,
{
    lemma_tick_follows_table(game, frame);
    let advanced = game.advance(frame.real_delta, frame.input);
    lemma_scrolling_moves_trees_only(advanced, frame.hardness_milli);
}

/// A tick that takes the game from the start screen to the play screen
/// starts a round: the clock runs, the score is zero, the difficulty is the
/// configured one, and one dinosaur and one tree stand on the ground where
/// the window puts them, the dinosaur not in the air.
pub proof fn lemma_round_starts_fresh(game: GameView, frame: TickInput)
    requires
        game.screens.pending is None,
        game.screens.current == GameScreen::StartScreen,
        game.admits(frame),
        frame.input.activated(),
    ensures
        game.tick(frame).screens.current == GameScreen::PlayScreen,
        !game.tick(frame).time.paused,
        game.tick(frame).status.score == 0,
        game.tick(frame).status.speed == game.config.speed,
        game.tick(frame).info.speed_increment == game.config.speed_increment,
        game.tick(frame).info.max_game_speed == game.config.max_game_speed,
        game.tick(frame).dino == Some(game.fresh_dino()),
        game.tick(frame).trees == seq![game.fresh_tree()],
        game.tick(frame).dino_in_place(),
{
    let advanced = game.advance(frame.real_delta, frame.input);
    lemma_scrolling_moves_trees_only(advanced, frame.hardness_milli);
}

/// A jump in a tick on a running play screen: at take-off and at full age,
/// where the sine is zero, the tick leaves the dinosaur at its rest height,
/// and at the peak, where the sine is one, higher by the jump height.
pub proof fn lemma_tick_places_dino_on_arc(game: GameView, sine_milli: u16)
    requires
        game.airborne(),
        sine_milli <= 1000,
        game.dino->0.rest_y + game.config.jump_height <= i64::MAX,
    ensures
        game.placed(sine_milli).dino matches Some(dino) && {
            &&& dino.body.y == dino.rest_y + game.config.jump_height * sine_milli / 1000
            &&& dino.rest_y <= dino.body.y <= dino.rest_y + game.config.jump_height
            &&& sine_milli == 0 ==> dino.body.y == dino.rest_y
            &&& sine_milli == 1000 ==> dino.body.y == dino.rest_y + game.config.jump_height
        },
{
    let dino = game.dino->0;
    crate::dino::lemma_arc_marks(
        dino.rest_y as int,
        game.config.jump_height as nat,
        sine_milli as nat,
    );
}

} // verus!
