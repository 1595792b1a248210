//! The screen state machine: which screen the game shows, which trigger
//! moves it to which other screen, and the slot that holds a requested
//! change until the end of the tick.

use vstd::prelude::*;
use crate::clock::ClockView;

verus! {

/// The screen the game is on. Exactly one is active at a time.
#[derive(Clone, Copy, PartialEq, Eq, Structural, Debug, Hash)]
pub enum GameScreen {
    /// Waiting for the player to start a round.
    StartScreen,
    /// A round is running.
    PlayScreen,
    /// The round is frozen because the window lost focus.
    UnfocusedPauseScreen,
    /// The round is frozen because the player asked for it.
    ManuallyPauseScreen,
    /// The player ran into an obstacle.
    GameOverScreen,
    /// The application is shutting down. Nothing leaves this screen.
    ExitScreen,
}

impl Default for GameScreen {
    fn default() -> (screen: GameScreen)
        ensures
            screen == GameScreen::StartScreen,
    {
        GameScreen::StartScreen
    }
}

/// What can move the game from one screen to another.
#[derive(Clone, Copy, PartialEq, Eq, Structural, Debug, Hash)]
pub enum ScreenTrigger {
    /// The jump key, a click or a touch.
    Activate,
    /// The window lost focus.
    FocusLost,
    /// The pause key was released.
    PauseToggle,
    /// The player overlaps an obstacle.
    Collision,
}

/// Whether the transition table has a row for `trigger` on `screen`.
pub open spec fn listed(screen: GameScreen, trigger: ScreenTrigger) -> bool {
    ||| screen == GameScreen::StartScreen && trigger == ScreenTrigger::Activate
    ||| screen == GameScreen::PlayScreen && trigger == ScreenTrigger::FocusLost
    ||| screen == GameScreen::UnfocusedPauseScreen && trigger == ScreenTrigger::Activate
    ||| screen == GameScreen::PlayScreen && trigger == ScreenTrigger::PauseToggle
    ||| screen == GameScreen::ManuallyPauseScreen && trigger == ScreenTrigger::PauseToggle
    ||| screen == GameScreen::PlayScreen && trigger == ScreenTrigger::Collision
    ||| screen == GameScreen::GameOverScreen && trigger == ScreenTrigger::Activate
}

/// The transition table: the screen that `trigger` leads to from `screen`.
pub open spec fn transition(screen: GameScreen, trigger: ScreenTrigger) -> GameScreen {
    match (screen, trigger) {
        (GameScreen::StartScreen, ScreenTrigger::Activate) => GameScreen::PlayScreen,
        (GameScreen::PlayScreen, ScreenTrigger::FocusLost) => GameScreen::UnfocusedPauseScreen,
        (GameScreen::UnfocusedPauseScreen, ScreenTrigger::Activate) => GameScreen::PlayScreen,
        (GameScreen::PlayScreen, ScreenTrigger::PauseToggle) => GameScreen::ManuallyPauseScreen,
        (GameScreen::ManuallyPauseScreen, ScreenTrigger::PauseToggle) => GameScreen::PlayScreen,
        (GameScreen::PlayScreen, ScreenTrigger::Collision) => GameScreen::GameOverScreen,
        (GameScreen::GameOverScreen, ScreenTrigger::Activate) => GameScreen::StartScreen,
        _ => screen,
    }
}

/// What entering `screen` does to the clock: play runs it, the two pause
/// screens and the game-over screen freeze it, the others leave it alone.
pub open spec fn clock_on_entering(screen: GameScreen, clock: ClockView) -> ClockView {
    match screen {
        GameScreen::PlayScreen => clock.unpause(),
        GameScreen::UnfocusedPauseScreen
        | GameScreen::ManuallyPauseScreen
        | GameScreen::GameOverScreen => clock.pause(),
        GameScreen::StartScreen | GameScreen::ExitScreen => clock,
    }
}

/// Looks `trigger` up in the transition table.
pub fn next_screen(screen: GameScreen, trigger: ScreenTrigger) -> (next: GameScreen)
    ensures
        next == transition(screen, trigger),
        next != screen <==> listed(screen, trigger),
{
    match screen {
        GameScreen::StartScreen => match trigger {
            ScreenTrigger::Activate => GameScreen::PlayScreen,
            _ => screen,
        },
        GameScreen::PlayScreen => match trigger {
            ScreenTrigger::FocusLost => GameScreen::UnfocusedPauseScreen,
            ScreenTrigger::PauseToggle => GameScreen::ManuallyPauseScreen,
            ScreenTrigger::Collision => GameScreen::GameOverScreen,
            ScreenTrigger::Activate => screen,
        },
        GameScreen::UnfocusedPauseScreen => match trigger {
            ScreenTrigger::Activate => GameScreen::PlayScreen,
            _ => screen,
        },
        GameScreen::ManuallyPauseScreen => match trigger {
            ScreenTrigger::PauseToggle => GameScreen::PlayScreen,
            _ => screen,
        },
        GameScreen::GameOverScreen => match trigger {
            ScreenTrigger::Activate => GameScreen::StartScreen,
            _ => screen,
        },
        GameScreen::ExitScreen => screen,
    }
}

/// A committed change of screen: the exit hooks of `exited` run first, then
/// the enter hooks of `entered`.
#[derive(Clone, Copy, PartialEq, Eq, Structural, Debug)]
pub struct ScreenChange {
    /// The screen that was left.
    pub exited: GameScreen,
    /// The screen that was entered.
    pub entered: GameScreen,
}

/// Mathematical state of a [`ScreenMachine`].
pub struct ScreenView {
    /// The active screen.
    pub current: GameScreen,
    /// The screen asked for during this tick, if any.
    pub pending: Option<GameScreen>,
}

impl ScreenView {
    /// The machine after a request for `next`. A later request replaces an
    /// earlier one of the same tick.
    pub open spec fn request(self, next: GameScreen) -> ScreenView {
        ScreenView { current: self.current, pending: Some(next) }
    }

    /// The change that committing the pending request makes, if any.
    /// Nothing leaves the exit screen.
    pub open spec fn change(self) -> Option<ScreenChange> {
        match self.pending {
            Some(next) if self.current != GameScreen::ExitScreen => Some(
                ScreenChange { exited: self.current, entered: next },
            ),
            _ => None,
        }
    }

    /// The machine after the pending request has been committed.
    pub open spec fn apply(self) -> ScreenView {
        match self.change() {
            Some(change) => ScreenView { current: change.entered, pending: None },
            None => ScreenView { current: self.current, pending: None },
        }
    }
}

/// The active screen and the slot for the screen requested next.
///
/// Systems only request a change; the change is committed once per tick, so
/// that no system sees a half-applied state.
pub struct ScreenMachine {
    current: GameScreen,
    pending: Option<GameScreen>,
}

impl View for ScreenMachine {
    type V = ScreenView;

    closed spec fn view(&self) -> ScreenView {
        ScreenView { current: self.current, pending: self.pending }
    }
}

impl ScreenMachine {
    /// A machine on the start screen with nothing requested.
    pub fn new() -> (machine: ScreenMachine)
        ensures
            machine@ == (ScreenView { current: GameScreen::StartScreen, pending: None }),
    {
        ScreenMachine { current: GameScreen::StartScreen, pending: None }
    }

    /// The active screen.
    pub fn current(&self) -> (screen: GameScreen)
        ensures
            screen == self@.current,
    {
        self.current
    }

    /// The screen requested during this tick, if any.
    pub fn pending(&self) -> (next: Option<GameScreen>)
        ensures
            next == self@.pending,
    {
        self.pending
    }

    /// Queues a change to `next`. The active screen stays as it is until
    /// [`ScreenMachine::apply_pending`] runs.
    pub fn request_transition(&mut self, next: GameScreen)
        ensures
            final(self)@ == old(self)@.request(next),
    {
        self.pending = Some(next);
    }

    /// Commits the queued change, if there is one, and reports it so that the
    /// caller can run the exit hooks of the old screen and then the enter
    /// hooks of the new one.
    pub fn apply_pending(&mut self) -> (change: Option<ScreenChange>)
        ensures
            change == old(self)@.change(),
            final(self)@ == old(self)@.apply(),
    {
        let requested = self.pending;
        self.pending = None;
        match requested {
            Some(next) => {
                if self.current == GameScreen::ExitScreen {
                    None
                } else {
                    let exited = self.current;
                    self.current = next;
                    Some(ScreenChange { exited, entered: next })
                }
            },
            None => None,
        }
    }
}

/// A trigger that the table does not list for a screen leaves that screen
/// as it is, and a listed one leads to the screen in its row.
pub proof fn lemma_unlisted_trigger_keeps_screen(screen: GameScreen, trigger: ScreenTrigger)
    ensures
        !listed(screen, trigger) ==> transition(screen, trigger) == screen,
        listed(screen, trigger) ==> transition(screen, trigger) != screen,
{
}

/// No trigger leaves the exit screen, and no row of the table leads to it.
pub proof fn lemma_exit_is_terminal(screen: GameScreen, trigger: ScreenTrigger)
    ensures
        transition(GameScreen::ExitScreen, trigger) == GameScreen::ExitScreen,
        screen != GameScreen::ExitScreen ==> transition(screen, trigger) != GameScreen::ExitScreen,
{
}

/// The game-over screen is entered from the play screen alone, and by a
/// collision alone: a paused round cannot end.
pub proof fn lemma_game_over_only_from_play(screen: GameScreen, trigger: ScreenTrigger)
    requires
        screen != GameScreen::GameOverScreen,
        transition(screen, trigger) == GameScreen::GameOverScreen,
    ensures
        screen == GameScreen::PlayScreen,
        trigger == ScreenTrigger::Collision,
{
}

/// Committing leaves nothing pending, so a second commit in the same tick
/// changes nothing and reports nothing.
pub proof fn lemma_apply_settles(machine: ScreenView)
    ensures
        machine.apply().pending is None,
        machine.apply().change() is None,
        machine.apply().apply() == machine.apply(),
{
}

/// While the machine is on the exit screen, no request moves it.
pub proof fn lemma_exit_absorbs_requests(machine: ScreenView, next: GameScreen)
    requires
        machine.current == GameScreen::ExitScreen,
    ensures
        machine.request(next).apply().current == GameScreen::ExitScreen,
{
}

} // verus!
