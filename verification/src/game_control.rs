//! The input and focus arbiter: turns one tick's input into a pause or a
//! resume of the clock and a request for another screen. Also the score
//! counter.

use vstd::prelude::*;
use crate::clock::VirtualClock;
use crate::components::{Dino, GameState};
use crate::resources::GameStatus;
use crate::screens::{
    clock_on_entering,
    listed,
    next_screen,
    transition,
    GameScreen,
    ScreenMachine,
    ScreenTrigger,
};

verus! {

/// What the window and the input devices report for one tick. The key,
/// pointer and touch flags are edge-triggered: each is set only on the tick
/// on which the press or release happened, not while a key is held.
#[derive(Clone, Copy, PartialEq, Eq, Structural, Debug)]
pub struct InputSnapshot {
    /// Whether the window has the focus.
    pub focused: bool,
    /// A jump key has just been pressed.
    pub jump_key_pressed: bool,
    /// The primary pointer button has just been pressed.
    pub pointer_pressed: bool,
    /// A touch has just begun.
    pub touch_began: bool,
    /// The pause key has just been released.
    pub pause_key_released: bool,
    /// An overlay has taken the pointer for itself this tick.
    pub pointer_captured: bool,
}

impl InputSnapshot {
    /// Whether the player asks to start, resume or jump: by key, or by
    /// click or touch unless an overlay has captured the pointer. The key
    /// is never suppressed.
    pub open spec fn activated(self) -> bool {
        self.jump_key_pressed || ((self.pointer_pressed || self.touch_began)
            && !self.pointer_captured)
    }

    /// Whether nothing happened this tick: focus held, no edge seen.
    pub open spec fn quiet(self) -> bool {
        self.focused && !self.activated() && !self.pause_key_released
    }

    /// Reports whether the player asks to start, resume or jump.
    pub fn is_activated(&self) -> (activated: bool)
        ensures
            activated == self.activated(),
    {
        self.jump_key_pressed || ((self.pointer_pressed || self.touch_began)
            && !self.pointer_captured)
    }
}

/// The trigger that `input` fires on `screen`, if any.
///
/// Activation starts a round from the start screen and leaves the game-over
/// screen whether or not the window has the focus; it resumes a round that
/// lost the focus only once the focus is back. On the play screen a lost
/// focus pauses, and with the focus held the pause key does. The pause key
/// resumes a round that it paused.
pub open spec fn fired_trigger(screen: GameScreen, input: InputSnapshot) -> Option<ScreenTrigger> {
    match screen {
        GameScreen::StartScreen | GameScreen::GameOverScreen => if input.activated() {
            Some(ScreenTrigger::Activate)
        } else {
            None
        },
        GameScreen::PlayScreen => if !input.focused {
            Some(ScreenTrigger::FocusLost)
        } else if input.pause_key_released {
            Some(ScreenTrigger::PauseToggle)
        } else {
            None
        },
        GameScreen::UnfocusedPauseScreen => if input.focused && input.activated() {
            Some(ScreenTrigger::Activate)
        } else {
            None
        },
        GameScreen::ManuallyPauseScreen => if input.focused && input.pause_key_released {
            Some(ScreenTrigger::PauseToggle)
        } else {
            None
        },
        GameScreen::ExitScreen => None,
    }
}

/// Finds the trigger that `input` fires on `screen`.
pub fn detect_trigger(screen: GameScreen, input: &InputSnapshot) -> (fired: Option<ScreenTrigger>)
    ensures
        fired == fired_trigger(screen, *input),
{
    let activated = input.is_activated();
    match screen {
        GameScreen::StartScreen | GameScreen::GameOverScreen => {
            if activated {
                Some(ScreenTrigger::Activate)
            } else {
                None
            }
        },
        GameScreen::PlayScreen => {
            if !input.focused {
                Some(ScreenTrigger::FocusLost)
            } else if input.pause_key_released {
                Some(ScreenTrigger::PauseToggle)
            } else {
                None
            }
        },
        GameScreen::UnfocusedPauseScreen => {
            if input.focused && activated {
                Some(ScreenTrigger::Activate)
            } else {
                None
            }
        },
        GameScreen::ManuallyPauseScreen => {
            if input.focused && input.pause_key_released {
                Some(ScreenTrigger::PauseToggle)
            } else {
                None
            }
        },
        GameScreen::ExitScreen => None,
    }
}

/// Sets the clock as entering `screen` asks: play runs it, the pause
/// screens and the game-over screen freeze it.
pub fn set_clock_for(screen: GameScreen, time: &mut VirtualClock)
    ensures
        final(time)@ == clock_on_entering(screen, old(time)@),
{
    match screen {
        GameScreen::PlayScreen => time.unpause(),
        GameScreen::UnfocusedPauseScreen
        | GameScreen::ManuallyPauseScreen
        | GameScreen::GameOverScreen => time.pause(),
        GameScreen::StartScreen | GameScreen::ExitScreen => {},
    }
}

/// Applies one tick's input to the clock and the screen machine.
///
/// If the input fires a trigger on the active screen, the screen that the
/// transition table gives for it is requested and the clock is paused or
/// resumed at once, as that screen asks. The active screen itself changes
/// only when the request is committed. Without a trigger nothing changes.
pub fn screen_changes(
    time: &mut VirtualClock,
    input: &InputSnapshot,
    screens: &mut ScreenMachine,
) -> (fired: Option<ScreenTrigger>)
    ensures
        fired == fired_trigger(old(screens)@.current, *input),
        match fired {
            Some(trigger) => {
                let next = transition(old(screens)@.current, trigger);
                &&& final(screens)@ == old(screens)@.request(next)
                &&& final(time)@ == clock_on_entering(next, old(time)@)
            },
            None => final(screens)@ == old(screens)@ && final(time)@ == old(time)@,
        },
{
    let current = screens.current();
    let fired = detect_trigger(current, input);
    match fired {
        Some(trigger) => {
            let next = next_screen(current, trigger);
            set_clock_for(next, time);
            screens.request_transition(next);
        },
        None => {},
    }
    fired
}

/// What [`user_control`] does to the clock.
#[derive(Clone, Copy, PartialEq, Eq, Structural, Debug)]
pub enum ClockControl {
    /// The player activated while the clock was paused and the window had
    /// the focus: the round runs.
    Resume,
    /// The window lost the focus while the clock ran: the round is frozen.
    Pause,
    /// Nothing to do.
    Keep,
}

/// What `input` asks of a clock that is paused or not.
pub open spec fn clock_control(paused: bool, input: InputSnapshot) -> ClockControl {
    if input.focused && paused && input.activated() {
        ClockControl::Resume
    } else if !input.focused && !paused {
        ClockControl::Pause
    } else {
        ClockControl::Keep
    }
}

/// Starts, resumes and pauses a game that has no screens of its own.
///
/// An activation while the clock is paused and the window has the focus
/// marks the dinosaur as playing and lets the clock run. A window without
/// the focus pauses a running clock. Anything else changes nothing.
pub fn user_control(time: &mut VirtualClock, dino: &mut Dino, input: &InputSnapshot) -> (control:
    ClockControl)
    ensures
        control == clock_control(old(time)@.paused, *input),
        final(time)@ == (match control {
            ClockControl::Resume => old(time)@.unpause(),
            ClockControl::Pause => old(time)@.pause(),
            ClockControl::Keep => old(time)@,
        }),
        *final(dino) == (if control == ClockControl::Resume {
            Dino { state: GameState::Playing, ..*old(dino) }
        } else {
            *old(dino)
        }),
{
    let paused = time.is_paused();
    if input.focused && paused && input.is_activated() {
        dino.start();
        time.unpause();
        ClockControl::Resume
    } else if !input.focused && !paused {
        time.pause();
        ClockControl::Pause
    } else {
        ClockControl::Keep
    }
}

/// The score after one more frame: it starts over once the dinosaur has
/// touched a tree, grows by one while the clock runs, and stays as it is
/// while the clock is paused.
pub open spec fn next_score(score: u64, paused: bool, dino: Option<Dino>) -> int {
    if dino matches Some(dino) && dino.state == GameState::Over {
        0
    } else if paused {
        score as int
    } else {
        score + 1
    }
}

/// Counts the frame into the score and returns the number to show, an
/// eighth of the frames counted.
///
/// The score grows by one on every frame on which the clock runs and
/// starts over once the dinosaur, if there is one, has touched a tree.
pub fn game_info(status: &mut GameStatus, time: &VirtualClock, dino: Option<&Dino>) -> (shown: u64)
    requires
        time@.paused || old(status).score < u64::MAX,
    ensures
        final(status).score == next_score(
            old(status).score,
            time@.paused,
            match dino {
                Some(dino) => Some(*dino),
                None => None,
            },
        ),
        *final(status) == (GameStatus { score: final(status).score, ..*old(status) }),
        shown == final(status).shown(),
{
    if !time.is_paused() {
        status.score = status.score + 1;
    }
    match dino {
        Some(dino) => {
            if dino.is_over() {
                status.score = 0;
            }
        },
        None => {},
    }
    status.shown_score()
}

/// Takes the size of the window over into the status.
pub fn update_window_size(width: u32, height: u32, game_status: &mut GameStatus)
    ensures
        *final(game_status) == (GameStatus {
            window_width: width,
            window_height: height,
            ..*old(game_status)
        }),
{
    game_status.window_width = width;
    game_status.window_height = height;
}

/// Whatever the input, the arbiter only ever fires a trigger that the
/// transition table lists for the active screen.
pub proof fn lemma_fired_trigger_is_listed(screen: GameScreen, input: InputSnapshot)
    ensures
        fired_trigger(screen, input) matches Some(trigger) ==> listed(screen, trigger),
        !(fired_trigger(screen, input) matches Some(ScreenTrigger::Collision)),
{
}

/// A tick without an edge and with the focus held fires nothing: a key that
/// is merely held down causes no further transition.
pub proof fn lemma_quiet_input_fires_nothing(screen: GameScreen, input: InputSnapshot)
    requires
        input.quiet(),
    ensures
        fired_trigger(screen, input) is None,
{
}

/// A captured pointer suppresses click and touch but never the key.
pub proof fn lemma_pointer_capture_spares_keys(input: InputSnapshot)
    requires
        input.pointer_captured,
    ensures
        input.activated() == input.jump_key_pressed,
{
}

} // verus!
