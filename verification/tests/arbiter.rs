use dinosaur::clock::VirtualClock;
use dinosaur::components::Dino;
use dinosaur::debug::{toggle_debug_window, DebugWindowState};
use dinosaur::components::{GameState, Tree};
use dinosaur::game_control::{
    detect_trigger, game_info, screen_changes, set_clock_for, update_window_size, user_control,
    ClockControl, InputSnapshot,
};
use dinosaur::game_logic::reset_game;
use dinosaur::geometry::Body;
use dinosaur::resources::GameStatus;
use dinosaur::screens::{GameScreen, ScreenMachine, ScreenTrigger};

const SCREENS: [GameScreen; 6] = [
    GameScreen::StartScreen,
    GameScreen::PlayScreen,
    GameScreen::UnfocusedPauseScreen,
    GameScreen::ManuallyPauseScreen,
    GameScreen::GameOverScreen,
    GameScreen::ExitScreen,
];

fn quiet() -> InputSnapshot {
    InputSnapshot {
        focused: true,
        jump_key_pressed: false,
        pointer_pressed: false,
        touch_began: false,
        pause_key_released: false,
        pointer_captured: false,
    }
}

fn on_screen(screen: GameScreen) -> ScreenMachine {
    let mut screens = ScreenMachine::new();
    screens.request_transition(screen);
    screens.apply_pending();
    screens
}

fn running() -> VirtualClock {
    let mut clock = VirtualClock::new();
    clock.tick(1_000);
    clock
}

fn paused() -> VirtualClock {
    let mut clock = running();
    clock.pause();
    clock
}

#[test]
fn activation_by_key_click_or_touch() {
    assert!(!quiet().is_activated());
    assert!(InputSnapshot { jump_key_pressed: true, ..quiet() }.is_activated());
    assert!(InputSnapshot { pointer_pressed: true, ..quiet() }.is_activated());
    assert!(InputSnapshot { touch_began: true, ..quiet() }.is_activated());
    assert!(!InputSnapshot { pause_key_released: true, ..quiet() }.is_activated());
    assert!(!InputSnapshot { focused: false, ..quiet() }.is_activated());
}

#[test]
fn pointer_capture_suppresses_click_and_touch_only() {
    let captured = InputSnapshot { pointer_captured: true, ..quiet() };
    assert!(!InputSnapshot { pointer_pressed: true, ..captured }.is_activated());
    assert!(!InputSnapshot { touch_began: true, ..captured }.is_activated());
    assert!(!InputSnapshot { pointer_pressed: true, touch_began: true, ..captured }.is_activated());
    assert!(InputSnapshot { jump_key_pressed: true, ..captured }.is_activated());
    assert!(InputSnapshot { jump_key_pressed: true, pointer_pressed: true, ..captured }
        .is_activated());
}

#[test]
fn quiet_input_fires_nothing_on_any_screen() {
    for screen in SCREENS {
        assert_eq!(detect_trigger(screen, &quiet()), None);
        let mut clock = running();
        let mut screens = on_screen(screen);
        for _ in 0..5 {
            assert_eq!(screen_changes(&mut clock, &quiet(), &mut screens), None);
        }
        assert_eq!(screens.current(), screen);
        assert_eq!(screens.pending(), None);
        assert!(!clock.is_paused());
        assert_eq!(clock.delta(), 1_000);
    }
}

#[test]
fn triggers_per_screen() {
    let key = InputSnapshot { jump_key_pressed: true, ..quiet() };
    let escape = InputSnapshot { pause_key_released: true, ..quiet() };
    let unfocused = InputSnapshot { focused: false, ..quiet() };
    let unfocused_key = InputSnapshot { focused: false, ..key };
    let unfocused_escape = InputSnapshot { focused: false, ..escape };
    let both = InputSnapshot { jump_key_pressed: true, pause_key_released: true, ..quiet() };

    let activate = Some(ScreenTrigger::Activate);
    let toggle = Some(ScreenTrigger::PauseToggle);
    let lost = Some(ScreenTrigger::FocusLost);

    let start = GameScreen::StartScreen;
    assert_eq!(detect_trigger(start, &key), activate);
    assert_eq!(detect_trigger(start, &unfocused_key), activate);
    assert_eq!(detect_trigger(start, &escape), None);
    assert_eq!(detect_trigger(start, &unfocused), None);
    assert_eq!(detect_trigger(start, &both), activate);

    let play = GameScreen::PlayScreen;
    assert_eq!(detect_trigger(play, &key), None);
    assert_eq!(detect_trigger(play, &escape), toggle);
    assert_eq!(detect_trigger(play, &unfocused), lost);
    assert_eq!(detect_trigger(play, &unfocused_key), lost);
    assert_eq!(detect_trigger(play, &unfocused_escape), lost);
    assert_eq!(detect_trigger(play, &both), toggle);

    let away = GameScreen::UnfocusedPauseScreen;
    assert_eq!(detect_trigger(away, &key), activate);
    assert_eq!(detect_trigger(away, &unfocused_key), None);
    assert_eq!(detect_trigger(away, &unfocused), None);
    assert_eq!(detect_trigger(away, &escape), None);
    assert_eq!(detect_trigger(away, &both), activate);

    let manual = GameScreen::ManuallyPauseScreen;
    assert_eq!(detect_trigger(manual, &escape), toggle);
    assert_eq!(detect_trigger(manual, &unfocused_escape), None);
    assert_eq!(detect_trigger(manual, &key), None);
    assert_eq!(detect_trigger(manual, &unfocused), None);
    assert_eq!(detect_trigger(manual, &both), toggle);

    let over = GameScreen::GameOverScreen;
    assert_eq!(detect_trigger(over, &key), activate);
    assert_eq!(detect_trigger(over, &unfocused_key), activate);
    assert_eq!(detect_trigger(over, &escape), None);
    assert_eq!(detect_trigger(over, &unfocused), None);

    let exit = GameScreen::ExitScreen;
    for input in [key, escape, unfocused, unfocused_key, unfocused_escape, both] {
        assert_eq!(detect_trigger(exit, &input), None);
    }
}

#[test]
fn start_to_play_resumes_the_clock() {
    let mut clock = paused();
    let mut screens = on_screen(GameScreen::StartScreen);
    let click = InputSnapshot { pointer_pressed: true, ..quiet() };
    assert_eq!(screen_changes(&mut clock, &click, &mut screens), Some(ScreenTrigger::Activate));
    assert!(!clock.is_paused());
    assert_eq!(screens.current(), GameScreen::StartScreen);
    assert_eq!(screens.pending(), Some(GameScreen::PlayScreen));
}

#[test]
fn captured_click_does_not_start_the_round() {
    let mut clock = paused();
    let mut screens = on_screen(GameScreen::StartScreen);
    let click = InputSnapshot { pointer_pressed: true, pointer_captured: true, ..quiet() };
    assert_eq!(screen_changes(&mut clock, &click, &mut screens), None);
    assert!(clock.is_paused());
    assert_eq!(screens.pending(), None);
}

#[test]
fn losing_focus_pauses_the_round() {
    let mut clock = running();
    let mut screens = on_screen(GameScreen::PlayScreen);
    let unfocused = InputSnapshot { focused: false, ..quiet() };
    assert_eq!(
        screen_changes(&mut clock, &unfocused, &mut screens),
        Some(ScreenTrigger::FocusLost)
    );
    assert!(clock.is_paused());
    assert_eq!(clock.elapsed(), 1_000);
    assert_eq!(screens.pending(), Some(GameScreen::UnfocusedPauseScreen));
}

#[test]
fn activation_with_focus_resumes_an_unfocused_pause() {
    let mut clock = paused();
    let mut screens = on_screen(GameScreen::UnfocusedPauseScreen);
    let touch = InputSnapshot { touch_began: true, ..quiet() };
    assert_eq!(screen_changes(&mut clock, &touch, &mut screens), Some(ScreenTrigger::Activate));
    assert!(!clock.is_paused());
    assert_eq!(screens.pending(), Some(GameScreen::PlayScreen));
}

#[test]
fn pause_key_toggles_the_manual_pause() {
    let escape = InputSnapshot { pause_key_released: true, ..quiet() };
    let mut clock = running();
    let mut screens = on_screen(GameScreen::PlayScreen);
    assert_eq!(
        screen_changes(&mut clock, &escape, &mut screens),
        Some(ScreenTrigger::PauseToggle)
    );
    assert!(clock.is_paused());
    assert_eq!(screens.pending(), Some(GameScreen::ManuallyPauseScreen));
    screens.apply_pending();
    assert_eq!(
        screen_changes(&mut clock, &escape, &mut screens),
        Some(ScreenTrigger::PauseToggle)
    );
    assert!(!clock.is_paused());
    assert_eq!(screens.pending(), Some(GameScreen::PlayScreen));
}

#[test]
fn pause_key_does_nothing_off_the_round() {
    let escape = InputSnapshot { pause_key_released: true, ..quiet() };
    for screen in [
        GameScreen::StartScreen,
        GameScreen::UnfocusedPauseScreen,
        GameScreen::GameOverScreen,
        GameScreen::ExitScreen,
    ] {
        let mut clock = running();
        let mut screens = on_screen(screen);
        assert_eq!(screen_changes(&mut clock, &escape, &mut screens), None);
        assert!(!clock.is_paused());
        assert_eq!(screens.pending(), None);
    }
}

#[test]
fn game_over_to_start_leaves_the_clock_paused() {
    let mut clock = paused();
    let mut screens = on_screen(GameScreen::GameOverScreen);
    let key = InputSnapshot { jump_key_pressed: true, ..quiet() };
    assert_eq!(screen_changes(&mut clock, &key, &mut screens), Some(ScreenTrigger::Activate));
    assert!(clock.is_paused());
    assert_eq!(screens.pending(), Some(GameScreen::StartScreen));
}

#[test]
fn clock_follows_the_screen_entered() {
    for (screen, from_running, from_paused) in [
        (GameScreen::StartScreen, false, true),
        (GameScreen::PlayScreen, false, false),
        (GameScreen::UnfocusedPauseScreen, true, true),
        (GameScreen::ManuallyPauseScreen, true, true),
        (GameScreen::GameOverScreen, true, true),
        (GameScreen::ExitScreen, false, true),
    ] {
        let mut clock = running();
        set_clock_for(screen, &mut clock);
        assert_eq!(clock.is_paused(), from_running);
        let mut clock = paused();
        set_clock_for(screen, &mut clock);
        assert_eq!(clock.is_paused(), from_paused);
        assert_eq!(clock.elapsed(), 1_000);
    }
}

#[test]
fn score_accrues_only_while_the_clock_runs() {
    let mut status = GameStatus { score: 0, speed: 5, window_width: 1920, window_height: 1080 };
    let clock = running();
    for frame in 1..=20u64 {
        assert_eq!(game_info(&mut status, &clock, None), frame / 8);
        assert_eq!(status.score, frame);
    }
    let clock = paused();
    for _ in 0..20 {
        assert_eq!(game_info(&mut status, &clock, None), 2);
    }
    assert_eq!(status, GameStatus { score: 20, speed: 5, window_width: 1920, window_height: 1080 });
}

#[test]
fn score_starts_over_when_the_dino_is_over() {
    let mut status = GameStatus { score: 80, speed: 5, window_width: 1920, window_height: 1080 };
    let mut dino = Dino::new(Body::new(0, 40, 50, 80));
    assert_eq!(game_info(&mut status, &running(), Some(&dino)), 10);
    assert_eq!(status.score, 81);
    dino.over();
    assert_eq!(game_info(&mut status, &running(), Some(&dino)), 0);
    assert_eq!(status.score, 0);
    status.score = 9;
    assert_eq!(game_info(&mut status, &paused(), Some(&dino)), 0);
    assert_eq!(status.score, 0);
}

#[test]
fn window_size_is_taken_over() {
    let mut status = GameStatus { score: 4, speed: 5, window_width: 1920, window_height: 1080 };
    update_window_size(800, 600, &mut status);
    assert_eq!(status, GameStatus { score: 4, speed: 5, window_width: 800, window_height: 600 });
}

#[test]
fn debug_window_toggles_on_the_key_edge() {
    let mut state = DebugWindowState::default();
    assert!(!state.visible);
    toggle_debug_window(false, &mut state);
    assert!(!state.visible);
    toggle_debug_window(true, &mut state);
    assert!(state.visible);
    toggle_debug_window(false, &mut state);
    assert!(state.visible);
    toggle_debug_window(true, &mut state);
    assert!(!state.visible);
}

#[test]
fn user_control_starts_on_activation_with_focus() {
    let key = InputSnapshot { jump_key_pressed: true, ..quiet() };
    let mut dino = Dino::new(Body::new(0, 40, 50, 80));
    let mut clock = paused();
    assert_eq!(user_control(&mut clock, &mut dino, &quiet()), ClockControl::Keep);
    assert!(clock.is_paused());
    assert!(dino.is_ready());
    let away_key = InputSnapshot { focused: false, ..key };
    assert_eq!(user_control(&mut clock, &mut dino, &away_key), ClockControl::Keep);
    assert!(clock.is_paused());
    assert_eq!(user_control(&mut clock, &mut dino, &key), ClockControl::Resume);
    assert!(!clock.is_paused());
    assert_eq!(dino, Dino { state: GameState::Playing, ..Dino::new(Body::new(0, 40, 50, 80)) });
    assert_eq!(user_control(&mut clock, &mut dino, &key), ClockControl::Keep);
    assert!(!clock.is_paused());
}

#[test]
fn user_control_pauses_when_the_focus_is_lost() {
    let unfocused = InputSnapshot { focused: false, ..quiet() };
    let mut dino = Dino::new(Body::new(0, 40, 50, 80));
    dino.start();
    let mut clock = running();
    assert_eq!(user_control(&mut clock, &mut dino, &unfocused), ClockControl::Pause);
    assert!(clock.is_paused());
    assert_eq!(clock.elapsed(), 1_000);
    assert!(dino.is_playing());
    assert_eq!(user_control(&mut clock, &mut dino, &unfocused), ClockControl::Keep);
    assert!(clock.is_paused());
}

#[test]
fn reset_game_needs_a_collision_and_an_activation() {
    let key = InputSnapshot { jump_key_pressed: true, ..quiet() };
    let fresh = Dino::new(Body::new(-500, 40, 50, 80));
    let mut dino = fresh;
    dino.set_height(90);
    let mut tree = Tree::new(Body::new(-480, 24, 30, 48));
    tree.dino_passed();
    tree.update_score(12);
    let airborne = dino;
    let passed = tree;

    assert!(!reset_game(&mut dino, &mut tree, &key, 1_000));
    assert_eq!(dino, airborne);
    assert_eq!(tree, passed);

    dino.over();
    assert!(!reset_game(&mut dino, &mut tree, &quiet(), 1_000));
    assert!(dino.is_over());
    assert_eq!(tree, passed);

    assert!(reset_game(&mut dino, &mut tree, &key, 1_000));
    assert_eq!(dino, fresh);
    assert_eq!(tree, Tree::new(Body::new(970, 24, 30, 48)));

    let mut small = Tree::new(Body::new(0, 24, 30, 48));
    dino.over();
    assert!(reset_game(&mut dino, &mut small, &key, 10));
    assert_eq!(small.body.x, -20);
}
