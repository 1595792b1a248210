use dinosaur::clock::VirtualClock;
use dinosaur::components::{Dino, GameState, JumpFrame, JumpOutcome, NANOS_PER_MILLI};
use dinosaur::dino::{
    arc_height, dino_jump_animation, dino_jump_system, dino_pos_fix_system, place_dino, setup_dino,
};
use dinosaur::resources::{GameConfig, JUMP_DURATION_MS};
use dinosaur::game_control::InputSnapshot;
use dinosaur::geometry::Body;

const REST: i64 = 40_453;
const JUMP_HEIGHT: u32 = 194_175;

fn dino() -> Dino {
    Dino::new(Body::new(0, REST, 50_000, 80_906))
}

fn quiet() -> InputSnapshot {
    InputSnapshot {
        focused: true,
        jump_key_pressed: false,
        pointer_pressed: false,
        touch_began: false,
        pause_key_released: false,
        pointer_captured: false,
    }
}

fn key() -> InputSnapshot {
    InputSnapshot { jump_key_pressed: true, ..quiet() }
}

/// The sine of the phase of a jump, in thousandths.
fn sine_milli(elapsed_ms: u64, duration_ms: u64) -> u16 {
    let phase = elapsed_ms as f64 / duration_ms as f64 * std::f64::consts::PI;
    (phase.sin() * 1000.0).round().clamp(0.0, 1000.0) as u16
}

/// The height of the half-sine arc at the age that the frame reports.
fn height_at(frame: JumpFrame, duration_ms: u64, dino: &Dino) -> i64 {
    match frame {
        JumpFrame::Airborne { elapsed_ms } => {
            arc_height(dino.rest_y, JUMP_HEIGHT, sine_milli(elapsed_ms, duration_ms))
        }
        JumpFrame::Landed | JumpFrame::Unchanged => dino.body.y,
    }
}

#[test]
fn new_dino_stands_ready_on_the_ground() {
    let dino = dino();
    assert_eq!(dino.in_air_start_time, None);
    assert_eq!(dino.rest_y, REST);
    assert_eq!(dino.body.y, REST);
    assert_eq!(dino.state, GameState::Ready);
    assert!(dino.is_ready());
    assert!(!dino.is_playing());
    assert!(!dino.is_over());
}

#[test]
fn state_setters_change_only_the_state() {
    let mut dino = dino();
    let before = dino;
    dino.start();
    assert!(dino.is_playing() && !dino.is_ready() && !dino.is_over());
    dino.over();
    assert!(dino.is_over() && !dino.is_ready() && !dino.is_playing());
    dino.ready();
    assert!(dino.is_ready());
    assert_eq!(dino, before);
    assert_eq!(GameState::default(), GameState::Ready);
}

#[test]
fn try_jump_starts_once_and_ignores_requests_in_the_air() {
    let mut dino = dino();
    assert_eq!(dino.try_jump(1_000), JumpOutcome::Started);
    assert_eq!(dino.in_air_start_time, Some(1_000));
    assert_eq!(dino.try_jump(2_000), JumpOutcome::Ignored);
    assert_eq!(dino.in_air_start_time, Some(1_000));
}

#[test]
fn update_position_without_a_jump_changes_nothing() {
    let mut dino = dino();
    let before = dino;
    assert_eq!(dino.update_position(123 * NANOS_PER_MILLI, 500), JumpFrame::Unchanged);
    assert_eq!(dino, before);
}

#[test]
fn jump_arc_at_start_middle_and_end() {
    for (duration, start) in [(500u64, 0u64), (500, 7_000_000_123), (800, 42), (1, 9)] {
        let mut dino = dino();
        dino.try_jump(start);

        let frame = dino.update_position(start, duration);
        assert_eq!(frame, JumpFrame::Airborne { elapsed_ms: 0 });
        assert_eq!(height_at(frame, duration, &dino), REST);

        let frame = dino.update_position(start + duration / 2 * NANOS_PER_MILLI, duration);
        assert_eq!(frame, JumpFrame::Airborne { elapsed_ms: duration / 2 });
        if duration % 2 == 0 {
            assert_eq!(height_at(frame, duration, &dino), REST + JUMP_HEIGHT as i64);
        }

        let frame = dino.update_position(start + duration * NANOS_PER_MILLI, duration);
        assert_eq!(frame, JumpFrame::Airborne { elapsed_ms: duration });
        assert_eq!(height_at(frame, duration, &dino), REST);
        assert_eq!(dino.in_air_start_time, Some(start));
    }
}

#[test]
fn jump_ends_one_millisecond_after_its_duration() {
    let mut dino = dino();
    dino.try_jump(10);
    dino.set_height(REST + 77);
    let just_before = 10 + 501 * NANOS_PER_MILLI - 1;
    assert_eq!(
        dino.update_position(just_before, JUMP_DURATION_MS),
        JumpFrame::Airborne { elapsed_ms: 500 }
    );
    assert_eq!(dino.body.y, REST + 77);
    assert_eq!(dino.update_position(just_before + 1, JUMP_DURATION_MS), JumpFrame::Landed);
    assert_eq!(dino.in_air_start_time, None);
    assert_eq!(dino.body.y, REST);
    assert_eq!(dino.update_position(just_before + 2, JUMP_DURATION_MS), JumpFrame::Unchanged);
    assert_eq!(dino.try_jump(just_before + 2), JumpOutcome::Started);
}

#[test]
fn frame_depends_on_age_not_on_tick_count() {
    let mut once = dino();
    once.try_jump(0);
    let direct = once.update_position(300 * NANOS_PER_MILLI, 500);

    let mut stepped = dino();
    stepped.try_jump(0);
    for ms in 1..=300u64 {
        stepped.update_position(ms * NANOS_PER_MILLI, 500);
    }
    let last = stepped.update_position(300 * NANOS_PER_MILLI, 500);
    assert_eq!(direct, JumpFrame::Airborne { elapsed_ms: 300 });
    assert_eq!(direct, last);
    assert_eq!(once, stepped);
}

#[test]
fn set_height_moves_only_the_height() {
    let mut dino = dino();
    dino.set_height(-5);
    assert_eq!(dino.body, Body { y: -5, ..Body::new(0, REST, 50_000, 80_906) });
    assert_eq!(dino.rest_y, REST);
}

#[test]
fn jump_system_needs_an_activation_and_a_running_clock() {
    let mut clock = VirtualClock::new();
    clock.tick(5 * NANOS_PER_MILLI);
    let mut dino = dino();
    assert_eq!(dino_jump_system(&mut dino, &quiet(), &clock), JumpOutcome::Ignored);
    assert_eq!(dino.in_air_start_time, None);

    clock.pause();
    assert_eq!(dino_jump_system(&mut dino, &key(), &clock), JumpOutcome::Ignored);
    assert_eq!(dino.in_air_start_time, None);

    clock.unpause();
    assert_eq!(dino_jump_system(&mut dino, &key(), &clock), JumpOutcome::Started);
    assert_eq!(dino.in_air_start_time, Some(5 * NANOS_PER_MILLI));

    clock.tick(NANOS_PER_MILLI);
    assert_eq!(dino_jump_system(&mut dino, &key(), &clock), JumpOutcome::Ignored);
    assert_eq!(dino.in_air_start_time, Some(5 * NANOS_PER_MILLI));
}

#[test]
fn jump_system_accepts_click_and_touch_unless_captured() {
    let clock = VirtualClock::new();
    let click = InputSnapshot { pointer_pressed: true, ..quiet() };
    let touch = InputSnapshot { touch_began: true, ..quiet() };
    let captured_click = InputSnapshot { pointer_captured: true, ..click };
    let captured_touch = InputSnapshot { pointer_captured: true, ..touch };
    let captured_key = InputSnapshot { pointer_captured: true, ..key() };

    let mut a = dino();
    assert_eq!(dino_jump_system(&mut a, &click, &clock), JumpOutcome::Started);
    let mut b = dino();
    assert_eq!(dino_jump_system(&mut b, &touch, &clock), JumpOutcome::Started);
    let mut c = dino();
    assert_eq!(dino_jump_system(&mut c, &captured_click, &clock), JumpOutcome::Ignored);
    assert_eq!(dino_jump_system(&mut c, &captured_touch, &clock), JumpOutcome::Ignored);
    assert_eq!(c.in_air_start_time, None);
    assert_eq!(dino_jump_system(&mut c, &captured_key, &clock), JumpOutcome::Started);
}

#[test]
fn animation_freezes_with_the_clock() {
    let mut clock = VirtualClock::new();
    let mut dino = dino();
    dino_jump_system(&mut dino, &key(), &clock);
    clock.tick(100 * NANOS_PER_MILLI);
    assert_eq!(
        dino_jump_animation(&clock, &mut dino, 500),
        JumpFrame::Airborne { elapsed_ms: 100 }
    );
    clock.pause();
    let before = dino;
    for _ in 0..10 {
        clock.tick(1_000 * NANOS_PER_MILLI);
        assert_eq!(dino_jump_animation(&clock, &mut dino, 500), JumpFrame::Unchanged);
    }
    assert_eq!(dino, before);
    clock.unpause();
    clock.tick(100 * NANOS_PER_MILLI);
    assert_eq!(
        dino_jump_animation(&clock, &mut dino, 500),
        JumpFrame::Airborne { elapsed_ms: 200 }
    );
    clock.tick(301 * NANOS_PER_MILLI);
    assert_eq!(dino_jump_animation(&clock, &mut dino, 500), JumpFrame::Landed);
    assert_eq!(dino.in_air_start_time, None);
    assert_eq!(dino.body.y, REST);
}

#[test]
fn arc_height_is_the_share_of_the_jump_height() {
    assert_eq!(arc_height(REST, JUMP_HEIGHT, 0), REST);
    assert_eq!(arc_height(REST, JUMP_HEIGHT, 1000), REST + 194_175);
    assert_eq!(arc_height(REST, JUMP_HEIGHT, 500), REST + 97_087);
    assert_eq!(arc_height(REST, JUMP_HEIGHT, 707), REST + 137_281);
    assert_eq!(arc_height(REST, JUMP_HEIGHT, 1), REST + 194);
    assert_eq!(arc_height(-5, 7, 999), 1);
    assert_eq!(arc_height(-5, 7, 428), -3);
    assert_eq!(arc_height(i64::MIN, 0, 1000), i64::MIN);
    assert_eq!(arc_height(i64::MIN, u32::MAX, u16::MAX), i64::MIN + 281_470_681_677);
}

#[test]
fn arc_height_stops_at_the_largest_position() {
    assert_eq!(arc_height(i64::MAX, JUMP_HEIGHT, 0), i64::MAX);
    assert_eq!(arc_height(i64::MAX, JUMP_HEIGHT, 1000), i64::MAX);
    assert_eq!(arc_height(i64::MAX - 10, 20, 1000), i64::MAX);
    assert_eq!(arc_height(i64::MAX - 10, 20, 500), i64::MAX);
    assert_eq!(arc_height(i64::MAX - 10, 20, 499), i64::MAX - 1);
}

#[test]
fn sine_of_the_marks() {
    for duration in [500u64, 800, 2] {
        assert_eq!(sine_milli(0, duration), 0);
        assert_eq!(sine_milli(duration / 2, duration), 1000);
        assert_eq!(sine_milli(duration, duration), 0);
    }
    assert_eq!(sine_milli(125, 500), 707);
}

#[test]
fn dino_stands_a_fifth_of_the_window_from_its_left_edge() {
    assert_eq!(place_dino(1_920_000, 50_000, 200), -551_000);
    assert_eq!(place_dino(1_000, 50, 200), -275);
    assert_eq!(place_dino(1_000, 50, 100), -375);
    assert_eq!(place_dino(1_000, 50, 0), -475);
    assert_eq!(place_dino(1_000, 50, 1_000), 525);
    assert_eq!(place_dino(0, 0, 200), 0);
    assert_eq!(place_dino(7, 5, 200), 0);
    assert_eq!(place_dino(9, 5, 333), 0);
    assert_eq!(place_dino(u32::MAX, u32::MAX, u32::MAX), 18_446_744_065_119_617);
    assert_eq!(place_dino(u32::MAX, 0, 0), -2_147_483_647);
}

#[test]
fn dino_pos_fix_moves_only_the_abscissa() {
    let mut dino = dino();
    dino.try_jump(5);
    dino.set_height(77);
    let before = dino;
    dino_pos_fix_system(&mut dino, 1_920_000, 200);
    assert_eq!(dino, Dino { body: Body { x: -551_000, ..before.body }, ..before });
    dino_pos_fix_system(&mut dino, 1_920_000, 200);
    assert_eq!(dino.body.x, -551_000);
    dino_pos_fix_system(&mut dino, 1_000_000, 100);
    assert_eq!(dino.body.x, -375_000);
}

#[test]
fn setup_dino_stands_on_the_ground() {
    let config = GameConfig::default();
    let dino = setup_dino(&config, 1_920_000);
    assert_eq!(
        dino,
        Dino {
            body: Body {
                x: -551_000,
                y: 40_453,
                width: 50_000,
                height: 80_906,
                scale_x: 1,
                scale_y: 1
            },
            rest_y: 40_453,
            in_air_start_time: None,
            state: GameState::Ready,
        }
    );
    let raised = GameConfig { ground_y: -1_000, dino_height: 7, ..config };
    assert_eq!(setup_dino(&raised, 0).body.y, -997);
    assert_eq!(setup_dino(&raised, 0).rest_y, -997);
    assert_eq!(setup_dino(&raised, 0).body.x, 25_000);
}

#[test]
fn default_config() {
    assert_eq!(
        GameConfig::default(),
        GameConfig {
            dino_width: 50_000,
            dino_height: 80_906,
            jump_height: 194_175,
            dino_offset_permille: 200,
            tree_width: 30_000,
            tree_height: 48_544,
            ground_y: 0,
            jump_duration_ms: 500,
            transition_ms: 0,
            speed: 5,
            speed_increment: 100,
            max_game_speed: u64::MAX,
        }
    );
    assert_eq!(JUMP_DURATION_MS, 500);
}
