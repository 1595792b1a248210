//! The dinosaur's systems: where it stands in the window, taking off on
//! input, following the jump while the clock runs, and the height of the
//! arc.

use vstd::prelude::*;
use crate::clock::{ClockView, VirtualClock};
use crate::components::{jump_frame, Dino, GameState, JumpFrame, JumpOutcome};
use crate::game_control::InputSnapshot;
use crate::geometry::Body;
use crate::resources::GameConfig;

verus! {

/// The height of the dinosaur's centre on the arc of its jump: the rest
/// height plus the share `sine_milli / 1000` of the jump height, rounded
/// down to a whole unit.
///
/// The arc is a single half-sine arch; `sine_milli` is the sine of the
/// jump's phase in thousandths, zero at take-off and on landing and 1000 at
/// the peak.
pub open spec fn height_on_arc(rest_y: int, jump_height: nat, sine_milli: nat) -> int {
    rest_y + jump_height * sine_milli / 1000
}

/// The height at which the dinosaur is placed: [`height_on_arc`], stopping
/// at the largest position.
pub open spec fn placed_height(rest_y: int, jump_height: nat, sine_milli: nat) -> int {
    let height = height_on_arc(rest_y, jump_height, sine_milli);
    if height > i64::MAX {
        i64::MAX as int
    } else {
        height
    }
}

/// Computes the height at which the dinosaur is placed on the arc of its
/// jump.
pub fn arc_height(rest_y: i64, jump_height: u32, sine_milli: u16) -> (y: i64)
    ensures
        y == placed_height(rest_y as int, jump_height as nat, sine_milli as nat),
{
    assert(jump_height * sine_milli <= 0xffff_ffff * 0xffff) by (nonlinear_arith)
        requires
            jump_height <= 0xffff_ffff,
            sine_milli <= 0xffff,
    ;
    let lift: i128 = ((jump_height as u64 * sine_milli as u64) / 1000) as i128;
    let y: i128 = rest_y as i128 + lift;
    if y > i64::MAX as i128 {
        i64::MAX
    } else {
        y as i64
    }
}

/// Where the centre of a dinosaur `width` wide stands in a window
/// `window_width` wide when its left edge is `offset_permille` thousandths
/// of the window's width right of the window's left edge. The window is
/// centred on zero. Each share is rounded down to a whole unit.
pub open spec fn dino_place(window_width: nat, width: nat, offset_permille: nat) -> int {
    window_width * offset_permille / 1000 + width / 2 - window_width / 2
}

/// Computes [`dino_place`].
pub fn place_dino(window_width: u32, width: u32, offset_permille: u32) -> (x: i64)
    ensures
        x == dino_place(window_width as nat, width as nat, offset_permille as nat),
{
    assert(window_width * offset_permille <= 0xffff_ffff * 0xffff_ffff) by (nonlinear_arith)
        requires
            window_width <= 0xffff_ffff,
            offset_permille <= 0xffff_ffff,
    ;
    let offset: u64 = (window_width as u64 * offset_permille as u64) / 1000;
    offset as i64 + (width / 2) as i64 - (window_width / 2) as i64
}

/// Puts a dinosaur at its starting place in a window `window_width` wide:
/// standing ready on the ground, of the size and at the offset that
/// `config` gives.
pub fn setup_dino(config: &GameConfig, window_width: u32) -> (dino: Dino)
    ensures
        dino == (Dino {
            body: Body {
                x: dino_place(
                    window_width as nat,
                    config.dino_width as nat,
                    config.dino_offset_permille as nat,
                ) as i64,
                y: config.standing(config.dino_height) as i64,
                width: config.dino_width,
                height: config.dino_height,
                scale_x: 1,
                scale_y: 1,
            },
            rest_y: config.standing(config.dino_height) as i64,
            in_air_start_time: None,
            state: GameState::Ready,
        }),
{
    Dino::new(
        Body::new(
            place_dino(window_width, config.dino_width, config.dino_offset_permille),
            config.ground_y as i64 + (config.dino_height / 2) as i64,
            config.dino_width,
            config.dino_height,
        ),
    )
}

/// Keeps the dinosaur at its place in the window, whatever the window's
/// width has become. Nothing else about the dinosaur changes.
pub fn dino_pos_fix_system(dino: &mut Dino, window_width: u32, offset_permille: u32)
    ensures
        *final(dino) == (Dino {
            body: Body {
                x: dino_place(
                    window_width as nat,
                    old(dino).body.width as nat,
                    offset_permille as nat,
                ) as i64,
                ..old(dino).body
            },
            ..*old(dino)
        }),
{
    dino.body.x = place_dino(window_width, dino.body.width, offset_permille);
}

/// Whether `input` asks for a jump that `clock` lets happen: the player
/// activates and the clock runs.
pub open spec fn jump_requested(input: InputSnapshot, clock: ClockView) -> bool {
    !clock.paused && input.activated()
}

/// Lets the dinosaur take off when the player asks for a jump.
///
/// With the clock paused, or without an activation in `input`, nothing
/// happens. Otherwise the dinosaur takes off at the clock's virtual time
/// unless it is in the air already. The caller plays the jump sound when the
/// outcome is `Started`.
pub fn dino_jump_system(dino: &mut Dino, input: &InputSnapshot, time: &VirtualClock) -> (outcome:
    JumpOutcome)
    ensures
        outcome == (if jump_requested(*input, time@) && !old(dino).in_flight() {
            JumpOutcome::Started
        } else {
            JumpOutcome::Ignored
        }),
        *final(dino) == (if jump_requested(*input, time@) {
            old(dino).jumped(time@.elapsed as u64)
        } else {
            *old(dino)
        }),
{
    if time.is_paused() {
        return JumpOutcome::Ignored;
    }
    if input.is_activated() {
        dino.try_jump(time.elapsed())
    } else {
        JumpOutcome::Ignored
    }
}

/// The frame that [`dino_jump_animation`] reports.
pub open spec fn animation_frame(dino: Dino, clock: ClockView, jump_duration_ms: u64) -> JumpFrame {
    if clock.paused {
        JumpFrame::Unchanged
    } else {
        jump_frame(dino.in_air_start_time, clock.elapsed as u64, jump_duration_ms)
    }
}

/// Follows the jump for one frame.
///
/// With the clock paused nothing moves: the age of a jump is measured in
/// virtual time and freezes with it. With the clock running the jump is
/// brought up to the clock's virtual time, as [`Dino::update_position`]
/// describes.
pub fn dino_jump_animation(time: &VirtualClock, dino: &mut Dino, jump_duration_ms: u64) -> (frame:
    JumpFrame)
    requires
        old(dino).took_off_by(time@.elapsed as u64),
    ensures
        frame == animation_frame(*old(dino), time@, jump_duration_ms),
        *final(dino) == (if time@.paused {
            *old(dino)
        } else {
            old(dino).followed(time@.elapsed as u64, jump_duration_ms)
        }),
{
    if time.is_paused() {
        return JumpFrame::Unchanged;
    }
    dino.update_position(time.elapsed(), jump_duration_ms)
}

/// At take-off and on landing, where the sine is zero, the dinosaur is at
/// its rest height; at the peak, where the sine is one, it is higher by
/// exactly the jump height; and in between it is never lower than at rest
/// nor higher than at the peak.
pub proof fn lemma_arc_marks(rest_y: int, jump_height: nat, sine_milli: nat)
    requires
        sine_milli <= 1000,
    ensures
        height_on_arc(rest_y, jump_height, 0) == rest_y,
        height_on_arc(rest_y, jump_height, 1000) == rest_y + jump_height,
        rest_y <= height_on_arc(rest_y, jump_height, sine_milli) <= rest_y + jump_height,
{
    assert(jump_height * 0 == 0) by (nonlinear_arith);
    vstd::arithmetic::div_mod::lemma_div_multiples_vanish(jump_height as int, 1000);
    assert(jump_height * 1000 == 1000 * jump_height) by (nonlinear_arith);
    assert(0 <= jump_height * sine_milli <= jump_height * 1000) by (nonlinear_arith)
        requires
            sine_milli <= 1000,
    ;
    vstd::arithmetic::div_mod::lemma_div_is_ordered(
        (jump_height * sine_milli) as int,
        (jump_height * 1000) as int,
        1000,
    );
    vstd::arithmetic::div_mod::lemma_div_pos_is_pos((jump_height * sine_milli) as int, 1000);
}

} // verus!
