//! The obstacle scroller and the difficulty step that each recycled
//! obstacle triggers.

use vstd::prelude::*;
use crate::clock::VirtualClock;
use crate::components::Tree;
use crate::geometry::Body;
use crate::resources::{DifficultyState, GameConfig, GameStatus, SpeedControlInfo};

verus! {

/// What one frame did to a tree.
#[derive(Clone, Copy, PartialEq, Eq, Structural, Debug)]
pub enum TreeMove {
    /// The clock is paused: nothing moved.
    Frozen,
    /// The tree moved to the left.
    Advanced,
    /// The tree had left the track and is back at the right edge; the
    /// difficulty has been raised.
    Recycled,
}

/// Whether `x` lies to the left of the track, which spans the middle four
/// fifths of a window `window_width` wide and centred on zero.
pub open spec fn left_of_track(x: int, window_width: nat) -> bool {
    5 * x < -2 * window_width
}

/// The right edge of the track, rounded down to a whole unit.
pub open spec fn track_right_edge(window_width: nat) -> int {
    (2 * window_width) as int / 5
}

/// Mathematical state of the scroller: where a tree is and how hard the
/// game has become.
pub struct TrackView {
    /// Horizontal position of the tree.
    pub x: int,
    /// The difficulty.
    pub difficulty: DifficultyState,
}

impl TrackView {
    /// The scroller's state for a tree and the two difficulty records.
    pub open spec fn of(tree: Tree, status: GameStatus, info: SpeedControlInfo) -> TrackView {
        TrackView { x: tree.body.x as int, difficulty: DifficultyState::of(status, info) }
    }

    /// What one frame does to a tree.
    pub open spec fn kind(self, paused: bool, window_width: nat) -> TreeMove {
        if paused {
            TreeMove::Frozen
        } else if left_of_track(self.x, window_width) {
            TreeMove::Recycled
        } else {
            TreeMove::Advanced
        }
    }

    /// The state after one frame in which a tree on the track travels
    /// `step` units. A tree that has left the track does not travel: it is
    /// put back at the right edge and the difficulty is raised.
    pub open spec fn scroll(self, paused: bool, window_width: nat, step: nat) -> TrackView {
        match self.kind(paused, window_width) {
            TreeMove::Frozen => self,
            TreeMove::Recycled => TrackView {
                x: track_right_edge(window_width),
                difficulty: self.difficulty.escalate(),
            },
            TreeMove::Advanced => TrackView { x: self.x - step, difficulty: self.difficulty },
        }
    }

    /// The state after a run of frames, oldest first, each with its own
    /// travel.
    pub open spec fn scroll_all(self, paused: bool, window_width: nat, steps: Seq<nat>) -> TrackView
        decreases steps.len(),
    {
        if steps.len() == 0 {
            self
        } else {
            self.scroll_all(paused, window_width, steps.drop_last()).scroll(
                paused,
                window_width,
                steps.last(),
            )
        }
    }
}

/// How far a tree travels in `delta_ns` nanoseconds of virtual time, rounded
/// down to a whole unit.
///
/// A tree covers a third of the window's width in a second, and half its
/// own width more for each unit of hardness. The hardness is the binary
/// logarithm of the speed; `hardness_milli` holds it in thousandths.
pub open spec fn travel(delta_ns: nat, window_width: nat, tree_width: nat, hardness_milli: nat) -> nat {
    delta_ns * (2000 * window_width + 3 * tree_width * hardness_milli) / 6_000_000_000_000
}

/// The step that a tree takes in a frame: [`travel`], stopping at the
/// largest step.
pub open spec fn step_for(delta_ns: nat, window_width: nat, tree_width: nat, hardness_milli: nat) -> nat {
    let travel = travel(delta_ns, window_width, tree_width, hardness_milli);
    if travel > u32::MAX {
        u32::MAX as nat
    } else {
        travel
    }
}

/// Computes the step that a tree takes in this frame.
pub fn scroll_step(delta_ns: u64, window_width: u32, tree_width: u32, hardness_milli: u16) -> (step:
    u32)
    ensures
        step == step_for(
            delta_ns as nat,
            window_width as nat,
            tree_width as nat,
            hardness_milli as nat,
        ),
{
    assert(tree_width * hardness_milli <= 0xffff_ffff * 0xffff) by (nonlinear_arith)
        requires
            tree_width <= 0xffff_ffff,
            hardness_milli <= 0xffff,
    ;
    assert(3 * tree_width * hardness_milli == 3 * (tree_width * hardness_milli))
        by (nonlinear_arith);
    let per_second: u128 = 2000 * (window_width as u128) + 3 * (tree_width as u128
        * hardness_milli as u128);
    assert(delta_ns * per_second <= 0xffff_ffff_ffff_ffff * 0x3_07cf_ffff_f830) by (nonlinear_arith)
        requires
            delta_ns <= 0xffff_ffff_ffff_ffff,
            per_second <= 0x3_07cf_ffff_f830,
    ;
    let covered: u128 = (delta_ns as u128 * per_second) / 6_000_000_000_000;
    if covered > u32::MAX as u128 {
        u32::MAX
    } else {
        covered as u32
    }
}

/// Puts a tree at its starting place in a window `window_width` wide:
/// standing on the ground, of the size that `config` gives, its centre one
/// tree width left of the distance `window_width` from the origin.
pub fn setup_tree(config: &GameConfig, window_width: u32) -> (tree: Tree)
    ensures
        tree == (Tree {
            body: Body {
                x: (window_width - config.tree_width) as i64,
                y: config.standing(config.tree_height) as i64,
                width: config.tree_width,
                height: config.tree_height,
                scale_x: 1,
                scale_y: 1,
            },
            succeeded: 0,
            score: 0,
        }),
{
    Tree::new(
        Body::new(
            window_width as i64 - config.tree_width as i64,
            config.ground_y as i64 + (config.tree_height / 2) as i64,
            config.tree_width,
            config.tree_height,
        ),
    )
}

/// Raises the difficulty after an obstacle has been recycled.
///
/// Score and window size are left alone. No input overflows or panics.
pub fn update_game_speed(status: &mut GameStatus, info: &mut SpeedControlInfo)
    ensures
        DifficultyState::of(*final(status), *final(info)) == DifficultyState::of(
            *old(status),
            *old(info),
        ).escalate(),
        *final(status) == (GameStatus { speed: final(status).speed, ..*old(status) }),
{
    if status.speed < info.max_game_speed {
        let new_speed: u64 = status.speed.saturating_add(info.speed_increment);
        info.speed_increment = info.speed_increment.saturating_add(info.speed_increment);
        info.max_game_speed = info.max_game_speed.saturating_sub(info.speed_increment);
        status.speed = if new_speed >= info.max_game_speed {
            info.max_game_speed
        } else {
            new_speed
        };
    }
}

/// Moves one tree for one frame.
///
/// With the clock paused nothing changes. Otherwise a tree that has left
/// the track on the left is put back at its right edge and the difficulty
/// is raised; any other tree moves `step` units to the left. The track is as
/// wide as four fifths of the window in `status`. The caller derives `step`
/// from the frame's virtual delta time and the speed in `status`.
pub fn tree_move_animation(
    tree: &mut Tree,
    time: &VirtualClock,
    status: &mut GameStatus,
    info: &mut SpeedControlInfo,
    step: u32,
) -> (moved: TreeMove)
    ensures
        moved == TrackView::of(*old(tree), *old(status), *old(info)).kind(
            time@.paused,
            old(status).window_width as nat,
        ),
        TrackView::of(*final(tree), *final(status), *final(info)) == TrackView::of(
            *old(tree),
            *old(status),
            *old(info),
        ).scroll(time@.paused, old(status).window_width as nat, step as nat),
        *final(tree) == (Tree {
            body: Body { x: final(tree).body.x, ..old(tree).body },
            ..*old(tree)
        }),
        *final(status) == (GameStatus { speed: final(status).speed, ..*old(status) }),
        moved != TreeMove::Recycled ==> *final(status) == *old(status) && *final(info) == *old(
            info,
        ),
        moved == TreeMove::Frozen ==> *final(tree) == *old(tree),
{
    if time.is_paused() {
        return TreeMove::Frozen;
    }
    let width: i128 = status.window_width as i128;
    let x: i128 = tree.body.x as i128;
    if 5 * x < -2 * width {
        update_game_speed(status, info);
        tree.body.x = ((2 * width) / 5) as i64;
        TreeMove::Recycled
    } else {
        tree.body.x = (x - step as i128) as i64;
        TreeMove::Advanced
    }
}

/// While the clock is paused, no run of frames moves a tree or raises the
/// difficulty, whatever travel each frame asks for.
pub proof fn lemma_paused_scroll_changes_nothing(track: TrackView, window_width: nat, steps: Seq<nat>)
    ensures
        track.scroll_all(true, window_width, steps) == track,
    decreases steps.len(),
{
    if steps.len() > 0 {
        lemma_paused_scroll_changes_nothing(track, window_width, steps.drop_last());
    }
}

/// On a running clock a tree on the track never moves to the right, and a
/// tree that has left the track comes back at the right edge, which lies on
/// the track.
pub proof fn lemma_scroll_moves_left_until_recycled(track: TrackView, window_width: nat, step: nat)
    ensures
        !left_of_track(track.x, window_width) ==> track.scroll(false, window_width, step).x
            == track.x - step,
        left_of_track(track.x, window_width) ==> track.scroll(false, window_width, step).x
            == track_right_edge(window_width) && !left_of_track(
            track_right_edge(window_width),
            window_width,
        ),
        track.scroll(false, window_width, step).difficulty == (if left_of_track(
            track.x,
            window_width,
        ) {
            track.difficulty.escalate()
        } else {
            track.difficulty
        }),
{
}

} // verus!
