//! The collision detector: ends the round when the dinosaur touches a tree.

use vstd::prelude::*;
use crate::clock::{ClockView, VirtualClock};
use crate::components::{Dino, GameState, Tree};
use crate::game_control::InputSnapshot;
use crate::geometry::Body;
use crate::screens::{GameScreen, ScreenMachine};

verus! {

/// Whether the detector runs at all: only on the play screen, and only
/// while the clock runs.
pub open spec fn detector_runs(screen: GameScreen, clock: ClockView) -> bool {
    screen == GameScreen::PlayScreen && !clock.paused
}

/// Whether none of the first `count` trees overlaps `dino`.
pub open spec fn clear_of(dino: Body, trees: Seq<Tree>, count: int) -> bool {
    forall|i: int| 0 <= i < count && i < trees.len() ==> !dino.overlaps((#[trigger] trees[i]).body)
}

/// Whether `touched` names the first tree that overlaps `dino`, or nothing
/// when no tree does.
pub open spec fn first_touched(dino: Body, trees: Seq<Tree>, touched: Option<usize>) -> bool {
    match touched {
        Some(index) => {
            &&& index < trees.len()
            &&& dino.overlaps(trees[index as int].body)
            &&& clear_of(dino, trees, index as int)
        },
        None => clear_of(dino, trees, trees.len() as int),
    }
}

/// Looks for the first tree whose bounding box overlaps that of `dino`.
/// Without trees there is none.
pub fn find_touched_tree(dino: &Body, trees: &Vec<Tree>) -> (touched: Option<usize>)
    ensures
        first_touched(*dino, trees@, touched),
{
    let mut index: usize = 0;
    while index < trees.len()
        invariant
            index <= trees.len(),
            clear_of(*dino, trees@, index as int),
        decreases trees.len() - index,
    {
        if dino.intersects(&trees[index].body) {
            return Some(index);
        }
        index = index + 1;
    }
    None
}

/// Ends the round if the dinosaur touches a tree.
///
/// The detector runs only on the play screen and only while the clock
/// runs; otherwise it reports nothing and changes nothing. When it runs it
/// reports the first tree that overlaps the dinosaur. On a hit the clock is
/// paused, the dinosaur is marked as over and the game-over screen is
/// requested. Without a hit, and without trees, nothing changes.
pub fn dino_touched_tree(
    dino: &mut Dino,
    trees: &Vec<Tree>,
    time: &mut VirtualClock,
    screens: &mut ScreenMachine,
) -> (touched: Option<usize>)
    ensures
        detector_runs(old(screens)@.current, old(time)@) ==> first_touched(
            old(dino).body,
            trees@,
            touched,
        ),
        !detector_runs(old(screens)@.current, old(time)@) ==> touched is None,
        touched is Some ==> {
            &&& final(time)@ == old(time)@.pause()
            &&& *final(dino) == (Dino { state: GameState::Over, ..*old(dino) })
            &&& final(screens)@ == old(screens)@.request(GameScreen::GameOverScreen)
        },
        touched is None ==> {
            &&& final(time)@ == old(time)@
            &&& *final(dino) == *old(dino)
            &&& final(screens)@ == old(screens)@
        },
{
    if screens.current() != GameScreen::PlayScreen || time.is_paused() {
        return None;
    }
    let touched = find_touched_tree(&dino.body, trees);
    if touched.is_some() {
        time.pause();
        dino.over();
        screens.request_transition(GameScreen::GameOverScreen);
    }
    touched
}

/// There is exactly one answer to which tree is touched first: two reports
/// for the same dinosaur and the same trees are the same report.
pub proof fn lemma_first_touched_is_unique(
    dino: Body,
    trees: Seq<Tree>,
    one: Option<usize>,
    other: Option<usize>,
)
    requires
        first_touched(dino, trees, one),
        first_touched(dino, trees, other),
    ensures
        one == other,
{
    match (one, other) {
        (Some(a), Some(b)) => {
            if a < b {
                assert(!dino.overlaps(trees[a as int].body));
            } else if b < a {
                assert(!dino.overlaps(trees[b as int].body));
            }
        },
        (Some(a), None) => {
            assert(!dino.overlaps(trees[a as int].body));
        },
        (None, Some(b)) => {
            assert(!dino.overlaps(trees[b as int].body));
        },
        (None, None) => {},
    }
}

/// Whether `input` resets a game whose dinosaur is `dino`: the dinosaur has
/// touched a tree and the player activates.
pub open spec fn reset_asked(dino: Dino, input: InputSnapshot) -> bool {
    dino.state == GameState::Over && input.activated()
}

/// Puts dinosaur and tree back for another round once the player asks for
/// it after a collision.
///
/// The dinosaur is ready again and stands at its rest height; the tree
/// starts over with its counters at zero and its centre one tree width left
/// of the distance `window_width` from the origin. Unless the dinosaur is
/// over and the player activates, nothing changes.
pub fn reset_game(dino: &mut Dino, tree: &mut Tree, input: &InputSnapshot, window_width: u32) -> (reset:
    bool)
    ensures
        reset == reset_asked(*old(dino), *input),
        reset ==> {
            &&& *final(dino) == (Dino {
                state: GameState::Ready,
                body: Body { y: old(dino).rest_y, ..old(dino).body },
                ..*old(dino)
            })
            &&& *final(tree) == (Tree {
                body: Body {
                    x: (window_width - old(tree).body.width) as i64,
                    ..old(tree).body
                },
                succeeded: 0,
                score: 0,
            })
        },
        !reset ==> *final(dino) == *old(dino) && *final(tree) == *old(tree),
{
    if dino.is_over() && input.is_activated() {
        dino.ready();
        dino.set_height(dino.rest_y);
        tree.start();
        tree.body.x = window_width as i64 - tree.body.width as i64;
        true
    } else {
        false
    }
}

} // verus!
