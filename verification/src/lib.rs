//! Verified core of a side-scrolling jump-and-dodge game: the pausable
//! virtual clock, the screen state machine, the input arbiter, the jump
//! timing, the obstacle scroller with its saturating difficulty curve, the
//! collision test, and the order in which a tick runs them.
//!
//! Every length is an integer number of world units and every time an
//! integer number of nanoseconds; the caller chooses how many world units
//! make a pixel. Fractions are thousandths. The two numbers that need a
//! sine or a logarithm, the phase of a jump and the hardness of the game,
//! come from the caller in thousandths.

pub mod clock;
pub mod components;
pub mod debug;
pub mod dino;
pub mod game;
pub mod game_control;
pub mod game_logic;
pub mod geometry;
pub mod resources;
pub mod screens;
pub mod service;
pub mod tree;
