//! A steppable cellular-automaton engine: a toroidal grid of binary cells
//! advanced under Conway's rule, with population bookkeeping, playback
//! control signals, frame pacing and terminal-text rendering helpers.

pub mod biosquare;
pub mod cell;
pub mod cli;
pub mod filter;
pub mod genesis;
pub mod lensfilter;
pub mod matrix;
pub mod ndarray;
pub mod rng;
pub mod screen;
pub mod signal;
pub mod term;
pub mod text;
pub mod timer;

pub use biosquare::BioSquare;
pub use cell::Cell;
pub use matrix::Matrix;
