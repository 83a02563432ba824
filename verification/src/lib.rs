//! The behaviour of a small desktop cat: its mood machine, its intro walk,
//! the animation clock that drives both, and the helpers around them.
pub mod ai;
pub mod intro;
pub mod roll;
pub mod ket;
pub mod desktop;
