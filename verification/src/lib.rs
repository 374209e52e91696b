//! Core logic for a puzzle-solving stopwatch display: a dual stopwatch state
//! machine driven by solving events, exact duration formatting, and a
//! font-size fitter that shrinks text to a pixel budget.

pub mod autosize;
pub mod duration;
pub mod timer;
