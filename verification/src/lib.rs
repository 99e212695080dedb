//! A terminal Pomodoro timer as a library: the session schedule, the
//! countdown, the frames it draws and the wall-clock window of each interval.

pub mod config;
pub mod schedule;
pub mod engine;
pub mod glyph;
pub mod text;
pub mod clock;
pub mod frame;
pub mod run;
pub mod prompt;
