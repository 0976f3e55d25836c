//! A terminal Game of Life: a toroidal cellular automaton with double-buffered
//! generations, and the window and command layer that turns key presses and
//! timer ticks into edits of the grid and requests to the application loop.

pub mod app;
pub mod event;
pub mod geometry;
pub mod help_window;
pub mod life;
pub mod life_window;
pub mod rng;
pub mod widgets;
pub mod window;
