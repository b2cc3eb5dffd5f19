//! Window tracking and render synchronisation for a transparent overlay.
//!
//! An always-on-top, click-through window follows the window of a target
//! application and shows a short status label over it. This crate holds
//! every decision of that overlay:
//!
//! - `locator`: which top-level window is the target,
//! - `sync`: what happens to the overlay window on each tick,
//! - `render`: what a repaint draws,
//! - `state`: the shared state that the ticks, the repaints, the hotkeys
//!   and the settings window read and change,
//! - `events`: what each event of the two windows leads to,
//! - `system`: all of these as one state machine, and what holds of every
//!   state it reaches,
//! - `geometry`, `color`, `text`, `utf16`: the values they work with.
//!
//! Every function is a function of plain values. The program around the
//! library makes the calls on the window system, hands their results in,
//! and carries out what comes back.

pub mod color;
pub mod events;
pub mod geometry;
pub mod locator;
pub mod render;
pub mod state;
pub mod sync;
pub mod system;
pub mod text;
pub mod utf16;
