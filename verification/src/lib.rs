//! The core of a loop that watches the screen, runs an object detector on
//! each frame, picks the detection nearest to the centre of the view and
//! turns its position into a small movement of the pointer, gated by a hotkey
//! and a cooldown.
//!
//! The library holds the decisions and the arithmetic; the caller holds the
//! platform. Each part that has to wait for the outside world is a step
//! function: the caller reports what happened, the library says what the
//! state is now and what to do next. Every function is verified against its
//! contract, and the laws that tie several functions together are proof
//! functions beside them.
//!
//! Fractions are fixed-point numbers in thousandths: sensitivities, target
//! offsets, confidences, and durations (thousandths of a millisecond). Boxes
//! are in whole pixels; distances and movements are measured in half pixels,
//! so that the centre of a box and the centre of a frame of odd size are
//! exact. Time is a count of milliseconds that the caller reads from a clock
//! that does not run backwards.

pub mod capture;
pub mod config;
pub mod error;
pub mod inference;
pub mod input_listener;
pub mod model;
pub mod mouse_control;
pub mod orchestrator;
pub mod pixel;
pub mod region;
pub mod target;
pub mod text;
