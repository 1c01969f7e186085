//! Progress bars whose permitted operations are fixed by their types, the
//! text they render, and the pixel-grid and event-counter logic of two small
//! rendering demos.

pub mod bar;
pub mod progress;
pub mod progress_two;
pub mod progress_three;
pub mod pixels;
pub mod events;
