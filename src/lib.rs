//! A solid-colour frame generator and the decisions of its frame loop.
//!
//! `fill` writes one colour into every pixel of a 24-bit RGB buffer with a row
//! stride, `rng` models the state of the xorshift generator that colours
//! come from, `scene` draws a fresh colour from a seeded generator for each frame,
//! and `driver` holds the frame budget, the sleep after a frame and the
//! running/stopped state machine.
pub mod fill;
pub mod rng;
pub mod scene;
pub mod driver;
