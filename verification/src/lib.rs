//! A scheduled-effect runtime for an addressable LED strip.
//!
//! An animation is a pure transition function from an effect state to a new
//! state and a short list of pixel actions. The runtime applies those actions
//! to an in-memory frame buffer, hands each frame to a renderer owned by the
//! caller, and computes drift-free periodic deadlines: each deadline is the
//! previous deadline plus a fixed period, never "now plus period".

pub mod action;
pub mod blink;
pub mod color;
pub mod effect;
pub mod engine;
pub mod frame;
pub mod schedule;

pub use action::Action;
pub use blink::{Blink, Phase};
pub use color::Color;
pub use effect::{Bounce, BounceState, Direction, Effect};
pub use engine::Engine;
pub use frame::FrameBuffer;
pub use schedule::Schedule;
