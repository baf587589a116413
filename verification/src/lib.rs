//! A small polyphonic synthesizer core.
//!
//! Audio is computed in Q16 fixed point: the value `ONE` (65536) stands for
//! the real number 1.0. Levels, seconds, volumes and samples are all carried
//! as `i64` multiples of 1/65536; oscillator phase is a Q32 fraction of one
//! cycle. Control messages travel from producers to the render context over
//! a bounded FIFO bus.

pub mod fixed;
pub mod note;
pub mod adsr;
pub mod osc;
pub mod filter;
pub mod bus;
pub mod engine;
pub mod render;
pub mod ui;

pub use fixed::ONE;
