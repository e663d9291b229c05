//! Decision logic for a small indicator-and-display board.
//!
//! Two independent owners drive the hardware: a [`sequencer::Sequencer`] that
//! steps two output pins through a three-phase pattern, and a
//! [`renderer::Renderer`] that cycles a list of text frames through the
//! clear, draw, flush, hold protocol of a buffered monochrome display.
//! Both are written as state machines: the host performs the operation that
//! is pending and reports how it went, the machine answers with the next one.

pub mod display;
pub mod fault;
pub mod host;
pub mod renderer;
pub mod sequencer;
