//! Colourised, timestamped, levelled log lines written to a terminal and a
//! file at once, with a first-caller-wins initialisation gate.

pub mod clock;
pub mod gate;
pub mod line;
pub mod paint;
pub mod severity;
pub mod text;

pub use severity::{admits, Severity, FLOOR};
pub use text::{decimal, padded};
