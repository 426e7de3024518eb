//! Driver logic for the JHD1313M1 character display: an HD44780-compatible
//! text controller and an RGB backlight controller that share one I2C bus.
//!
//! The driver itself performs no bus transfer. Every operation returns the
//! ordered list of [`Effect`]s (two-byte writes and hold-off delays) that the
//! embedding application has to carry out, and a [`Transaction`] decides,
//! from the outcome of each effect, what is to be done next.

pub mod display;
pub mod laws;
pub mod protocol;
pub mod transaction;

pub use display::JHD1313M1;
pub use protocol::Effect;
pub use transaction::{Action, Outcome, Progress, Transaction, TransportFailure};
