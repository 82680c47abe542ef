//! Digital-signal-processing core of a lock-in amplifier instrument.
//!
//! The crate recovers the frequency and phase of a reference signal, demodulates
//! an input signal against that reference, and filters the result, using only
//! fixed-point integer arithmetic: angle and frequency values wrap modulo one
//! turn by design, and filter outputs saturate to a configured range.

pub mod accu;
pub mod convert;
pub mod iir_int;
pub mod lockin;
pub mod pll;
pub mod rpll;
pub mod settings;
pub mod stream;
pub mod timers;
pub mod trig;

pub use accu::Accu;
pub use lockin::Complex;
pub use lockin::Lockin;
pub use pll::PLL;
pub use rpll::RPLL;
pub use trig::atan2;
pub use trig::cossin;
