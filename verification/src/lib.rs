//! Core of a minimal two-player Pong simulation: one ball, two paddles,
//! a ceiling and a floor the ball reflects off, and two cosmetic side walls.
//!
//! All quantities are exact fixed-point integers: positions and lengths are
//! held in thousandths of a world unit ("milliunits"), elapsed time in
//! milliseconds, and velocity components in whole units. With these scales
//! every per-tick update is exact integer arithmetic.
//!
//! The windowing, rendering and input-device host is out of scope: it samples
//! keys into an [`input::InputState`], measures the elapsed milliseconds, and
//! reads entity positions back to draw them. The simulation itself advances
//! one [`sim::tick`] at a time.

pub mod entities;
pub mod input;
pub mod sim;
