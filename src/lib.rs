//! Scoreboard sampling: the decisions of a window capture (fullscreen
//! redirection, error reporting, release of device resources), bitmap
//! framing of the captured pixels, region preprocessing, and a debouncer
//! that turns noisy per-sample game states into a trusted one.

pub mod bitmap;
pub mod capture;
pub mod frame;
pub mod session;
pub mod state;
