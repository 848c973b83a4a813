//! Driver logic of an ASCOM Alpaca server for QHYCCD cameras and filter
//! wheels: the decisions the driver takes between device calls, the
//! region-of-interest and binning arithmetic, the conversion of raw frames
//! into image arrays, and the resolution of the log level.
//!
//! Device I/O lives outside this crate: a caller performs the device call a
//! function asks for and hands the reply back as a plain value.

pub mod error;
pub mod text;
pub mod log_level;
pub mod filter_wheel;
pub mod camera;
pub mod server;

pub use filter_wheel::new_filter_wheel;
pub use camera::setup::new_camera;
pub use log_level::resolve_log_level;
