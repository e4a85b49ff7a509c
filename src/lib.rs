//! An on-screen frames-per-second overlay for Bevy, reduced to the state
//! machine that decides when its text element exists and when its value is
//! refreshed.
//!
//! The host hands each update tick the time that passed and the freshly
//! formatted metric value, if any; [`update`] answers with the one [`Step`]
//! that the host performs on its scene.

pub mod overlay;
pub mod text;
pub mod timer;

pub use overlay::{update, ScreenDiagsTimer, Step, StepView};
pub use text::{spawn_text, OverlayText, LABEL, PLACEHOLDER};
pub use timer::{RefreshTimer, UPDATE_INTERVAL_NANOS};
