//! Platform layer of a screen-capture library: it discovers which on-screen
//! surfaces (displays, windows) can be captured, checks and requests the
//! screen-recording permission, and resolves per-display metadata (main
//! display, pixel-to-logical scale factor).
//!
//! The OS queries themselves (ScreenCaptureKit, CoreGraphics) are platform
//! glue and live outside this crate; this crate holds the decisions made on
//! their answers, each with a proved contract.

pub mod decimal;
pub mod display;
pub mod error;
pub mod targets;
pub mod version;

pub use display::{get_main_display, get_scale_factor};
pub use error::EnvError;
pub use targets::{get_targets, DisplayInfo, Target, TargetType, WindowInfo};
pub use version::{is_supported, lex_ge, lex_lt, min_version_spec, version_at_least};
