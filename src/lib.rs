//! Registry of off-screen rendering surfaces: pixel storage with dirty
//! tracking, focus exclusivity, and the transfer of frames to a consumer.

pub mod instance;
pub mod registry;
pub mod surface;
pub mod transfer;
pub mod types;

pub use types::{BrowserError, BrowserInfo, CefBounds, FrameData, KeyEvent, MouseEvent};
