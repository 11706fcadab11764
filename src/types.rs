//! Plain data exchanged with consumers of the registry.

use vstd::prelude::*;

verus! {

/// Position and size of a surface, in logical pixels.
#[derive(Debug, Clone, Copy, PartialEq, Eq, Structural)]
pub struct CefBounds {
    pub x: i32,
    pub y: i32,
    pub width: i32,
    pub height: i32,
}

/// Point-in-time description of one surface.
#[derive(Debug, Clone)]
pub struct BrowserInfo {
    pub id: String,
    pub url: String,
    pub bounds: CefBounds,
    pub is_loading: bool,
}

/// One frame handed to a consumer: `data` holds `width * height` pixels of
/// four bytes each, in the channel order that `format` names.
#[derive(Debug, Clone)]
pub struct FrameData {
    pub browser_id: String,
    pub width: u32,
    pub height: u32,
    pub format: String,
    pub data: Vec<u8>,
}

/// A pointer event bound for a surface. The wheel deltas are carried as the
/// bit patterns of 32-bit floats; the registry only forwards them.
#[derive(Debug, Clone)]
pub struct MouseEvent {
    pub x: i32,
    pub y: i32,
    pub button: i32,
    pub event_type: String,
    pub delta_x_bits: u32,
    pub delta_y_bits: u32,
    pub modifiers: u32,
}

/// A keyboard event bound for a surface.
#[derive(Debug, Clone)]
pub struct KeyEvent {
    pub key_code: i32,
    pub char_code: u32,
    pub event_type: String,
    pub modifiers: u32,
}

/// Why a registry operation failed; each carries the identifier it named.
#[derive(Debug, Clone)]
pub enum BrowserError {
    /// No live surface has this identifier.
    NotFound(String),
    /// A live surface already has this identifier.
    AlreadyExists(String),
}

} // verus!
