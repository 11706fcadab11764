//! One off-screen surface: its identifier, address, bounds, pixels and
//! load and focus state.

use vstd::prelude::*;
use crate::surface::{FrameBuffer, SurfaceView, resized, taken, delivered, written, holds_one_frame, frame_len};
use crate::types::{BrowserInfo, CefBounds, FrameData, KeyEvent, MouseEvent};

verus! {

/// Smallest width and height a surface is given, in pixels.
pub const MIN_DIM: i32 = 100;

/// Name of the channel order in which surfaces store pixels ("BGRA8").
pub open spec fn native_format() -> Seq<char> {
    seq!['B', 'G', 'R', 'A', '8']
}

/// A requested width or height, raised to the minimum.
pub open spec fn clamp_dim(v: i32) -> u32 {
    if v < 100 {
        100u32
    } else {
        v as u32
    }
}

/// What an instance holds, as plain values.
pub struct InstanceView {
    pub id: Seq<char>,
    pub url: Seq<char>,
    pub bounds: CefBounds,
    pub surface: SurfaceView,
    pub is_loading: bool,
    pub is_focused: bool,
}

/// A new instance: loading, not focused, with a zeroed frame of the clamped
/// size that is ready to be pulled.
pub open spec fn fresh(id: Seq<char>, url: Seq<char>, bounds: CefBounds) -> InstanceView {
    InstanceView {
        id,
        url,
        bounds,
        surface: resized(clamp_dim(bounds.width), clamp_dim(bounds.height)),
        is_loading: true,
        is_focused: false,
    }
}

/// `v` moved or resized to `bounds`; the surface is reallocated to the
/// clamped size.
pub open spec fn rebounded(v: InstanceView, bounds: CefBounds) -> InstanceView {
    InstanceView {
        bounds,
        surface: resized(clamp_dim(bounds.width), clamp_dim(bounds.height)),
        ..v
    }
}

/// `v` pointed at `url`.
pub open spec fn navigated(v: InstanceView, url: Seq<char>) -> InstanceView {
    InstanceView { url, ..v }
}

/// `v` with its focus flag set to `focused`.
pub open spec fn with_focus(v: InstanceView, focused: bool) -> InstanceView {
    InstanceView { is_focused: focused, ..v }
}

/// `v` after a consumer has pulled its frame.
pub open spec fn pulled(v: InstanceView) -> InstanceView {
    InstanceView { surface: taken(v.surface), ..v }
}

/// `f` is the frame that pulling `v` hands out.
pub open spec fn frame_of(v: InstanceView, f: FrameData) -> bool {
    &&& delivered(v.surface) == Some((f.data@, f.width, f.height))
    &&& f.browser_id@ == v.id
    &&& f.format@ == native_format()
}

/// `i` describes `v`.
pub open spec fn info_of(v: InstanceView, i: BrowserInfo) -> bool {
    &&& i.id@ == v.id
    &&& i.url@ == v.url
    &&& i.bounds == v.bounds
    &&& i.is_loading == v.is_loading
}

/// Whatever width and height are asked for, at creation or on a resize, the
/// surface gets at least the minimum in each: `max(w, 100)` by `max(h, 100)`.
pub proof fn lemma_clamped_size(id: Seq<char>, url: Seq<char>, v: InstanceView, bounds: CefBounds)
    ensures
        fresh(id, url, bounds).surface.width as int == if bounds.width < 100 { 100 } else { bounds.width as int },
        fresh(id, url, bounds).surface.height as int == if bounds.height < 100 { 100 } else { bounds.height as int },
        rebounded(v, bounds).surface.width == fresh(id, url, bounds).surface.width,
        rebounded(v, bounds).surface.height == fresh(id, url, bounds).surface.height,
        holds_one_frame(fresh(id, url, bounds).surface),
        holds_one_frame(rebounded(v, bounds).surface),
{
}

/// One surface and what is known about it.
pub struct OsrBrowserInstance {
    id: String,
    url: String,
    bounds: CefBounds,
    frame_buffer: FrameBuffer,
    is_loading: bool,
    is_focused: bool,
}

impl View for OsrBrowserInstance {
    type V = InstanceView;

    closed spec fn view(&self) -> InstanceView {
        InstanceView {
            id: self.id@,
            url: self.url@,
            bounds: self.bounds,
            surface: self.frame_buffer@,
            is_loading: self.is_loading,
            is_focused: self.is_focused,
        }
    }
}

/// A requested width or height, raised to the minimum.
fn clamp(v: i32) -> (r: u32)
    ensures
        r == clamp_dim(v),
{
    if v < MIN_DIM {
        MIN_DIM as u32
    } else {
        v as u32
    }
}

/// A frame of the clamped size of `b` can be held in memory.
pub open spec fn fits(b: CefBounds) -> bool {
    frame_len(clamp_dim(b.width) as int, clamp_dim(b.height) as int) <= usize::MAX
}

impl OsrBrowserInstance {
    /// A new instance for `id` showing `url` within `bounds`.
    pub fn new(id: &str, url: &str, bounds: CefBounds) -> (r: OsrBrowserInstance)
        requires
            fits(bounds),
        ensures
            r@ == fresh(id@, url@, bounds),
    {
        let width: u32 = clamp(bounds.width);
        let height: u32 = clamp(bounds.height);
        let mut frame_buffer = FrameBuffer::new(width, height);
        frame_buffer.resize(width, height);
        OsrBrowserInstance {
            id: id.to_owned(),
            url: url.to_owned(),
            bounds,
            frame_buffer,
            is_loading: true,
            is_focused: false,
        }
    }

    /// Releases the instance and its pixel storage.
    pub fn close(self) {
    }

    /// Moves or resizes the instance; the surface is reallocated to the
    /// clamped size at once, so bounds and pixels never disagree.
    pub fn update_bounds(&mut self, bounds: CefBounds)
        requires
            fits(bounds),
        ensures
            final(self)@ == rebounded(old(self)@, bounds),
    {
        let width: u32 = clamp(bounds.width);
        let height: u32 = clamp(bounds.height);
        self.bounds = bounds;
        self.frame_buffer.resize(width, height);
    }

    /// Points the instance at `url`.
    pub fn navigate(&mut self, url: &str)
        ensures
            final(self)@ == navigated(old(self)@, url@),
    {
        self.url = url.to_owned();
    }

    /// Stores a painted frame of `width` by `height` pixels; see
    /// `FrameBuffer::update` for when it is rejected.
    pub fn paint(&mut self, buffer: &[u8], width: u32, height: u32)
        ensures
            final(self)@ == (InstanceView {
                surface: written(old(self)@.surface, buffer@, width, height),
                ..old(self)@
            }),
    {
        self.frame_buffer.update(buffer, width, height);
    }

    /// The latest frame, if it has not been pulled yet.
    pub fn get_frame(&mut self) -> (r: Option<FrameData>)
        ensures
            final(self)@ == pulled(old(self)@),
            match r {
                Some(f) => frame_of(old(self)@, f),
                None => delivered(old(self)@.surface) is None,
            },
    {
        match self.frame_buffer.take_if_dirty() {
            Some((data, width, height)) => {
                let format = "BGRA8".to_owned();
                proof {
                    reveal_strlit("BGRA8");
                }
                assert(format@ =~= native_format());
                Some(FrameData { browser_id: self.id.clone(), width, height, format, data })
            },
            None => None,
        }
    }

    /// Hands a pointer event to the rendering backend.
    pub fn send_mouse_event(&self, event: MouseEvent) {
    }

    /// Hands a keyboard event to the rendering backend.
    pub fn send_key_event(&self, event: KeyEvent) {
    }

    /// Sets the focus flag of this instance alone.
    pub fn set_focus(&mut self, focused: bool)
        ensures
            final(self)@ == with_focus(old(self)@, focused),
    {
        self.is_focused = focused;
    }

    /// Whether the instance has input focus.
    pub fn is_focused(&self) -> (r: bool)
        ensures
            r == self@.is_focused,
    {
        self.is_focused
    }

    /// A description of the instance as it is now.
    pub fn get_info(&self) -> (r: BrowserInfo)
        ensures
            info_of(self@, r),
    {
        BrowserInfo {
            id: self.id.clone(),
            url: self.url.clone(),
            bounds: self.bounds,
            is_loading: self.is_loading,
        }
    }
}

} // verus!
