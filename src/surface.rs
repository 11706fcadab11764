//! Pixel storage for one surface, with a dirty flag.

use vstd::prelude::*;

verus! {

/// Bytes per pixel of a stored frame.
pub const BYTES_PER_PIXEL: usize = 4;

/// Length in bytes of a frame of `w` by `h` pixels.
pub open spec fn frame_len(w: int, h: int) -> int {
    w * h * 4
}

/// A frame of `n` zero bytes.
pub open spec fn zeroed(n: int) -> Seq<u8> {
    Seq::new(n as nat, |i: int| 0u8)
}

/// What a surface holds, as plain values.
pub struct SurfaceView {
    pub data: Seq<u8>,
    pub width: u32,
    pub height: u32,
    pub dirty: bool,
}

/// One rectangular pixel buffer plus a flag telling whether it holds
/// content that no consumer has seen yet.
pub struct FrameBuffer {
    data: Vec<u8>,
    width: u32,
    height: u32,
    dirty: bool,
}

/// The buffer holds exactly one frame of the recorded size.
pub open spec fn holds_one_frame(v: SurfaceView) -> bool {
    v.data.len() == frame_len(v.width as int, v.height as int)
}

/// The surface after a resize to `w` by `h`.
pub open spec fn resized(w: u32, h: u32) -> SurfaceView {
    SurfaceView { data: zeroed(frame_len(w as int, h as int)), width: w, height: h, dirty: true }
}

/// The surface after a write of `bytes` declared as `w` by `h` pixels: a
/// write too short for that size changes nothing.
pub open spec fn written(v: SurfaceView, bytes: Seq<u8>, w: u32, h: u32) -> SurfaceView {
    if bytes.len() < frame_len(w as int, h as int) {
        v
    } else {
        SurfaceView {
            data: bytes.subrange(0, frame_len(w as int, h as int)),
            width: w,
            height: h,
            dirty: true,
        }
    }
}

/// The surface after a consumer has looked at it.
pub open spec fn taken(v: SurfaceView) -> SurfaceView {
    SurfaceView { dirty: false, ..v }
}

/// What a consumer receives on looking at the surface: the frame and its
/// size if it is dirty, nothing otherwise.
pub open spec fn delivered(v: SurfaceView) -> Option<(Seq<u8>, u32, u32)> {
    if v.dirty {
        Some((v.data, v.width, v.height))
    } else {
        None
    }
}

/// Looking at a surface twice in a row delivers the frame the first time,
/// if there is a new one, and nothing the second time.
pub proof fn lemma_take_twice(v: SurfaceView)
    ensures
        v.dirty ==> delivered(v) == Some((v.data, v.width, v.height)),
        delivered(taken(v)) is None,
        taken(taken(v)) == taken(v),
{
}

/// Every resize and every write leaves a buffer of exactly one frame.
pub proof fn lemma_one_frame_kept(v: SurfaceView, bytes: Seq<u8>, w: u32, h: u32)
    requires
        holds_one_frame(v),
    ensures
        holds_one_frame(resized(w, h)),
        holds_one_frame(written(v, bytes, w, h)),
        holds_one_frame(taken(v)),
{
}

/// A write with fewer bytes than the declared size asks for leaves the
/// content, the size and the dirty flag as they were.
pub proof fn lemma_short_write_rejected(v: SurfaceView, bytes: Seq<u8>, w: u32, h: u32)
    requires
        bytes.len() < frame_len(w as int, h as int),
    ensures
        written(v, bytes, w, h) == v,
{
}

impl View for FrameBuffer {
    type V = SurfaceView;

    closed spec fn view(&self) -> SurfaceView {
        SurfaceView { data: self.data@, width: self.width, height: self.height, dirty: self.dirty }
    }
}

impl FrameBuffer {
    /// The buffer holds exactly one frame of the current size.
    pub open spec fn wf(&self) -> bool {
        holds_one_frame(self@)
    }

    /// A clean surface of `width` by `height` pixels, all bytes zero.
    pub fn new(width: u32, height: u32) -> (r: FrameBuffer)
        requires
            frame_len(width as int, height as int) <= usize::MAX,
        ensures
            r.wf(),
            r@.width == width,
            r@.height == height,
            r@.data == zeroed(frame_len(width as int, height as int)),
            !r@.dirty,
    {
        let data = zero_filled(width, height);
        FrameBuffer { data, width, height, dirty: false }
    }

    /// Reallocates to `width` by `height` pixels, all bytes zero. A resize
    /// is a visible change: the surface becomes dirty.
    pub fn resize(&mut self, width: u32, height: u32)
        requires
            frame_len(width as int, height as int) <= usize::MAX,
        ensures
            final(self).wf(),
            final(self)@ == resized(width, height),
    {
        self.data = zero_filled(width, height);
        self.width = width;
        self.height = height;
        self.dirty = true;
    }

    /// Adopts a frame of `width` by `height` pixels from the front of
    /// `buffer`. A buffer too short for that size is rejected and the
    /// surface is left exactly as it was; otherwise the surface takes the
    /// new size, holds the first `width * height * 4` bytes, and is dirty.
    pub fn update(&mut self, buffer: &[u8], width: u32, height: u32)
        ensures
            final(self)@ == written(old(self)@, buffer@, width, height),
            old(self).wf() ==> final(self).wf(),
    {
        assert(width as int * height as int <= 0xffff_ffff * 0xffff_ffff) by (nonlinear_arith);
        let wide: u128 = (width as u128) * (height as u128) * (BYTES_PER_PIXEL as u128);
        if (buffer.len() as u128) >= wide {
            let size: usize = wide as usize;
            self.data = copy_prefix(buffer, size);
            self.width = width;
            self.height = height;
            self.dirty = true;
        }
    }

    /// Hands out a copy of the frame and its size if the surface is dirty,
    /// and clears the flag; a clean surface yields `None`.
    pub fn take_if_dirty(&mut self) -> (r: Option<(Vec<u8>, u32, u32)>)
        ensures
            final(self)@ == taken(old(self)@),
            match r {
                Some((d, w, h)) => delivered(old(self)@) == Some((d@, w, h)),
                None => delivered(old(self)@) is None,
            },
    {
        if self.dirty {
            self.dirty = false;
            let n: usize = self.data.len();
            Some((copy_prefix(self.data.as_slice(), n), self.width, self.height))
        } else {
            None
        }
    }
}

/// A new vector holding the first `n` bytes of `src`.
fn copy_prefix(src: &[u8], n: usize) -> (r: Vec<u8>)
    requires
        n <= src@.len(),
    ensures
        r@ == src@.subrange(0, n as int),
{
    let mut r: Vec<u8> = Vec::with_capacity(n);
    let mut i: usize = 0;
    while i < n
        invariant
            i <= n <= src@.len(),
            r@ == src@.subrange(0, i as int),
        decreases n - i,
    {
        r.push(src[i]);
        i = i + 1;
        assert(r@ =~= src@.subrange(0, i as int));
    }
    r
}

/// A vector of zero bytes, one frame of `width` by `height` pixels long.
fn zero_filled(width: u32, height: u32) -> (r: Vec<u8>)
    requires
        frame_len(width as int, height as int) <= usize::MAX,
    ensures
        r@ == zeroed(frame_len(width as int, height as int)),
{
    assert(width as int * height as int * 4 <= usize::MAX);
    let size: usize = (width as usize) * (height as usize) * BYTES_PER_PIXEL;
    let r: Vec<u8> = vec![0u8; size];
    assert(r@ =~= zeroed(size as int));
    r
}

} // verus!
