//! Moving frames to a consumer: batching, channel-order conversion and
//! coalescing of changed regions.

use vstd::prelude::*;
use crate::types::FrameData;

verus! {

/// The bytes to send for `frame`: its pixels as they are, uncompressed.
pub fn compress_frame(frame: &FrameData) -> (r: Vec<u8>)
    ensures
        r@ == frame.data@,
{
    let n: usize = frame.data.len();
    let mut r: Vec<u8> = Vec::with_capacity(n);
    let mut i: usize = 0;
    while i < n
        invariant
            i <= n == frame.data@.len(),
            r@ == frame.data@.subrange(0, i as int),
        decreases n - i,
    {
        r.push(frame.data[i]);
        i = i + 1;
        assert(r@ =~= frame.data@.subrange(0, i as int));
    }
    assert(r@ =~= frame.data@);
    r
}

/// Number of bytes that belong to whole four-byte pixels.
pub open spec fn whole_pixels_len(n: int) -> int {
    n - n % 4
}

/// Byte `i` of `s` after channels 0 and 2 of every whole pixel have been
/// exchanged.
pub open spec fn swapped_at(s: Seq<u8>, i: int) -> u8 {
    if i < whole_pixels_len(s.len() as int) && i % 4 == 0 {
        s[i + 2]
    } else if i < whole_pixels_len(s.len() as int) && i % 4 == 2 {
        s[i - 2]
    } else {
        s[i]
    }
}

/// `s` with channels 0 and 2 of every whole pixel exchanged (BGRA to RGBA
/// and back); bytes after the last whole pixel stay as they are.
pub open spec fn swapped(s: Seq<u8>) -> Seq<u8> {
    Seq::new(s.len(), |i: int| swapped_at(s, i))
}

/// Converting the channel order twice gives back the original bytes.
pub proof fn lemma_swap_involution(s: Seq<u8>)
    ensures
        swapped(swapped(s)) == s,
{
    assert(swapped(swapped(s)) =~= s);
}

/// Exchanges channels 0 and 2 of every four-byte pixel in place.
pub fn bgra_to_rgba(data: &mut [u8])
    ensures
        final(data)@ == swapped(old(data)@),
{
    let n: usize = data.len();
    let end: usize = n - n % 4;
    let mut i: usize = 0;
    while i < end
        invariant
            n == data@.len() == old(data)@.len(),
            end == whole_pixels_len(n as int),
            i <= end,
            i % 4 == 0,
            forall|j: int| 0 <= j < i ==> #[trigger] data@[j] == swapped_at(old(data)@, j),
            forall|j: int| i <= j < n ==> #[trigger] data@[j] == old(data)@[j],
        decreases end - i,
    {
        let b: u8 = data[i];
        let r: u8 = data[i + 2];
        data[i] = r;
        data[i + 2] = b;
        i = i + 4;
    }
    assert(data@ =~= swapped(old(data)@));
}

/// Total byte count of the frames in `frames`.
pub open spec fn bytes_of(frames: Seq<FrameData>) -> int
    decreases frames.len(),
{
    if frames.len() == 0 {
        0
    } else {
        bytes_of(frames.drop_last()) + frames.last().data@.len()
    }
}

/// The frames of one transfer round, with their total byte count.
pub struct FrameBatch {
    pub frames: Vec<FrameData>,
    pub total_bytes: usize,
}

impl FrameBatch {
    /// The running total matches the frames held.
    pub open spec fn wf(&self) -> bool {
        self.total_bytes == bytes_of(self.frames@)
    }

    /// An empty batch.
    pub fn new() -> (r: FrameBatch)
        ensures
            r.wf(),
            r.frames@.len() == 0,
            r.total_bytes == 0,
    {
        FrameBatch { frames: Vec::new(), total_bytes: 0 }
    }

    /// Appends `frame` and adds its byte count to the total.
    pub fn add(&mut self, frame: FrameData)
        requires
            old(self).total_bytes + frame.data@.len() <= usize::MAX,
        ensures
            final(self).frames@ == old(self).frames@.push(frame),
            final(self).total_bytes == old(self).total_bytes + frame.data@.len(),
            old(self).wf() ==> final(self).wf(),
    {
        self.total_bytes = self.total_bytes + frame.data.len();
        self.frames.push(frame);
        assert(self.frames@.drop_last() =~= old(self).frames@);
    }

    /// Whether the batch holds no frame.
    pub fn is_empty(&self) -> (r: bool)
        ensures
            r == (self.frames@.len() == 0),
    {
        self.frames.len() == 0
    }
}

/// An axis-aligned rectangle that changed.
#[derive(Debug, Clone)]
pub struct DirtyRect {
    pub x: u32,
    pub y: u32,
    pub width: u32,
    pub height: u32,
}

/// The rectangle's right and bottom edges fit in `u32`.
pub open spec fn edges_fit(r: DirtyRect) -> bool {
    r.x + r.width <= u32::MAX && r.y + r.height <= u32::MAX
}

/// Whether the point `(px, py)` lies in `r`.
pub open spec fn covers(r: DirtyRect, px: int, py: int) -> bool {
    r.x <= px < r.x + r.width && r.y <= py < r.y + r.height
}

/// The smaller of two integers.
pub open spec fn min_of(a: int, b: int) -> int {
    if a <= b { a } else { b }
}

/// The larger of two integers.
pub open spec fn max_of(a: int, b: int) -> int {
    if a >= b { a } else { b }
}

/// The bounding box of `a` and `b`.
pub open spec fn merged(a: DirtyRect, b: DirtyRect) -> DirtyRect {
    let x = min_of(a.x as int, b.x as int);
    let y = min_of(a.y as int, b.y as int);
    let right = max_of(a.x + a.width, b.x + b.width);
    let bottom = max_of(a.y + a.height, b.y + b.height);
    DirtyRect { x: x as u32, y: y as u32, width: (right - x) as u32, height: (bottom - y) as u32 }
}

/// Every point of `a` and every point of `b` lies in their merge.
pub proof fn lemma_merge_covers(a: DirtyRect, b: DirtyRect, px: int, py: int)
    requires
        edges_fit(a),
        edges_fit(b),
    ensures
        covers(a, px, py) ==> covers(merged(a, b), px, py),
        covers(b, px, py) ==> covers(merged(a, b), px, py),
        edges_fit(merged(a, b)),
{
}

/// No rectangle that holds both `a` and `b` (each with at least one point)
/// is smaller than their merge: it holds every point of the merge.
pub proof fn lemma_merge_smallest(a: DirtyRect, b: DirtyRect, c: DirtyRect, px: int, py: int)
    requires
        edges_fit(a),
        edges_fit(b),
        a.width > 0 && a.height > 0,
        b.width > 0 && b.height > 0,
        forall|qx: int, qy: int| covers(a, qx, qy) ==> #[trigger] covers(c, qx, qy),
        forall|qx: int, qy: int| covers(b, qx, qy) ==> #[trigger] covers(c, qx, qy),
        covers(merged(a, b), px, py),
    ensures
        covers(c, px, py),
{
    assert(covers(c, a.x as int, a.y as int));
    assert(covers(c, (a.x + a.width - 1) as int, (a.y + a.height - 1) as int));
    assert(covers(c, b.x as int, b.y as int));
    assert(covers(c, (b.x + b.width - 1) as int, (b.y + b.height - 1) as int));
}

impl DirtyRect {
    /// The whole of a `width` by `height` frame.
    pub fn full(width: u32, height: u32) -> (r: DirtyRect)
        ensures
            r == (DirtyRect { x: 0, y: 0, width, height }),
    {
        DirtyRect { x: 0, y: 0, width, height }
    }

    /// The smallest rectangle that holds both `self` and `other`.
    pub fn merge(&self, other: &DirtyRect) -> (r: DirtyRect)
        requires
            edges_fit(*self),
            edges_fit(*other),
        ensures
            r == merged(*self, *other),
    {
        let x: u32 = if self.x <= other.x { self.x } else { other.x };
        let y: u32 = if self.y <= other.y { self.y } else { other.y };
        let ra: u32 = self.x + self.width;
        let rb: u32 = other.x + other.width;
        let right: u32 = if ra >= rb { ra } else { rb };
        let ba: u32 = self.y + self.height;
        let bb: u32 = other.y + other.height;
        let bottom: u32 = if ba >= bb { ba } else { bb };
        DirtyRect { x, y, width: right - x, height: bottom - y }
    }
}

} // verus!
