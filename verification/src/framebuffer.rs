//! The framebuffer: a packed-pixel color buffer with a parallel depth
//! buffer, a depth-tested pixel write, and a full clear.

use vstd::prelude::*;
use vstd::arithmetic::mul::lemma_mul_inequality;

verus! {

/// The farthest representable depth; `clear` resets every depth entry to it.
pub const DEPTH_FAR: i64 = i64::MAX;

pub struct Framebuffer {
    pub width: usize,
    pub height: usize,
    pub buffer: Vec<u32>,
    pub depth_buffer: Vec<i64>,
    pub background_color: u32,
    pub current_color: u32,
}

/// Both buffers hold exactly one entry per pixel.
pub open spec fn fb_wf(fb: Framebuffer) -> bool {
    &&& fb.buffer@.len() == (fb.width as int) * (fb.height as int)
    &&& fb.depth_buffer@.len() == (fb.width as int) * (fb.height as int)
}

/// A write at (x, y) with this depth is accepted: the pixel is in bounds and
/// the incoming depth is strictly nearer than the stored one.
pub open spec fn depth_accepts(dep: Seq<i64>, w: int, h: int, x: int, y: int, depth: i64) -> bool {
    &&& 0 <= x < w
    &&& 0 <= y < h
    &&& depth < dep[y * w + x]
}

/// The color buffer after a depth-tested write of `color` at (x, y).
pub open spec fn point_buf_spec(
    buf: Seq<u32>,
    dep: Seq<i64>,
    w: int,
    h: int,
    color: u32,
    x: int,
    y: int,
    depth: i64,
) -> Seq<u32> {
    if depth_accepts(dep, w, h, x, y, depth) {
        buf.update(y * w + x, color)
    } else {
        buf
    }
}

/// The depth buffer after the same write.
pub open spec fn point_dep_spec(
    dep: Seq<i64>,
    w: int,
    h: int,
    x: int,
    y: int,
    depth: i64,
) -> Seq<i64> {
    if depth_accepts(dep, w, h, x, y, depth) {
        dep.update(y * w + x, depth)
    } else {
        dep
    }
}

/// A pixel's row-major index lies inside the buffer.
pub proof fn lemma_row_major_index(x: int, y: int, w: int, h: int)
    requires
        0 <= x < w,
        0 <= y < h,
    ensures
        0 <= y * w + x < w * h,
{
    assert(y * w + x < w * h) by (nonlinear_arith)
        requires
            0 <= x < w,
            0 <= y < h,
    ;
    assert(y * w >= 0) by (nonlinear_arith)
        requires
            y >= 0,
            w > 0,
    ;
}

fn filled_u32(n: usize, v: u32) -> (out: Vec<u32>)
    ensures
        out@.len() == n,
        forall|i: int| 0 <= i < n ==> out@[i] == v,
{
    let mut out: Vec<u32> = Vec::new();
    let mut i: usize = 0;
    while i < n
        invariant
            i <= n,
            out@.len() == i,
            forall|j: int| 0 <= j < i ==> out@[j] == v,
        decreases n - i,
    {
        out.push(v);
        i = i + 1;
    }
    out
}

fn filled_i64(n: usize, v: i64) -> (out: Vec<i64>)
    ensures
        out@.len() == n,
        forall|i: int| 0 <= i < n ==> out@[i] == v,
{
    let mut out: Vec<i64> = Vec::new();
    let mut i: usize = 0;
    while i < n
        invariant
            i <= n,
            out@.len() == i,
            forall|j: int| 0 <= j < i ==> out@[j] == v,
        decreases n - i,
    {
        out.push(v);
        i = i + 1;
    }
    out
}

impl Framebuffer {
    /// A black framebuffer of the given resolution, with every depth entry
    /// at the farthest value and a white draw color.
    pub fn new(width: usize, height: usize) -> (fb: Framebuffer)
        requires
            (width as int) * (height as int) <= usize::MAX as int,
        ensures
            fb_wf(fb),
            fb.width == width,
            fb.height == height,
            fb.background_color == 0,
            fb.current_color == 0xffffff,
            forall|i: int| 0 <= i < fb.buffer@.len() ==> fb.buffer@[i] == 0,
            forall|i: int| 0 <= i < fb.depth_buffer@.len() ==> fb.depth_buffer@[i] == DEPTH_FAR,
    {
        proof {
            lemma_mul_inequality(0, width as int, height as int);
            assert((width as int) * (height as int) >= 0) by (nonlinear_arith)
                requires
                    width >= 0,
                    height >= 0,
            ;
        }
        let n: usize = width * height;
        Framebuffer {
            width,
            height,
            buffer: filled_u32(n, 0),
            depth_buffer: filled_i64(n, DEPTH_FAR),
            background_color: 0,
            current_color: 0xffffff,
        }
    }

    pub fn set_background_color(&mut self, color: u32)
        ensures
            *final(self) == (Framebuffer { background_color: color, ..*old(self) }),
    {
        self.background_color = color;
    }

    /// Set the color that subsequent `point` calls will write.
    pub fn set_current_color(&mut self, color: u32)
        ensures
            *final(self) == (Framebuffer { current_color: color, ..*old(self) }),
    {
        self.current_color = color;
    }

    /// Reset every pixel to the background color and every depth entry to
    /// the farthest representable depth.
    pub fn clear(&mut self)
        requires
            fb_wf(*old(self)),
        ensures
            fb_wf(*final(self)),
            final(self).width == old(self).width,
            final(self).height == old(self).height,
            final(self).background_color == old(self).background_color,
            final(self).current_color == old(self).current_color,
            final(self).buffer@.len() == old(self).buffer@.len(),
            final(self).depth_buffer@.len() == old(self).depth_buffer@.len(),
            forall|i: int|
                0 <= i < final(self).buffer@.len() ==> final(self).buffer@[i] == old(
                    self,
                ).background_color,
            forall|i: int|
                0 <= i < final(self).depth_buffer@.len() ==> final(self).depth_buffer@[i]
                    == DEPTH_FAR,
    {
        let n: usize = self.buffer.len();
        self.buffer = filled_u32(n, self.background_color);
        let m: usize = self.depth_buffer.len();
        self.depth_buffer = filled_i64(m, DEPTH_FAR);
    }

    /// Depth-tested pixel write: the current color and the incoming depth
    /// are stored at (x, y) only if the coordinates are in bounds and the
    /// depth is strictly nearer than the stored one; otherwise nothing
    /// changes. Both outcomes are normal.
    pub fn point(&mut self, x: usize, y: usize, depth: i64)
        requires
            fb_wf(*old(self)),
        ensures
            fb_wf(*final(self)),
            final(self).width == old(self).width,
            final(self).height == old(self).height,
            final(self).background_color == old(self).background_color,
            final(self).current_color == old(self).current_color,
            final(self).buffer@ == point_buf_spec(
                old(self).buffer@,
                old(self).depth_buffer@,
                old(self).width as int,
                old(self).height as int,
                old(self).current_color,
                x as int,
                y as int,
                depth,
            ),
            final(self).depth_buffer@ == point_dep_spec(
                old(self).depth_buffer@,
                old(self).width as int,
                old(self).height as int,
                x as int,
                y as int,
                depth,
            ),
    {
        if x < self.width && y < self.height {
            let n: usize = self.buffer.len();
            proof {
                lemma_row_major_index(
                    x as int,
                    y as int,
                    self.width as int,
                    self.height as int,
                );
                assert((y as int) * (self.width as int) + (x as int) < n as int);
            }
            let idx: usize = y * self.width + x;
            if depth < self.depth_buffer[idx] {
                let c: u32 = self.current_color;
                self.buffer[idx] = c;
                self.depth_buffer[idx] = depth;
            }
        }
    }
}

/// Writing the same fragment twice in succession leaves exactly the state
/// that one write leaves: the second write always fails the strict depth
/// test.
pub proof fn lemma_point_idempotent(
    buf: Seq<u32>,
    dep: Seq<i64>,
    w: int,
    h: int,
    color: u32,
    x: int,
    y: int,
    depth: i64,
)
    requires
        dep.len() == w * h,
    ensures
        ({
            let b1 = point_buf_spec(buf, dep, w, h, color, x, y, depth);
            let d1 = point_dep_spec(dep, w, h, x, y, depth);
            &&& point_buf_spec(b1, d1, w, h, color, x, y, depth) == b1
            &&& point_dep_spec(d1, w, h, x, y, depth) == d1
        }),
{
    if depth_accepts(dep, w, h, x, y, depth) {
        lemma_row_major_index(x, y, w, h);
    }
}

/// After a write at some depth, a second write at the same pixel with an
/// equal or farther depth changes nothing.
pub proof fn lemma_point_farther_noop(
    buf: Seq<u32>,
    dep: Seq<i64>,
    w: int,
    h: int,
    c1: u32,
    c2: u32,
    x: int,
    y: int,
    d1: i64,
    d2: i64,
)
    requires
        dep.len() == w * h,
        d2 >= d1,
    ensures
        ({
            let b1 = point_buf_spec(buf, dep, w, h, c1, x, y, d1);
            let dd1 = point_dep_spec(dep, w, h, x, y, d1);
            &&& point_buf_spec(b1, dd1, w, h, c2, x, y, d2) == b1
            &&& point_dep_spec(dd1, w, h, x, y, d2) == dd1
        }),
{
    if depth_accepts(dep, w, h, x, y, d1) {
        lemma_row_major_index(x, y, w, h);
    }
}

} // verus!
