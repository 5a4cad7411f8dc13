//! The pixel buffer and the rasterizer primitives.
//!
//! A buffer is a flat, row-major array of packed colors with the origin at
//! the top left.  Every drawing primitive is bounds-checked: a pixel outside
//! the buffer is silently skipped, never written.

use vstd::prelude::*;
use crate::color::Color;
use crate::vector::vec2::Vec2;
use crate::vector::vec3::Vec3;
use crate::render::image::Image;

verus! {

/// The largest coordinate magnitude the rasterizer accepts, and the largest
/// buffer side length: keeps every intermediate product of the line and
/// triangle routines far inside the machine's integer range.
pub const COORD_LIMIT: isize = 1048576;

#[derive(Debug, Clone, Copy, PartialEq, Eq, Structural)]
pub struct BufferSize {
    pub width: usize,
    pub height: usize,
}

impl BufferSize {
    pub fn new(width: usize, height: usize) -> (r: Self)
        ensures
            r == (BufferSize { width, height }),
    {
        BufferSize { width, height }
    }

    pub fn from_get_size(size: (usize, usize)) -> (r: Self)
        ensures
            r == (BufferSize { width: size.0, height: size.1 }),
    {
        BufferSize { width: size.0, height: size.1 }
    }

    /// A size fit for drawing: both sides within the coordinate limit.
    pub open spec fn wf(self) -> bool {
        self.width <= COORD_LIMIT as usize && self.height <= COORD_LIMIT as usize
    }

    /// The buffer's own pixel rectangle, corners inclusive.
    pub open spec fn to_rectangle_s(self) -> Vec2<Vec2<isize>> {
        Vec2 {
            x: Vec2 { x: 0isize, y: 0isize },
            y: Vec2 {
                x: ((self.width as int - 1) as isize),
                y: ((self.height as int - 1) as isize),
            },
        }
    }

    pub fn to_rectangle(&self) -> (r: Vec2<Vec2<isize>>)
        requires
            self.wf(),
        ensures
            r == self.to_rectangle_s(),
    {
        Vec2 {
            x: Vec2 { x: 0isize, y: 0isize },
            y: Vec2 { x: (self.width as isize) - 1, y: (self.height as isize) - 1 },
        }
    }
}

/// Whether a point lies in a rectangle given as inclusive corners.
pub open spec fn in_rectangle(p: Vec2<isize>, rect: Vec2<Vec2<isize>>) -> bool {
    rect.x.x <= p.x <= rect.y.x && rect.x.y <= p.y <= rect.y.y
}

/// Whether a point is one of the buffer's pixels.
pub open spec fn in_buffer(p: Vec2<isize>, size: BufferSize) -> bool {
    0 <= p.x < size.width && 0 <= p.y < size.height
}

pub fn is_inside_rectangle(p: Vec2<isize>, rect: Vec2<Vec2<isize>>) -> (r: bool)
    ensures
        r == in_rectangle(p, rect),
{
    rect.x.x <= p.x && p.x <= rect.y.x && rect.x.y <= p.y && p.y <= rect.y.y
}

pub fn is_inside_buffer(p: Vec2<isize>, size: BufferSize) -> (r: bool)
    requires
        size.wf(),
    ensures
        r == in_buffer(p, size),
{
    0 <= p.x && p.x < size.width as isize && 0 <= p.y && p.y < size.height as isize
}

pub open spec fn imax(a: isize, b: isize) -> isize {
    if a >= b {
        a
    } else {
        b
    }
}

pub open spec fn imin(a: isize, b: isize) -> isize {
    if a <= b {
        a
    } else {
        b
    }
}

/// The largest rectangle contained in both: the larger of the lower corners,
/// the smaller of the upper corners.
pub open spec fn rect_intersection(r1: Vec2<Vec2<isize>>, r2: Vec2<Vec2<isize>>) -> Vec2<
    Vec2<isize>,
> {
    Vec2 {
        x: Vec2 { x: imax(r1.x.x, r2.x.x), y: imax(r1.x.y, r2.x.y) },
        y: Vec2 { x: imin(r1.y.x, r2.y.x), y: imin(r1.y.y, r2.y.y) },
    }
}

pub fn rectangles_intersection(rect_1: Vec2<Vec2<isize>>, rect_2: Vec2<Vec2<isize>>) -> (r: Vec2<
    Vec2<isize>,
>)
    ensures
        r == rect_intersection(rect_1, rect_2),
        forall|p: Vec2<isize>| in_rectangle(p, r) == (in_rectangle(p, rect_1) && in_rectangle(
            p,
            rect_2,
        )),
{
    let x1 = if rect_1.x.x >= rect_2.x.x {
        rect_1.x.x
    } else {
        rect_2.x.x
    };
    let y1 = if rect_1.x.y >= rect_2.x.y {
        rect_1.x.y
    } else {
        rect_2.x.y
    };
    let x2 = if rect_1.y.x <= rect_2.y.x {
        rect_1.y.x
    } else {
        rect_2.y.x
    };
    let y2 = if rect_1.y.y <= rect_2.y.y {
        rect_1.y.y
    } else {
        rect_2.y.y
    };
    Vec2 { x: Vec2 { x: x1, y: y1 }, y: Vec2 { x: x2, y: y2 } }
}

#[derive(Clone)]
pub struct RawBuffer(pub Vec<u32>);

impl RawBuffer {
    pub fn new(vec: Vec<u32>) -> (r: Self)
        ensures
            r.0 == vec,
    {
        RawBuffer(vec)
    }

    /// A buffer of the given size, all pixels black.
    pub fn init(size: BufferSize) -> (r: Self)
        requires
            size.width * size.height <= usize::MAX,
        ensures
            r.0@.len() == size.width * size.height,
            forall|i: int| 0 <= i < r.0@.len() ==> r.0@[i] == 0u32,
    {
        let n: usize = size.width * size.height;
        let mut vec: Vec<u32> = Vec::new();
        let mut i: usize = 0;
        while i < n
            invariant
                i <= n,
                vec@.len() == i,
                forall|j: int| 0 <= j < i ==> vec@[j] == 0u32,
            decreases n - i,
        {
            vec.push(0);
            i = i + 1;
        }
        RawBuffer(vec)
    }

    /// Overwrite every pixel with one color.
    pub fn fill(&mut self, color: Color)
        ensures
            final(self).0@.len() == old(self).0@.len(),
            forall|i: int| 0 <= i < final(self).0@.len() ==> final(self).0@[i] == color.0,
    {
        let n: usize = self.0.len();
        let mut i: usize = 0;
        while i < n
            invariant
                i <= n,
                self.0@.len() == n,
                forall|j: int| 0 <= j < i ==> self.0@[j] == color.0,
            decreases n - i,
        {
            self.0[i] = color.0;
            i = i + 1;
        }
    }
}

#[derive(Clone)]
pub struct Buffer {
    pub raw_buffer: RawBuffer,
    pub size: BufferSize,
}

impl Buffer {
    /// A buffer fit for drawing: the backing storage covers the size (it may
    /// exceed it after a shrink), and the size is within the coordinate
    /// limit.
    pub open spec fn wf(self) -> bool {
        &&& self.raw_buffer.0@.len() >= self.size.width * self.size.height
        &&& self.size.wf()
    }

    /// The pixel at a coordinate, in row-major order.
    pub open spec fn pixel(self, x: int, y: int) -> u32 {
        self.raw_buffer.0@[y * self.size.width + x]
    }

    pub fn new(raw_buffer: RawBuffer, size: BufferSize) -> (r: Self)
        ensures
            r == (Buffer { raw_buffer, size }),
    {
        Buffer { raw_buffer, size }
    }

    pub fn init(size: BufferSize) -> (r: Self)
        requires
            size.width * size.height <= usize::MAX,
            size.wf(),
        ensures
            r.size == size,
            r.wf(),
            r.raw_buffer.0@.len() == size.width * size.height,
            forall|i: int| 0 <= i < r.raw_buffer.0@.len() ==> r.raw_buffer.0@[i] == 0u32,
    {
        let raw_buffer = RawBuffer::init(size);
        Buffer { raw_buffer, size }
    }

    /// Overwrite every pixel with one color (the whole backing storage).
    pub fn fill(&mut self, color: Color)
        ensures
            final(self).size == old(self).size,
            final(self).raw_buffer.0@.len() == old(self).raw_buffer.0@.len(),
            forall|i: int|
                0 <= i < final(self).raw_buffer.0@.len() ==> final(self).raw_buffer.0@[i]
                    == color.0,
    {
        self.raw_buffer.fill(color);
    }

    /// Clear to black.
    pub fn clear(&mut self)
        ensures
            final(self).size == old(self).size,
            final(self).raw_buffer.0@.len() == old(self).raw_buffer.0@.len(),
            forall|i: int|
                0 <= i < final(self).raw_buffer.0@.len() ==> final(self).raw_buffer.0@[i] == 0u32,
    {
        self.raw_buffer.fill(Color(0));
    }

    /// The color of one pixel; the point must be one of the buffer's pixels.
    pub fn get_point(&self, point: Vec2<isize>) -> (r: u32)
        requires
            self.wf(),
            in_buffer(point, self.size),
        ensures
            r == self.pixel(point.x as int, point.y as int),
    {
        let n: usize = self.raw_buffer.0.len();
        proof {
            lemma_pixel_index(point.x as int, point.y as int, self.size.width as int, self.size.height as int);
        }
        self.raw_buffer.0[(point.y as usize) * self.size.width + (point.x as usize)]
    }

    /// Write one pixel; the point must be one of the buffer's pixels.
    pub fn raw_draw_point(&mut self, point: Vec2<isize>, color: Color)
        requires
            old(self).wf(),
            in_buffer(point, old(self).size),
        ensures
            final(self).size == old(self).size,
            final(self).raw_buffer.0@ == old(self).raw_buffer.0@.update(
                point.y * old(self).size.width + point.x,
                color.0,
            ),
            final(self).wf(),
    {
        let n: usize = self.raw_buffer.0.len();
        proof {
            lemma_pixel_index(point.x as int, point.y as int, self.size.width as int, self.size.height as int);
        }
        let idx: usize = (point.y as usize) * self.size.width + (point.x as usize);
        self.raw_buffer.0[idx] = color.0;
    }

    /// Write one pixel if it is inside the buffer; do nothing otherwise.
    pub fn draw_point(&mut self, point: Vec2<isize>, color: Color)
        requires
            old(self).wf(),
        ensures
            final(self).size == old(self).size,
            final(self).wf(),
            final(self).raw_buffer.0@ == if in_buffer(point, old(self).size) {
                old(self).raw_buffer.0@.update(point.y * old(self).size.width + point.x, color.0)
            } else {
                old(self).raw_buffer.0@
            },
    {
        if is_inside_buffer(point, self.size) {
            self.raw_draw_point(point, color);
        }
    }
}

/// The absolute value.
pub open spec fn iabs(a: int) -> int {
    if a >= 0 {
        a
    } else {
        -a
    }
}

/// The walking distance between two points.
pub open spec fn dist(x1: int, y1: int, x2: int, y2: int) -> int {
    iabs(x2 - x1) + iabs(y2 - y1)
}

/// The pixels of one Bresenham walk from `(x1, y1)` to `(x2, y2)`.
///
/// `dx`, `dy`, `sx`, `sy` and `err` are the walk's fixed deltas, step
/// directions, and running error term.  Should a step ever fail to approach
/// the endpoint (which cannot happen for the values `line_pixels` passes in),
/// the walk closes with the endpoint at once, so that it always terminates
/// and always contains both of its endpoints.
pub open spec fn walk(
    x1: int,
    y1: int,
    x2: int,
    y2: int,
    dx: int,
    dy: int,
    sx: int,
    sy: int,
    err: int,
) -> Set<(int, int)>
    decreases dist(x1, y1, x2, y2),
{
    if x1 == x2 && y1 == y2 {
        set![(x1, y1)]
    } else {
        let e2 = 2 * err;
        let nerr = err - (if e2 > -dy {
            dy
        } else {
            0
        }) + (if e2 < dx {
            dx
        } else {
            0
        });
        let nx = if e2 > -dy {
            x1 + sx
        } else {
            x1
        };
        let ny = if e2 < dx {
            y1 + sy
        } else {
            y1
        };
        if dist(nx, ny, x2, y2) < dist(x1, y1, x2, y2) {
            walk(nx, ny, x2, y2, dx, dy, sx, sy, nerr).insert((x1, y1))
        } else {
            set![(x1, y1), (x2, y2)]
        }
    }
}

/// The one endpoint order a line is walked in, whichever way it is given.
pub open spec fn lex_le(a: Vec2<isize>, b: Vec2<isize>) -> bool {
    a.x < b.x || (a.x == b.x && a.y <= b.y)
}

/// The set of pixels a line between two points covers.
///
/// The endpoints are put in a canonical order first, so the set does not
/// depend on which endpoint is given first.
pub open spec fn line_pixels(start: Vec2<isize>, end: Vec2<isize>) -> Set<(int, int)> {
    let a = if lex_le(start, end) {
        start
    } else {
        end
    };
    let b = if lex_le(start, end) {
        end
    } else {
        start
    };
    let dx = iabs(b.x - a.x);
    let dy = iabs(b.y - a.y);
    let sx: int = if b.x > a.x {
        1
    } else {
        -1
    };
    let sy: int = if b.y > a.y {
        1
    } else {
        -1
    };
    walk(a.x as int, a.y as int, b.x as int, b.y as int, dx, dy, sx, sy, dx - dy)
}

/// The pixel set of a line does not depend on the order of its endpoints.
pub proof fn lemma_draw_line_symmetric(start: Vec2<isize>, end: Vec2<isize>)
    ensures
        line_pixels(start, end) == line_pixels(end, start),
{
}

/// A walk contains its endpoint.
proof fn lemma_walk_contains_end(
    x1: int,
    y1: int,
    x2: int,
    y2: int,
    dx: int,
    dy: int,
    sx: int,
    sy: int,
    err: int,
)
    ensures
        walk(x1, y1, x2, y2, dx, dy, sx, sy, err).contains((x2, y2)),
    decreases dist(x1, y1, x2, y2),
{
    if x1 == x2 && y1 == y2 {
    } else {
        let e2 = 2 * err;
        let nerr = err - (if e2 > -dy {
            dy
        } else {
            0
        }) + (if e2 < dx {
            dx
        } else {
            0
        });
        let nx = if e2 > -dy {
            x1 + sx
        } else {
            x1
        };
        let ny = if e2 < dx {
            y1 + sy
        } else {
            y1
        };
        if dist(nx, ny, x2, y2) < dist(x1, y1, x2, y2) {
            lemma_walk_contains_end(nx, ny, x2, y2, dx, dy, sx, sy, nerr);
        }
    }
}

/// Every line's pixel set contains both of its endpoints.
pub proof fn lemma_line_pixels_endpoints(start: Vec2<isize>, end: Vec2<isize>)
    ensures
        line_pixels(start, end).contains((start.x as int, start.y as int)),
        line_pixels(start, end).contains((end.x as int, end.y as int)),
{
    let a = if lex_le(start, end) {
        start
    } else {
        end
    };
    let b = if lex_le(start, end) {
        end
    } else {
        start
    };
    let dx = iabs(b.x - a.x);
    let dy = iabs(b.y - a.y);
    let sx: int = if b.x > a.x {
        1
    } else {
        -1
    };
    let sy: int = if b.y > a.y {
        1
    } else {
        -1
    };
    lemma_walk_contains_end(a.x as int, a.y as int, b.x as int, b.y as int, dx, dy, sx, sy, dx - dy);
    if !(a.x == b.x && a.y == b.y) {
        // The walk's first branch inserts the starting point.
        assert(walk(a.x as int, a.y as int, b.x as int, b.y as int, dx, dy, sx, sy, dx - dy)
            .contains((a.x as int, a.y as int)));
    }
}

/// Two distinct pixels of one buffer have distinct flat indices.
proof fn lemma_index_inj(x1: int, y1: int, x2: int, y2: int, w: int)
    by (nonlinear_arith)
    requires
        0 <= x1 < w,
        0 <= x2 < w,
        0 <= y1,
        0 <= y2,
        y1 * w + x1 == y2 * w + x2,
    ensures
        x1 == x2 && y1 == y2,
{
}

/// What one bounds-checked pixel write does to every pixel: the written one
/// becomes the color, every other pixel and the slack region keep their
/// value.
proof fn lemma_update_pixels(pre: Buffer, post: Buffer, px: int, py: int, c: u32)
    requires
        pre.wf(),
        post.size == pre.size,
        0 <= px < pre.size.width,
        0 <= py < pre.size.height,
        post.raw_buffer.0@ == pre.raw_buffer.0@.update(py * pre.size.width + px, c),
    ensures
        post.wf(),
        post.raw_buffer.0@.len() == pre.raw_buffer.0@.len(),
        forall|x: int, y: int|
            0 <= x < pre.size.width && 0 <= y < pre.size.height ==> #[trigger] post.pixel(x, y)
                == if x == px && y == py {
                c
            } else {
                pre.pixel(x, y)
            },
        forall|i: int|
            pre.size.width * pre.size.height <= i < pre.raw_buffer.0@.len()
                ==> post.raw_buffer.0@[i] == pre.raw_buffer.0@[i],
{
    let w = pre.size.width as int;
    let h = pre.size.height as int;
    lemma_pixel_index(px, py, w, h);
    assert forall|x: int, y: int| 0 <= x < w && 0 <= y < h implies #[trigger] post.pixel(x, y)
        == if x == px && y == py {
        c
    } else {
        pre.pixel(x, y)
    } by {
        lemma_pixel_index(x, y, w, h);
        if y * w + x == py * w + px {
            lemma_index_inj(x, y, px, py, w);
        }
    }
}

impl Buffer {
    /// Draw a line between two points with the Bresenham walk, endpoints
    /// included, every pixel clipped to the buffer.  The endpoints are put
    /// in a canonical order first, so both orders paint one and the same
    /// pixel set.
    pub fn draw_line(&mut self, start: Vec2<isize>, end: Vec2<isize>, color: Color)
        requires
            old(self).wf(),
            -COORD_LIMIT <= start.x <= COORD_LIMIT,
            -COORD_LIMIT <= start.y <= COORD_LIMIT,
            -COORD_LIMIT <= end.x <= COORD_LIMIT,
            -COORD_LIMIT <= end.y <= COORD_LIMIT,
        ensures
            final(self).wf(),
            final(self).size == old(self).size,
            final(self).raw_buffer.0@.len() == old(self).raw_buffer.0@.len(),
            forall|x: int, y: int|
                0 <= x < old(self).size.width && 0 <= y < old(self).size.height
                    ==> #[trigger] final(self).pixel(x, y) == if line_pixels(start, end).contains(
                    (x, y),
                ) {
                    color.0
                } else {
                    old(self).pixel(x, y)
                },
            forall|i: int|
                old(self).size.width * old(self).size.height <= i < old(
                    self,
                ).raw_buffer.0@.len() ==> final(self).raw_buffer.0@[i] == old(
                    self,
                ).raw_buffer.0@[i],
    {
        let (a, b) = if (start.x < end.x) || (start.x == end.x && start.y <= end.y) {
            (start, end)
        } else {
            (end, start)
        };
        let dx: isize = if b.x >= a.x {
            b.x - a.x
        } else {
            a.x - b.x
        };
        let dy: isize = if b.y >= a.y {
            b.y - a.y
        } else {
            a.y - b.y
        };
        let sx: isize = if b.x > a.x {
            1
        } else {
            -1
        };
        let sy: isize = if b.y > a.y {
            1
        } else {
            -1
        };
        let mut x1 = a.x;
        let mut y1 = a.y;
        let mut err: isize = dx - dy;
        let ghost full = line_pixels(start, end);
        let ghost orig = *self;
        let ghost w = self.size.width as int;
        let ghost h = self.size.height as int;
        proof {
            assert(full == walk(
                x1 as int,
                y1 as int,
                b.x as int,
                b.y as int,
                dx as int,
                dy as int,
                sx as int,
                sy as int,
                err as int,
            ));
        }
        loop
            invariant
                self.wf(),
                self.size == orig.size,
                self.raw_buffer.0@.len() == orig.raw_buffer.0@.len(),
                w == orig.size.width as int,
                h == orig.size.height as int,
                0 <= dx <= 2 * COORD_LIMIT,
                0 <= dy <= 2 * COORD_LIMIT,
                -2 * COORD_LIMIT <= x1 <= 2 * COORD_LIMIT,
                -2 * COORD_LIMIT <= y1 <= 2 * COORD_LIMIT,
                -COORD_LIMIT <= b.x <= COORD_LIMIT,
                -COORD_LIMIT <= b.y <= COORD_LIMIT,
                -2 * dy <= err <= 2 * dx,
                sx == 1 || sx == -1,
                sy == 1 || sy == -1,
                walk(
                    x1 as int,
                    y1 as int,
                    b.x as int,
                    b.y as int,
                    dx as int,
                    dy as int,
                    sx as int,
                    sy as int,
                    err as int,
                ) <= full,
                forall|x: int, y: int|
                    0 <= x < w && 0 <= y < h && !full.contains((x, y)) ==> #[trigger] self.pixel(
                        x,
                        y,
                    ) == orig.pixel(x, y),
                forall|x: int, y: int|
                    0 <= x < w && 0 <= y < h && full.contains((x, y)) && !walk(
                        x1 as int,
                        y1 as int,
                        b.x as int,
                        b.y as int,
                        dx as int,
                        dy as int,
                        sx as int,
                        sy as int,
                        err as int,
                    ).contains((x, y)) ==> #[trigger] self.pixel(x, y) == color.0,
                forall|x: int, y: int|
                    0 <= x < w && 0 <= y < h && full.contains((x, y)) ==> (#[trigger] self.pixel(
                        x,
                        y,
                    ) == color.0 || self.pixel(x, y) == orig.pixel(x, y)),
                forall|i: int|
                    w * h <= i < self.raw_buffer.0@.len() ==> self.raw_buffer.0@[i]
                        == orig.raw_buffer.0@[i],
            ensures
                self.wf(),
                self.size == orig.size,
                self.raw_buffer.0@.len() == orig.raw_buffer.0@.len(),
                forall|x: int, y: int|
                    0 <= x < w && 0 <= y < h ==> #[trigger] self.pixel(x, y) == if full.contains(
                        (x, y),
                    ) {
                        color.0
                    } else {
                        orig.pixel(x, y)
                    },
                forall|i: int|
                    w * h <= i < self.raw_buffer.0@.len() ==> self.raw_buffer.0@[i]
                        == orig.raw_buffer.0@[i],
            decreases dist(x1 as int, y1 as int, b.x as int, b.y as int),
        {
            let ghost cur = walk(
                x1 as int,
                y1 as int,
                b.x as int,
                b.y as int,
                dx as int,
                dy as int,
                sx as int,
                sy as int,
                err as int,
            );
            let ghost pre_buf = *self;
            self.draw_point(Vec2 { x: x1, y: y1 }, color);
            proof {
                if in_buffer(Vec2 { x: x1, y: y1 }, orig.size) {
                    lemma_update_pixels(pre_buf, *self, x1 as int, y1 as int, color.0);
                }
            }
            if x1 == b.x && y1 == b.y {
                proof {
                    assert(cur == set![(x1 as int, y1 as int)]);
                    assert(cur.contains((x1 as int, y1 as int)));
                    assert forall|x: int, y: int| 0 <= x < w && 0 <= y < h implies #[trigger] self.pixel(x, y) == if full.contains((x, y)) {
                        color.0
                    } else {
                        orig.pixel(x, y)
                    } by {
                        if x == x1 as int && y == y1 as int {
                        } else {
                            assert(!cur.contains((x, y)));
                            if full.contains((x, y)) {
                                assert(pre_buf.pixel(x, y) == color.0);
                            } else {
                                assert(pre_buf.pixel(x, y) == orig.pixel(x, y));
                            }
                            if !in_buffer(Vec2 { x: x1, y: y1 }, orig.size) {
                                assert(self.pixel(x, y) == pre_buf.pixel(x, y));
                            }
                        }
                    }
                }
                break ;
            }
            let e2: isize = 2 * err;
            let nerr: isize = err - (if e2 > -dy {
                dy
            } else {
                0isize
            }) + (if e2 < dx {
                dx
            } else {
                0isize
            });
            let nx: isize = if e2 > -dy {
                x1 + sx
            } else {
                x1
            };
            let ny: isize = if e2 < dx {
                y1 + sy
            } else {
                y1
            };
            let still: isize = idist(x1, y1, b.x, b.y);
            let ahead: isize = idist(nx, ny, b.x, b.y);
            if ahead < still {
                proof {
                    let nwalk = walk(
                        nx as int,
                        ny as int,
                        b.x as int,
                        b.y as int,
                        dx as int,
                        dy as int,
                        sx as int,
                        sy as int,
                        nerr as int,
                    );
                    assert(cur == nwalk.insert((x1 as int, y1 as int)));
                    assert forall|p: (int, int)| nwalk.contains(p) implies full.contains(p) by {
                        assert(cur.contains(p));
                    }
                    assert(cur.contains((x1 as int, y1 as int)));
                    let px = x1 as int;
                    let py = y1 as int;
                    let pin = in_buffer(Vec2 { x: x1, y: y1 }, orig.size);
                    assert forall|x: int, y: int|
                        0 <= x < w && 0 <= y < h && !full.contains((x, y)) implies #[trigger] self.pixel(x, y) == orig.pixel(x, y) by {
                        assert(pre_buf.pixel(x, y) == orig.pixel(x, y));
                        if !pin {
                            assert(self.pixel(x, y) == pre_buf.pixel(x, y));
                        }
                    }
                    assert forall|x: int, y: int|
                        0 <= x < w && 0 <= y < h && full.contains((x, y)) && !nwalk.contains(
                            (x, y),
                        ) implies #[trigger] self.pixel(x, y) == color.0 by {
                        if x == px && y == py {
                        } else {
                            assert(!cur.contains((x, y)));
                            assert(pre_buf.pixel(x, y) == color.0);
                            if !pin {
                                assert(self.pixel(x, y) == pre_buf.pixel(x, y));
                            }
                        }
                    }
                    assert forall|x: int, y: int|
                        0 <= x < w && 0 <= y < h && full.contains((x, y)) implies (
                        #[trigger] self.pixel(x, y) == color.0 || self.pixel(x, y) == orig.pixel(
                            x,
                            y,
                        )) by {
                        if x == px && y == py {
                        } else {
                            assert(pre_buf.pixel(x, y) == color.0 || pre_buf.pixel(x, y)
                                == orig.pixel(x, y));
                            if !pin {
                                assert(self.pixel(x, y) == pre_buf.pixel(x, y));
                            }
                        }
                    }
                }
                x1 = nx;
                y1 = ny;
                err = nerr;
            } else {
                // A walk that stops approaching its endpoint (impossible for
                // the parameters above) closes with the endpoint at once.
                proof {
                    assert(cur == set![(x1 as int, y1 as int), (b.x as int, b.y as int)]);
                }
                let ghost mid_buf = *self;
                self.draw_point(b, color);
                proof {
                    if in_buffer(b, orig.size) {
                        lemma_update_pixels(mid_buf, *self, b.x as int, b.y as int, color.0);
                    }
                    assert(cur.contains((x1 as int, y1 as int)));
                    assert(cur.contains((b.x as int, b.y as int)));
                    assert forall|x: int, y: int| 0 <= x < w && 0 <= y < h implies #[trigger] self.pixel(x, y) == if full.contains((x, y)) {
                        color.0
                    } else {
                        orig.pixel(x, y)
                    } by {
                        if x == b.x as int && y == b.y as int {
                        } else {
                            if !in_buffer(b, orig.size) {
                                assert(self.pixel(x, y) == mid_buf.pixel(x, y));
                            }
                            if x == x1 as int && y == y1 as int {
                                assert(mid_buf.pixel(x, y) == color.0);
                            } else {
                                assert(!cur.contains((x, y)));
                                if full.contains((x, y)) {
                                    assert(pre_buf.pixel(x, y) == color.0);
                                } else {
                                    assert(pre_buf.pixel(x, y) == orig.pixel(x, y));
                                }
                                if !in_buffer(Vec2 { x: x1, y: y1 }, orig.size) {
                                    assert(mid_buf.pixel(x, y) == pre_buf.pixel(x, y));
                                }
                                assert(mid_buf.pixel(x, y) == self.pixel(x, y) || in_buffer(b, orig.size));
                            }
                        }
                    }
                }
                break ;
            }
        }
    }
}

/// The walking distance between two in-range points.
fn idist(x1: isize, y1: isize, x2: isize, y2: isize) -> (r: isize)
    requires
        -4 * COORD_LIMIT <= x1 <= 4 * COORD_LIMIT,
        -4 * COORD_LIMIT <= y1 <= 4 * COORD_LIMIT,
        -COORD_LIMIT <= x2 <= COORD_LIMIT,
        -COORD_LIMIT <= y2 <= COORD_LIMIT,
    ensures
        r as int == dist(x1 as int, y1 as int, x2 as int, y2 as int),
{
    let ax: isize = if x2 >= x1 {
        x2 - x1
    } else {
        x1 - x2
    };
    let ay: isize = if y2 >= y1 {
        y2 - y1
    } else {
        y1 - y2
    };
    ax + ay
}


/// A horizontal line covers exactly the pixels between its endpoints.
proof fn lemma_walk_horizontal(x1: int, y: int, x2: int, dx: int, sy: int)
    requires
        x1 <= x2,
        dx > 0,
    ensures
        walk(x1, y, x2, y, dx, 0, 1, sy, dx) =~= Set::new(
            |p: (int, int)| x1 <= p.0 <= x2 && p.1 == y,
        ),
    decreases x2 - x1,
{
    if x1 == x2 {
    } else {
        lemma_walk_horizontal(x1 + 1, y, x2, dx, sy);
    }
}

/// The pixel set of a horizontal line, exactly: every pixel from the one
/// endpoint to the other, at the shared row, and nothing else.
pub proof fn lemma_line_pixels_horizontal(start: Vec2<isize>, end: Vec2<isize>)
    requires
        start.y == end.y,
        start.x <= end.x,
    ensures
        line_pixels(start, end) =~= Set::new(
            |p: (int, int)| start.x <= p.0 <= end.x && p.1 == start.y,
        ),
{
    if start.x == end.x {
    } else {
        lemma_walk_horizontal(
            start.x as int,
            start.y as int,
            end.x as int,
            end.x - start.x,
            -1,
        );
    }
}

/// The two products of an edge function stay far inside the 64-bit range.
proof fn lemma_edge_products(px: int, py: int, ax: int, ay: int, bx: int, by: int)
    by (nonlinear_arith)
    requires
        -2 * COORD_LIMIT <= px <= 2 * COORD_LIMIT,
        -2 * COORD_LIMIT <= py <= 2 * COORD_LIMIT,
        -COORD_LIMIT <= ax <= COORD_LIMIT,
        -COORD_LIMIT <= ay <= COORD_LIMIT,
        -COORD_LIMIT <= bx <= COORD_LIMIT,
        -COORD_LIMIT <= by <= COORD_LIMIT,
    ensures
        -0x1_0000_0000_0000 <= (px - ax) * (by - ay) <= 0x1_0000_0000_0000,
        -0x1_0000_0000_0000 <= (py - ay) * (bx - ax) <= 0x1_0000_0000_0000,
{
}

/// One edge function: the two-dimensional cross product of `p - a` against
/// `b - a`.  Its sign says which side of the directed line from `a` to `b`
/// the point lies on.
pub open spec fn edge_cross(p: Vec2<isize>, a: Vec2<isize>, b: Vec2<isize>) -> int {
    (p.x - a.x) * (b.y - a.y) - (p.y - a.y) * (b.x - a.x)
}

/// Whether a point lies in a triangle: the three edge functions agree in
/// sign, whichever way the triangle is wound.
pub open spec fn in_triangle(p: Vec2<isize>, t: Vec3<Vec2<isize>>) -> bool {
    ||| (edge_cross(p, t.x, t.y) >= 0 && edge_cross(p, t.y, t.z) >= 0 && edge_cross(p, t.z, t.x)
        >= 0)
    ||| (edge_cross(p, t.x, t.y) <= 0 && edge_cross(p, t.y, t.z) <= 0 && edge_cross(p, t.z, t.x)
        <= 0)
}

/// One edge function, evaluated in 64-bit arithmetic.
pub fn edge_func(p: Vec2<isize>, a: Vec2<isize>, b: Vec2<isize>) -> (r: i64)
    requires
        -2 * COORD_LIMIT <= p.x <= 2 * COORD_LIMIT,
        -2 * COORD_LIMIT <= p.y <= 2 * COORD_LIMIT,
        -COORD_LIMIT <= a.x <= COORD_LIMIT,
        -COORD_LIMIT <= a.y <= COORD_LIMIT,
        -COORD_LIMIT <= b.x <= COORD_LIMIT,
        -COORD_LIMIT <= b.y <= COORD_LIMIT,
    ensures
        r as int == edge_cross(p, a, b),
{
    proof {
        lemma_edge_products(p.x as int, p.y as int, a.x as int, a.y as int, b.x as int, b.y as int);
    }
    (p.x as i64 - a.x as i64) * (b.y as i64 - a.y as i64) - (p.y as i64 - a.y as i64) * (b.x
        as i64 - a.x as i64)
}

pub fn is_inside_triangle(p: Vec2<isize>, t: Vec3<Vec2<isize>>) -> (r: bool)
    requires
        -2 * COORD_LIMIT <= p.x <= 2 * COORD_LIMIT,
        -2 * COORD_LIMIT <= p.y <= 2 * COORD_LIMIT,
        -COORD_LIMIT <= t.x.x <= COORD_LIMIT,
        -COORD_LIMIT <= t.x.y <= COORD_LIMIT,
        -COORD_LIMIT <= t.y.x <= COORD_LIMIT,
        -COORD_LIMIT <= t.y.y <= COORD_LIMIT,
        -COORD_LIMIT <= t.z.x <= COORD_LIMIT,
        -COORD_LIMIT <= t.z.y <= COORD_LIMIT,
    ensures
        r == in_triangle(p, t),
{
    let e1 = edge_func(p, t.x, t.y);
    let e2 = edge_func(p, t.y, t.z);
    let e3 = edge_func(p, t.z, t.x);
    (e1 >= 0 && e2 >= 0 && e3 >= 0) || (e1 <= 0 && e2 <= 0 && e3 <= 0)
}

impl Buffer {
    /// Fill a rectangle: every buffer pixel inside the given corners gets the
    /// color, every other pixel keeps its value.
    #[verifier::loop_isolation(false)]
    pub fn fill_rectangle(&mut self, rectangle: Vec2<Vec2<isize>>, color: Color)
        requires
            old(self).wf(),
        ensures
            final(self).wf(),
            final(self).size == old(self).size,
            final(self).raw_buffer.0@.len() == old(self).raw_buffer.0@.len(),
            forall|x: int, y: int|
                0 <= x < old(self).size.width && 0 <= y < old(self).size.height
                    ==> #[trigger] final(self).pixel(x, y) == if in_rectangle(
                    Vec2 { x: x as isize, y: y as isize },
                    rectangle,
                ) {
                    color.0
                } else {
                    old(self).pixel(x, y)
                },
            forall|i: int|
                old(self).size.width * old(self).size.height <= i < old(
                    self,
                ).raw_buffer.0@.len() ==> final(self).raw_buffer.0@[i] == old(
                    self,
                ).raw_buffer.0@[i],
    {
        let rect = rectangles_intersection(self.size.to_rectangle(), rectangle);
        let min_x = rect.x.x;
        let min_y = rect.x.y;
        let max_x = rect.y.x;
        let max_y = rect.y.y;
        if max_x < min_x || max_y < min_y {
            return ;
        }
        let ghost orig = *self;
        let ghost w = self.size.width as int;
        let ghost h = self.size.height as int;
        let mut y = min_y;
        while y <= max_y
            invariant
                self.wf(),
                self.size == orig.size,
                self.raw_buffer.0@.len() == orig.raw_buffer.0@.len(),
                w == orig.size.width as int,
                h == orig.size.height as int,
                0 <= min_x,
                min_x <= max_x + 1,
                max_x < w,
                0 <= min_y <= y,
                y <= max_y + 1,
                max_y < h,
                rect == rect_intersection(orig.size.to_rectangle_s(), rectangle),
                forall|px: int, py: int|
                    0 <= px < w && 0 <= py < h ==> #[trigger] self.pixel(px, py)
                        == if in_rectangle(Vec2 { x: px as isize, y: py as isize }, rect) && py
                        < y {
                        color.0
                    } else {
                        orig.pixel(px, py)
                    },
                forall|i: int|
                    w * h <= i < self.raw_buffer.0@.len() ==> self.raw_buffer.0@[i]
                        == orig.raw_buffer.0@[i],
            decreases max_y + 1 - y,
        {
            let mut x = min_x;
            while x <= max_x
                invariant
                    self.wf(),
                    self.size == orig.size,
                    self.raw_buffer.0@.len() == orig.raw_buffer.0@.len(),
                    w == orig.size.width as int,
                    h == orig.size.height as int,
                    0 <= min_x <= x,
                    x <= max_x + 1,
                    max_x < w,
                    0 <= min_y <= y <= max_y,
                    max_y < h,
                    rect == rect_intersection(orig.size.to_rectangle_s(), rectangle),
                    forall|px: int, py: int|
                        0 <= px < w && 0 <= py < h ==> #[trigger] self.pixel(px, py)
                            == if in_rectangle(Vec2 { x: px as isize, y: py as isize }, rect) && (
                        py < y || (py == y && px < x)) {
                            color.0
                        } else {
                            orig.pixel(px, py)
                        },
                    forall|i: int|
                        w * h <= i < self.raw_buffer.0@.len() ==> self.raw_buffer.0@[i]
                            == orig.raw_buffer.0@[i],
                decreases max_x + 1 - x,
            {
                let ghost pre_buf = *self;
                self.raw_draw_point(Vec2 { x, y }, color);
                proof {
                    lemma_update_pixels(pre_buf, *self, x as int, y as int, color.0);
                    assert forall|px: int, py: int| 0 <= px < w && 0 <= py < h implies #[trigger] self.pixel(px, py) == if in_rectangle(Vec2 { x: px as isize, y: py as isize }, rect) && (py < y || (py == y && px < x + 1)) {
                        color.0
                    } else {
                        orig.pixel(px, py)
                    } by {
                        if px == x as int && py == y as int {
                            assert(in_rectangle(Vec2 { x: px as isize, y: py as isize }, rect));
                        } else {
                            assert(self.pixel(px, py) == pre_buf.pixel(px, py));
                            assert(pre_buf.pixel(px, py) == if in_rectangle(Vec2 { x: px as isize, y: py as isize }, rect) && (py < y || (py == y && px < x)) {
                                color.0
                            } else {
                                orig.pixel(px, py)
                            });
                        }
                    }
                }
                x = x + 1;
            }
            y = y + 1;
        }
    }

    /// Draw the border of a rectangle: the buffer pixels on the rectangle's
    /// four edges get the color, every other pixel keeps its value.
    pub fn draw_rectangle(&mut self, rectangle: Vec2<Vec2<isize>>, color: Color)
        requires
            old(self).wf(),
        ensures
            final(self).wf(),
            final(self).size == old(self).size,
            final(self).raw_buffer.0@.len() == old(self).raw_buffer.0@.len(),
            forall|x: int, y: int|
                0 <= x < old(self).size.width && 0 <= y < old(self).size.height
                    ==> #[trigger] final(self).pixel(x, y) == if on_border(
                    Vec2 { x: x as isize, y: y as isize },
                    rectangle,
                ) {
                    color.0
                } else {
                    old(self).pixel(x, y)
                },
            forall|i: int|
                old(self).size.width * old(self).size.height <= i < old(
                    self,
                ).raw_buffer.0@.len() ==> final(self).raw_buffer.0@[i] == old(
                    self,
                ).raw_buffer.0@[i],
    {
        let top = Vec2 { x: rectangle.x, y: Vec2 { x: rectangle.y.x, y: rectangle.x.y } };
        let bottom = Vec2 { x: Vec2 { x: rectangle.x.x, y: rectangle.y.y }, y: rectangle.y };
        let left = Vec2 { x: rectangle.x, y: Vec2 { x: rectangle.x.x, y: rectangle.y.y } };
        let right = Vec2 { x: Vec2 { x: rectangle.y.x, y: rectangle.x.y }, y: rectangle.y };
        self.fill_rectangle(top, color);
        self.fill_rectangle(bottom, color);
        self.fill_rectangle(left, color);
        self.fill_rectangle(right, color);
    }

    /// Fill a triangle: every buffer pixel of the triangle's clipped bounding
    /// box whose three edge functions agree gets the color, every other pixel
    /// keeps its value.
    #[verifier::loop_isolation(false)]
    pub fn fill_triangle(&mut self, triangle: Vec3<Vec2<isize>>, color: Color)
        requires
            old(self).wf(),
            -COORD_LIMIT <= triangle.x.x <= COORD_LIMIT,
            -COORD_LIMIT <= triangle.x.y <= COORD_LIMIT,
            -COORD_LIMIT <= triangle.y.x <= COORD_LIMIT,
            -COORD_LIMIT <= triangle.y.y <= COORD_LIMIT,
            -COORD_LIMIT <= triangle.z.x <= COORD_LIMIT,
            -COORD_LIMIT <= triangle.z.y <= COORD_LIMIT,
        ensures
            final(self).wf(),
            final(self).size == old(self).size,
            final(self).raw_buffer.0@.len() == old(self).raw_buffer.0@.len(),
            forall|x: int, y: int|
                0 <= x < old(self).size.width && 0 <= y < old(self).size.height
                    ==> #[trigger] final(self).pixel(x, y) == if in_triangle(
                    Vec2 { x: x as isize, y: y as isize },
                    triangle,
                ) && in_rectangle(
                    Vec2 { x: x as isize, y: y as isize },
                    triangle_box(triangle),
                ) {
                    color.0
                } else {
                    old(self).pixel(x, y)
                },
            forall|i: int|
                old(self).size.width * old(self).size.height <= i < old(
                    self,
                ).raw_buffer.0@.len() ==> final(self).raw_buffer.0@[i] == old(
                    self,
                ).raw_buffer.0@[i],
    {
        let min_xc = imin_e(triangle.x.x, imin_e(triangle.y.x, triangle.z.x));
        let max_xc = imax_e(triangle.x.x, imax_e(triangle.y.x, triangle.z.x));
        let min_yc = imin_e(triangle.x.y, imin_e(triangle.y.y, triangle.z.y));
        let max_yc = imax_e(triangle.x.y, imax_e(triangle.y.y, triangle.z.y));
        let bbox = Vec2 { x: Vec2 { x: min_xc, y: min_yc }, y: Vec2 { x: max_xc, y: max_yc } };
        proof {
            assert(bbox == triangle_box(triangle));
        }
        let rect = rectangles_intersection(self.size.to_rectangle(), bbox);
        let min_x = rect.x.x;
        let min_y = rect.x.y;
        let max_x = rect.y.x;
        let max_y = rect.y.y;
        if max_x < min_x || max_y < min_y {
            return ;
        }
        let ghost orig = *self;
        let ghost w = self.size.width as int;
        let ghost h = self.size.height as int;
        let mut x = min_x;
        while x <= max_x
            invariant
                self.wf(),
                self.size == orig.size,
                self.raw_buffer.0@.len() == orig.raw_buffer.0@.len(),
                w == orig.size.width as int,
                h == orig.size.height as int,
                0 <= min_x <= x,
                x <= max_x + 1,
                max_x < w,
                0 <= min_y,
                min_y <= max_y + 1,
                max_y < h,
                -COORD_LIMIT <= triangle.x.x <= COORD_LIMIT,
                -COORD_LIMIT <= triangle.x.y <= COORD_LIMIT,
                -COORD_LIMIT <= triangle.y.x <= COORD_LIMIT,
                -COORD_LIMIT <= triangle.y.y <= COORD_LIMIT,
                -COORD_LIMIT <= triangle.z.x <= COORD_LIMIT,
                -COORD_LIMIT <= triangle.z.y <= COORD_LIMIT,
                rect == rect_intersection(orig.size.to_rectangle_s(), triangle_box(triangle)),
                forall|px: int, py: int|
                    0 <= px < w && 0 <= py < h ==> #[trigger] self.pixel(px, py)
                        == if in_rectangle(Vec2 { x: px as isize, y: py as isize }, rect)
                        && in_triangle(Vec2 { x: px as isize, y: py as isize }, triangle) && px
                        < x {
                        color.0
                    } else {
                        orig.pixel(px, py)
                    },
                forall|i: int|
                    w * h <= i < self.raw_buffer.0@.len() ==> self.raw_buffer.0@[i]
                        == orig.raw_buffer.0@[i],
            decreases max_x + 1 - x,
        {
            let mut y = min_y;
            while y <= max_y
                invariant
                    self.wf(),
                    self.size == orig.size,
                    self.raw_buffer.0@.len() == orig.raw_buffer.0@.len(),
                    w == orig.size.width as int,
                    h == orig.size.height as int,
                    0 <= min_x <= x <= max_x,
                    max_x < w,
                    0 <= min_y <= y,
                    y <= max_y + 1,
                    max_y < h,
                    -COORD_LIMIT <= triangle.x.x <= COORD_LIMIT,
                    -COORD_LIMIT <= triangle.x.y <= COORD_LIMIT,
                    -COORD_LIMIT <= triangle.y.x <= COORD_LIMIT,
                    -COORD_LIMIT <= triangle.y.y <= COORD_LIMIT,
                    -COORD_LIMIT <= triangle.z.x <= COORD_LIMIT,
                    -COORD_LIMIT <= triangle.z.y <= COORD_LIMIT,
                    rect == rect_intersection(orig.size.to_rectangle_s(), triangle_box(triangle)),
                    forall|px: int, py: int|
                        0 <= px < w && 0 <= py < h ==> #[trigger] self.pixel(px, py)
                            == if in_rectangle(Vec2 { x: px as isize, y: py as isize }, rect)
                            && in_triangle(Vec2 { x: px as isize, y: py as isize }, triangle) && (
                        px < x || (px == x && py < y)) {
                            color.0
                        } else {
                            orig.pixel(px, py)
                        },
                    forall|i: int|
                        w * h <= i < self.raw_buffer.0@.len() ==> self.raw_buffer.0@[i]
                            == orig.raw_buffer.0@[i],
                decreases max_y + 1 - y,
            {
                let point = Vec2 { x, y };
                let ghost pre_buf = *self;
                if is_inside_triangle(point, triangle) {
                    self.raw_draw_point(point, color);
                    proof {
                        lemma_update_pixels(pre_buf, *self, x as int, y as int, color.0);
                    }
                }
                proof {
                    assert forall|px: int, py: int| 0 <= px < w && 0 <= py < h implies #[trigger] self.pixel(px, py) == if in_rectangle(Vec2 { x: px as isize, y: py as isize }, rect) && in_triangle(Vec2 { x: px as isize, y: py as isize }, triangle) && (px < x || (px == x && py < y + 1)) {
                        color.0
                    } else {
                        orig.pixel(px, py)
                    } by {
                        if px == x as int && py == y as int {
                            assert(in_rectangle(Vec2 { x: px as isize, y: py as isize }, rect));
                            if !in_triangle(point, triangle) {
                                assert(self.pixel(px, py) == pre_buf.pixel(px, py));
                                assert(pre_buf.pixel(px, py) == orig.pixel(px, py));
                            }
                        } else {
                            assert(self.pixel(px, py) == pre_buf.pixel(px, py));
                            assert(pre_buf.pixel(px, py) == if in_rectangle(Vec2 { x: px as isize, y: py as isize }, rect) && in_triangle(Vec2 { x: px as isize, y: py as isize }, triangle) && (px < x || (px == x && py < y)) {
                                color.0
                            } else {
                                orig.pixel(px, py)
                            });
                        }
                    }
                }
                y = y + 1;
            }
            x = x + 1;
        }
    }
}

/// The integer bounding box of a triangle's three corners.
pub open spec fn triangle_box(t: Vec3<Vec2<isize>>) -> Vec2<Vec2<isize>> {
    Vec2 {
        x: Vec2 { x: imin(t.x.x, imin(t.y.x, t.z.x)), y: imin(t.x.y, imin(t.y.y, t.z.y)) },
        y: Vec2 { x: imax(t.x.x, imax(t.y.x, t.z.x)), y: imax(t.x.y, imax(t.y.y, t.z.y)) },
    }
}

/// Whether a point lies on the border of a rectangle: on the top or bottom
/// row between the side columns, or on a side column between the rows.
pub open spec fn on_border(p: Vec2<isize>, rect: Vec2<Vec2<isize>>) -> bool {
    (rect.x.x <= p.x <= rect.y.x && (p.y == rect.x.y || p.y == rect.y.y)) || (rect.x.y <= p.y
        <= rect.y.y && (p.x == rect.x.x || p.x == rect.y.x))
}

fn imin_e(a: isize, b: isize) -> (r: isize)
    ensures
        r == imin(a, b),
{
    if a <= b {
        a
    } else {
        b
    }
}

fn imax_e(a: isize, b: isize) -> (r: isize)
    ensures
        r == imax(a, b),
{
    if a >= b {
        a
    } else {
        b
    }
}


/// The pixels of a Bresenham walk that stops at the first sample outside the
/// buffer.  As in [`walk`], a step that fails to approach the endpoint closes
/// the walk at once.
pub open spec fn walk_clipped(
    x1: int,
    y1: int,
    x2: int,
    y2: int,
    dx: int,
    dy: int,
    sx: int,
    sy: int,
    err: int,
    size: BufferSize,
) -> Set<(int, int)>
    decreases dist(x1, y1, x2, y2),
{
    if !(0 <= x1 < size.width && 0 <= y1 < size.height) {
        Set::empty()
    } else if x1 == x2 && y1 == y2 {
        set![(x1, y1)]
    } else {
        let e2 = 2 * err;
        let nerr = err - (if e2 > -dy {
            dy
        } else {
            0
        }) + (if e2 < dx {
            dx
        } else {
            0
        });
        let nx = if e2 > -dy {
            x1 + sx
        } else {
            x1
        };
        let ny = if e2 < dx {
            y1 + sy
        } else {
            y1
        };
        if dist(nx, ny, x2, y2) < dist(x1, y1, x2, y2) {
            walk_clipped(nx, ny, x2, y2, dx, dy, sx, sy, nerr, size).insert((x1, y1))
        } else {
            set![(x1, y1)]
        }
    }
}

/// The pixels the clipping line variant paints: it walks from an endpoint
/// that lies inside the buffer (preferring the first) and stops at the first
/// sample that leaves it; a line with both endpoints outside paints nothing.
pub open spec fn clipped_line_pixels(start: Vec2<isize>, end: Vec2<isize>, size: BufferSize) -> Set<
    (int, int),
> {
    let a = if in_buffer(start, size) {
        start
    } else {
        end
    };
    let b = if in_buffer(start, size) {
        end
    } else {
        start
    };
    if !in_buffer(a, size) {
        Set::empty()
    } else {
        let dx = iabs(b.x - a.x);
        let dy = iabs(b.y - a.y);
        let sx: int = if b.x > a.x {
            1
        } else {
            -1
        };
        let sy: int = if b.y > a.y {
            1
        } else {
            -1
        };
        walk_clipped(a.x as int, a.y as int, b.x as int, b.y as int, dx, dy, sx, sy, dx - dy, size)
    }
}

impl Buffer {
    /// Draw a line, walking only while the samples stay inside the buffer:
    /// the walk starts from an endpoint inside the buffer (the first one
    /// given, when both are) and ends at the first sample outside it.  With
    /// both endpoints outside, nothing is painted.
    pub fn accuracy_draw_line(&mut self, start: Vec2<isize>, end: Vec2<isize>, color: Color)
        requires
            old(self).wf(),
            -COORD_LIMIT <= start.x <= COORD_LIMIT,
            -COORD_LIMIT <= start.y <= COORD_LIMIT,
            -COORD_LIMIT <= end.x <= COORD_LIMIT,
            -COORD_LIMIT <= end.y <= COORD_LIMIT,
        ensures
            final(self).wf(),
            final(self).size == old(self).size,
            final(self).raw_buffer.0@.len() == old(self).raw_buffer.0@.len(),
            forall|x: int, y: int|
                0 <= x < old(self).size.width && 0 <= y < old(self).size.height
                    ==> #[trigger] final(self).pixel(x, y) == if clipped_line_pixels(
                    start,
                    end,
                    old(self).size,
                ).contains((x, y)) {
                    color.0
                } else {
                    old(self).pixel(x, y)
                },
            forall|i: int|
                old(self).size.width * old(self).size.height <= i < old(
                    self,
                ).raw_buffer.0@.len() ==> final(self).raw_buffer.0@[i] == old(
                    self,
                ).raw_buffer.0@[i],
    {
        let ghost full = clipped_line_pixels(start, end, self.size);
        let ghost orig = *self;
        let ghost w = self.size.width as int;
        let ghost h = self.size.height as int;
        let (a, b) = if is_inside_buffer(start, self.size) {
            (start, end)
        } else if is_inside_buffer(end, self.size) {
            (end, start)
        } else {
            return ;
        };
        let dx: isize = if b.x >= a.x {
            b.x - a.x
        } else {
            a.x - b.x
        };
        let dy: isize = if b.y >= a.y {
            b.y - a.y
        } else {
            a.y - b.y
        };
        let sx: isize = if b.x > a.x {
            1
        } else {
            -1
        };
        let sy: isize = if b.y > a.y {
            1
        } else {
            -1
        };
        let mut x1 = a.x;
        let mut y1 = a.y;
        let mut err: isize = dx - dy;
        proof {
            assert(full == walk_clipped(
                x1 as int,
                y1 as int,
                b.x as int,
                b.y as int,
                dx as int,
                dy as int,
                sx as int,
                sy as int,
                err as int,
                orig.size,
            ));
        }
        loop
            invariant
                self.wf(),
                orig == *old(self),
                full == clipped_line_pixels(start, end, orig.size),
                self.size == orig.size,
                self.raw_buffer.0@.len() == orig.raw_buffer.0@.len(),
                w == orig.size.width as int,
                h == orig.size.height as int,
                0 <= dx <= 2 * COORD_LIMIT,
                0 <= dy <= 2 * COORD_LIMIT,
                -2 * COORD_LIMIT <= x1 <= 2 * COORD_LIMIT,
                -2 * COORD_LIMIT <= y1 <= 2 * COORD_LIMIT,
                -COORD_LIMIT <= b.x <= COORD_LIMIT,
                -COORD_LIMIT <= b.y <= COORD_LIMIT,
                -2 * dy <= err <= 2 * dx,
                sx == 1 || sx == -1,
                sy == 1 || sy == -1,
                walk_clipped(
                    x1 as int,
                    y1 as int,
                    b.x as int,
                    b.y as int,
                    dx as int,
                    dy as int,
                    sx as int,
                    sy as int,
                    err as int,
                    orig.size,
                ) <= full,
                forall|x: int, y: int|
                    0 <= x < w && 0 <= y < h && !full.contains((x, y)) ==> #[trigger] self.pixel(
                        x,
                        y,
                    ) == orig.pixel(x, y),
                forall|x: int, y: int|
                    0 <= x < w && 0 <= y < h && full.contains((x, y)) && !walk_clipped(
                        x1 as int,
                        y1 as int,
                        b.x as int,
                        b.y as int,
                        dx as int,
                        dy as int,
                        sx as int,
                        sy as int,
                        err as int,
                        orig.size,
                    ).contains((x, y)) ==> #[trigger] self.pixel(x, y) == color.0,
                forall|x: int, y: int|
                    0 <= x < w && 0 <= y < h && full.contains((x, y)) ==> (#[trigger] self.pixel(
                        x,
                        y,
                    ) == color.0 || self.pixel(x, y) == orig.pixel(x, y)),
                forall|i: int|
                    w * h <= i < self.raw_buffer.0@.len() ==> self.raw_buffer.0@[i]
                        == orig.raw_buffer.0@[i],
            ensures
                self.wf(),
                self.size == orig.size,
                self.raw_buffer.0@.len() == orig.raw_buffer.0@.len(),
                forall|x: int, y: int|
                    0 <= x < w && 0 <= y < h ==> #[trigger] self.pixel(x, y) == if full.contains(
                        (x, y),
                    ) {
                        color.0
                    } else {
                        orig.pixel(x, y)
                    },
                forall|i: int|
                    w * h <= i < self.raw_buffer.0@.len() ==> self.raw_buffer.0@[i]
                        == orig.raw_buffer.0@[i],
            decreases dist(x1 as int, y1 as int, b.x as int, b.y as int),
        {
            let ghost cur = walk_clipped(
                x1 as int,
                y1 as int,
                b.x as int,
                b.y as int,
                dx as int,
                dy as int,
                sx as int,
                sy as int,
                err as int,
                orig.size,
            );
            let point = Vec2 { x: x1, y: y1 };
            if !is_inside_buffer(point, self.size) {
                proof {
                    assert(cur =~= Set::empty());
                }
                return ;
            }
            let ghost pre_buf = *self;
            self.raw_draw_point(point, color);
            proof {
                lemma_update_pixels(pre_buf, *self, x1 as int, y1 as int, color.0);
                assert(cur.contains((x1 as int, y1 as int)));
            }
            if x1 == b.x && y1 == b.y {
                proof {
                    assert(cur == set![(x1 as int, y1 as int)]);
                    assert forall|x: int, y: int| 0 <= x < w && 0 <= y < h implies #[trigger] self.pixel(x, y) == if full.contains((x, y)) {
                        color.0
                    } else {
                        orig.pixel(x, y)
                    } by {
                        if x == x1 as int && y == y1 as int {
                        } else {
                            assert(!cur.contains((x, y)));
                            if full.contains((x, y)) {
                                assert(pre_buf.pixel(x, y) == color.0);
                            } else {
                                assert(pre_buf.pixel(x, y) == orig.pixel(x, y));
                            }
                        }
                    }
                }
                break ;
            }
            let e2: isize = 2 * err;
            let nerr: isize = err - (if e2 > -dy {
                dy
            } else {
                0isize
            }) + (if e2 < dx {
                dx
            } else {
                0isize
            });
            let nx: isize = if e2 > -dy {
                x1 + sx
            } else {
                x1
            };
            let ny: isize = if e2 < dx {
                y1 + sy
            } else {
                y1
            };
            let still: isize = idist(x1, y1, b.x, b.y);
            let ahead: isize = idist(nx, ny, b.x, b.y);
            if ahead < still {
                proof {
                    let nwalk = walk_clipped(
                        nx as int,
                        ny as int,
                        b.x as int,
                        b.y as int,
                        dx as int,
                        dy as int,
                        sx as int,
                        sy as int,
                        nerr as int,
                        orig.size,
                    );
                    assert(cur == nwalk.insert((x1 as int, y1 as int)));
                    assert forall|p: (int, int)| nwalk.contains(p) implies full.contains(p) by {
                        assert(cur.contains(p));
                    }
                    let px = x1 as int;
                    let py = y1 as int;
                    assert forall|x: int, y: int|
                        0 <= x < w && 0 <= y < h && !full.contains((x, y)) implies #[trigger] self.pixel(x, y) == orig.pixel(x, y) by {
                        assert(pre_buf.pixel(x, y) == orig.pixel(x, y));
                    }
                    assert forall|x: int, y: int|
                        0 <= x < w && 0 <= y < h && full.contains((x, y)) && !nwalk.contains(
                            (x, y),
                        ) implies #[trigger] self.pixel(x, y) == color.0 by {
                        if x == px && y == py {
                        } else {
                            assert(!cur.contains((x, y)));
                            assert(pre_buf.pixel(x, y) == color.0);
                        }
                    }
                    assert forall|x: int, y: int|
                        0 <= x < w && 0 <= y < h && full.contains((x, y)) implies (
                        #[trigger] self.pixel(x, y) == color.0 || self.pixel(x, y) == orig.pixel(
                            x,
                            y,
                        )) by {
                        if x == px && y == py {
                        } else {
                            assert(pre_buf.pixel(x, y) == color.0 || pre_buf.pixel(x, y)
                                == orig.pixel(x, y));
                        }
                    }
                }
                x1 = nx;
                y1 = ny;
                err = nerr;
            } else {
                proof {
                    assert(cur == set![(x1 as int, y1 as int)]);
                    assert forall|x: int, y: int| 0 <= x < w && 0 <= y < h implies #[trigger] self.pixel(x, y) == if full.contains((x, y)) {
                        color.0
                    } else {
                        orig.pixel(x, y)
                    } by {
                        if x == x1 as int && y == y1 as int {
                        } else {
                            assert(!cur.contains((x, y)));
                            if full.contains((x, y)) {
                                assert(pre_buf.pixel(x, y) == color.0);
                            } else {
                                assert(pre_buf.pixel(x, y) == orig.pixel(x, y));
                            }
                        }
                    }
                }
                break ;
            }
        }
    }

    /// Draw the outline of a triangle: its three sides as clipped lines.
    pub fn draw_triangle(&mut self, triangle: Vec3<Vec2<isize>>, color: Color)
        requires
            old(self).wf(),
            -COORD_LIMIT <= triangle.x.x <= COORD_LIMIT,
            -COORD_LIMIT <= triangle.x.y <= COORD_LIMIT,
            -COORD_LIMIT <= triangle.y.x <= COORD_LIMIT,
            -COORD_LIMIT <= triangle.y.y <= COORD_LIMIT,
            -COORD_LIMIT <= triangle.z.x <= COORD_LIMIT,
            -COORD_LIMIT <= triangle.z.y <= COORD_LIMIT,
        ensures
            final(self).wf(),
            final(self).size == old(self).size,
            final(self).raw_buffer.0@.len() == old(self).raw_buffer.0@.len(),
            forall|x: int, y: int|
                0 <= x < old(self).size.width && 0 <= y < old(self).size.height
                    ==> #[trigger] final(self).pixel(x, y) == if triangle_sides(
                    triangle,
                    old(self).size,
                ).contains((x, y)) {
                    color.0
                } else {
                    old(self).pixel(x, y)
                },
            forall|i: int|
                old(self).size.width * old(self).size.height <= i < old(
                    self,
                ).raw_buffer.0@.len() ==> final(self).raw_buffer.0@[i] == old(
                    self,
                ).raw_buffer.0@[i],
    {
        self.accuracy_draw_line(triangle.x, triangle.y, color);
        self.accuracy_draw_line(triangle.x, triangle.z, color);
        self.accuracy_draw_line(triangle.y, triangle.z, color);
    }
}

/// The pixels of a triangle's outline: its three sides as clipped lines.
pub open spec fn triangle_sides(t: Vec3<Vec2<isize>>, size: BufferSize) -> Set<(int, int)> {
    clipped_line_pixels(t.x, t.y, size).union(clipped_line_pixels(t.x, t.z, size)).union(
        clipped_line_pixels(t.y, t.z, size),
    )
}


impl Buffer {
    /// Blit an image at an offset: every buffer pixel covered by the image
    /// gets the image's pixel, every other pixel keeps its value.
    #[verifier::loop_isolation(false)]
    pub fn draw_image(&mut self, image: &Image, point: Vec2<isize>)
        requires
            old(self).wf(),
            image.0.wf(),
            image.0.raw_buffer.0@.len() == image.0.size.width * image.0.size.height,
            -COORD_LIMIT <= point.x <= COORD_LIMIT,
            -COORD_LIMIT <= point.y <= COORD_LIMIT,
        ensures
            final(self).wf(),
            final(self).size == old(self).size,
            final(self).raw_buffer.0@.len() == old(self).raw_buffer.0@.len(),
            forall|x: int, y: int|
                0 <= x < old(self).size.width && 0 <= y < old(self).size.height
                    ==> #[trigger] final(self).pixel(x, y) == if point.x <= x < point.x
                    + image.0.size.width && point.y <= y < point.y + image.0.size.height {
                    image.0.pixel(x - point.x, y - point.y)
                } else {
                    old(self).pixel(x, y)
                },
            forall|i: int|
                old(self).size.width * old(self).size.height <= i < old(
                    self,
                ).raw_buffer.0@.len() ==> final(self).raw_buffer.0@[i] == old(
                    self,
                ).raw_buffer.0@[i],
    {
        let img_x: isize = image.0.size.width as isize;
        let img_y: isize = image.0.size.height as isize;
        let offset_x = point.x;
        let offset_y = point.y;
        let ghost orig = *self;
        let ghost w = self.size.width as int;
        let ghost h = self.size.height as int;
        let mut x: isize = 0;
        while x < img_x
            invariant
                self.wf(),
                self.size == orig.size,
                self.raw_buffer.0@.len() == orig.raw_buffer.0@.len(),
                0 <= x <= img_x,
                forall|px: int, py: int|
                    0 <= px < w && 0 <= py < h ==> #[trigger] self.pixel(px, py)
                        == if offset_x <= px < offset_x + img_x && offset_y <= py < offset_y
                        + img_y && px - offset_x < x {
                        image.0.pixel(px - offset_x, py - offset_y)
                    } else {
                        orig.pixel(px, py)
                    },
                forall|i: int|
                    w * h <= i < self.raw_buffer.0@.len() ==> self.raw_buffer.0@[i]
                        == orig.raw_buffer.0@[i],
            decreases img_x - x,
        {
            let mut y: isize = 0;
            while y < img_y
                invariant
                    self.wf(),
                    self.size == orig.size,
                    self.raw_buffer.0@.len() == orig.raw_buffer.0@.len(),
                    0 <= x < img_x,
                    0 <= y <= img_y,
                    forall|px: int, py: int|
                        0 <= px < w && 0 <= py < h ==> #[trigger] self.pixel(px, py)
                            == if offset_x <= px < offset_x + img_x && offset_y <= py < offset_y
                            + img_y && (px - offset_x < x || (px - offset_x == x && py - offset_y
                            < y)) {
                            image.0.pixel(px - offset_x, py - offset_y)
                        } else {
                            orig.pixel(px, py)
                        },
                    forall|i: int|
                        w * h <= i < self.raw_buffer.0@.len() ==> self.raw_buffer.0@[i]
                            == orig.raw_buffer.0@[i],
                decreases img_y - y,
            {
                let buf_point = Vec2 { x: x + offset_x, y: y + offset_y };
                let img_point = Vec2 { x, y };
                let c = Color::new(image.0.get_point(img_point));
                let ghost pre_buf = *self;
                self.draw_point(buf_point, c);
                proof {
                    if in_buffer(buf_point, orig.size) {
                        lemma_update_pixels(
                            pre_buf,
                            *self,
                            buf_point.x as int,
                            buf_point.y as int,
                            c.0,
                        );
                    }
                    assert forall|px: int, py: int| 0 <= px < w && 0 <= py < h implies #[trigger] self.pixel(px, py) == if offset_x <= px < offset_x + img_x && offset_y <= py < offset_y + img_y && (px - offset_x < x || (px - offset_x == x && py - offset_y < y + 1)) {
                        image.0.pixel(px - offset_x, py - offset_y)
                    } else {
                        orig.pixel(px, py)
                    } by {
                        if px == buf_point.x as int && py == buf_point.y as int {
                        } else {
                            if !in_buffer(buf_point, orig.size) {
                                assert(self.pixel(px, py) == pre_buf.pixel(px, py));
                            }
                            assert(pre_buf.pixel(px, py) == if offset_x <= px < offset_x + img_x && offset_y <= py < offset_y + img_y && (px - offset_x < x || (px - offset_x == x && py - offset_y < y)) {
                                image.0.pixel(px - offset_x, py - offset_y)
                            } else {
                                orig.pixel(px, py)
                            });
                        }
                    }
                }
                y = y + 1;
            }
            x = x + 1;
        }
    }
}

/// A pixel's flat index lies inside the row-major array.
pub proof fn lemma_pixel_index(x: int, y: int, w: int, h: int)
    by (nonlinear_arith)
    requires
        0 <= x < w,
        0 <= y < h,
    ensures
        0 <= y * w + x < w * h,
{
}

} // verus!
