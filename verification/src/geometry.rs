//! Frame sizes, regions of a frame, and the bounding box of dirty rectangles.

use vstd::prelude::*;

verus! {

/// Largest byte size of a frame: sizes are computed in `i32`, as the
/// dimensions are.
pub const MAX_FRAME_BYTES: usize = 0x7fff_ffff;

/// A dirty rectangle as the render source reports it: x, y, width, height.
pub type DirtyRect = (i32, i32, i32, i32);

/// Number of bytes of a tightly packed frame of four bytes per pixel.
pub open spec fn frame_bytes(width: int, height: int) -> int {
    width * height * 4
}

/// Dimensions that describe a frame: neither is negative, and the byte size
/// of the frame fits in `i32`.
pub open spec fn valid_dims(width: int, height: int) -> bool {
    &&& 0 <= width
    &&& 0 <= height
    &&& frame_bytes(width, height) <= MAX_FRAME_BYTES
}

/// A row of a frame that has a row fits in the frame: its byte size is at
/// most that of the frame.
pub proof fn lemma_row_fits(width: int, height: int)
    requires
        valid_dims(width, height),
        height >= 1,
    ensures
        0 <= width * 4 <= frame_bytes(width, height),
{
    assert(0 <= width * 4 <= width * height * 4) by (nonlinear_arith)
        requires
            0 <= width,
            1 <= height,
    ;
}

/// Tells whether `width` and `height` describe a frame, and its byte size if
/// they do.
pub fn checked_frame_bytes(width: i32, height: i32) -> (size: Option<usize>)
    ensures
        size is Some <==> valid_dims(width as int, height as int),
        size matches Some(n) ==> n as int == frame_bytes(width as int, height as int),
{
    if width < 0 || height < 0 {
        return None;
    }
    assert(0 <= (width as int) * (height as int) <= 0x7fff_ffff * 0x7fff_ffff) by (nonlinear_arith)
        requires
            0 <= width <= 0x7fff_ffff,
            0 <= height <= 0x7fff_ffff,
    ;
    let area: i64 = (width as i64) * (height as i64);
    if area > 0x1fff_ffff {
        return None;
    }
    let size: i64 = area * 4;
    Some(size as usize)
}

/// A rectangle of pixels inside a frame.
#[derive(Clone, Copy, Debug, PartialEq, Eq, Structural)]
pub struct Region {
    pub x: i32,
    pub y: i32,
    pub width: i32,
    pub height: i32,
}

impl Region {
    /// The region lies inside a frame of `full_width` by `full_height`.
    pub open spec fn within(self, full_width: int, full_height: int) -> bool {
        &&& 0 <= self.x
        &&& 0 <= self.y
        &&& 0 <= self.width
        &&& 0 <= self.height
        &&& self.x + self.width <= full_width
        &&& self.y + self.height <= full_height
    }

    /// The region is the whole frame of `full_width` by `full_height`.
    pub open spec fn covers(self, full_width: int, full_height: int) -> bool {
        &&& self.x == 0
        &&& self.y == 0
        &&& self.width == full_width
        &&& self.height == full_height
    }

    /// The pixel in column `col` of row `row` lies in the region.
    pub open spec fn contains(self, col: int, row: int) -> bool {
        &&& self.x <= col < self.x + self.width
        &&& self.y <= row < self.y + self.height
    }

    /// The whole frame as a region.
    pub fn full(full_width: i32, full_height: i32) -> (region: Region)
        ensures
            region == (Region { x: 0, y: 0, width: full_width, height: full_height }),
    {
        Region { x: 0, y: 0, width: full_width, height: full_height }
    }

    /// Tells whether the region lies inside a frame of the given size.
    pub fn is_within(&self, full_width: i32, full_height: i32) -> (inside: bool)
        ensures
            inside == self.within(full_width as int, full_height as int),
    {
        self.x >= 0 && self.y >= 0 && self.width >= 0 && self.height >= 0 && self.x as i64
            + self.width as i64 <= full_width as i64 && self.y as i64 + self.height as i64
            <= full_height as i64
    }

    /// Tells whether the region is the whole frame of the given size.
    pub fn is_full(&self, full_width: i32, full_height: i32) -> (whole: bool)
        ensures
            whole == self.covers(full_width as int, full_height as int),
    {
        self.x == 0 && self.y == 0 && self.width == full_width && self.height == full_height
    }
}

/// The smaller of two integers.
pub open spec fn lesser(a: int, b: int) -> int {
    if a <= b {
        a
    } else {
        b
    }
}

/// The larger of two integers.
pub open spec fn greater(a: int, b: int) -> int {
    if a >= b {
        a
    } else {
        b
    }
}

/// Least of `bound` and the left edges of the first `n` rectangles.
pub open spec fn least_left(rects: Seq<DirtyRect>, n: int, bound: int) -> int
    decreases n,
{
    if n <= 0 {
        bound
    } else {
        lesser(least_left(rects, n - 1, bound), rects[n - 1].0 as int)
    }
}

/// Least of `bound` and the top edges of the first `n` rectangles.
pub open spec fn least_top(rects: Seq<DirtyRect>, n: int, bound: int) -> int
    decreases n,
{
    if n <= 0 {
        bound
    } else {
        lesser(least_top(rects, n - 1, bound), rects[n - 1].1 as int)
    }
}

/// Greatest of `bound` and the right edges of the first `n` rectangles.
pub open spec fn greatest_right(rects: Seq<DirtyRect>, n: int, bound: int) -> int
    decreases n,
{
    if n <= 0 {
        bound
    } else {
        greater(greatest_right(rects, n - 1, bound), rects[n - 1].0 + rects[n - 1].2)
    }
}

/// Greatest of `bound` and the bottom edges of the first `n` rectangles.
pub open spec fn greatest_bottom(rects: Seq<DirtyRect>, n: int, bound: int) -> int
    decreases n,
{
    if n <= 0 {
        bound
    } else {
        greater(greatest_bottom(rects, n - 1, bound), rects[n - 1].1 + rects[n - 1].3)
    }
}

/// The region that a paint event updates: the smallest rectangle that holds
/// every dirty rectangle, cut to the frame. Where no dirty rectangle is given,
/// or nothing of them lies inside the frame, it is the whole frame.
pub open spec fn bounding_box(rects: Seq<DirtyRect>, width: int, height: int) -> Region {
    let n = rects.len() as int;
    let left = greater(least_left(rects, n, width), 0);
    let top = greater(least_top(rects, n, height), 0);
    let right = lesser(greatest_right(rects, n, 0), width);
    let bottom = lesser(greatest_bottom(rects, n, 0), height);
    if n > 0 && right > left && bottom > top {
        Region {
            x: left as i32,
            y: top as i32,
            width: (right - left) as i32,
            height: (bottom - top) as i32,
        }
    } else {
        Region { x: 0, y: 0, width: width as i32, height: height as i32 }
    }
}

/// The edges that `bounding_box` is made of bound every rectangle, and stay
/// on their side of the bound they started from.
pub proof fn lemma_edges(rects: Seq<DirtyRect>, n: int, low: int, high: int)
    requires
        0 <= n <= rects.len(),
    ensures
        least_left(rects, n, high) <= high,
        least_top(rects, n, high) <= high,
        greatest_right(rects, n, low) >= low,
        greatest_bottom(rects, n, low) >= low,
        forall|i: int|
            0 <= i < n ==> {
                &&& least_left(rects, n, high) <= (#[trigger] rects[i]).0
                &&& least_top(rects, n, high) <= rects[i].1
                &&& greatest_right(rects, n, low) >= rects[i].0 + rects[i].2
                &&& greatest_bottom(rects, n, low) >= rects[i].1 + rects[i].3
            },
    decreases n,
{
    if n > 0 {
        lemma_edges(rects, n - 1, low, high);
    }
}

/// The bounding box lies inside the frame, and it is not empty unless the
/// frame is.
pub proof fn lemma_bounding_box_within(rects: Seq<DirtyRect>, width: int, height: int)
    requires
        0 <= width <= i32::MAX,
        0 <= height <= i32::MAX,
    ensures
        bounding_box(rects, width, height).within(width, height),
        width > 0 && height > 0 ==> bounding_box(rects, width, height).width > 0 && bounding_box(
            rects,
            width,
            height,
        ).height > 0,
{
    lemma_edges(rects, rects.len() as int, 0, width);
    lemma_edges(rects, rects.len() as int, 0, height);
}

/// Every pixel of the frame that lies in one of the dirty rectangles lies in
/// the bounding box.
pub proof fn lemma_bounding_box_holds_dirty_pixels(
    rects: Seq<DirtyRect>,
    width: int,
    height: int,
    i: int,
    col: int,
    row: int,
)
    requires
        0 <= width <= i32::MAX,
        0 <= height <= i32::MAX,
        0 <= i < rects.len(),
        0 <= col < width,
        0 <= row < height,
        rects[i].0 <= col < rects[i].0 + rects[i].2,
        rects[i].1 <= row < rects[i].1 + rects[i].3,
    ensures
        bounding_box(rects, width, height).contains(col, row),
{
    lemma_edges(rects, rects.len() as int, 0, width);
    lemma_edges(rects, rects.len() as int, 0, height);
}

/// Computes the bounding box of the dirty rectangles of a paint event on a
/// frame of `width` by `height`.
pub fn dirty_bounding_box(rects: &[DirtyRect], width: i32, height: i32) -> (region: Region)
    ensures
        region == bounding_box(rects@, width as int, height as int),
        0 <= width && 0 <= height ==> region.within(width as int, height as int),
{
    proof {
        if 0 <= width && 0 <= height {
            lemma_bounding_box_within(rects@, width as int, height as int);
        }
    }
    let count = rects.len();
    if count == 0 {
        return Region::full(width, height);
    }
    let mut min_x: i64 = width as i64;
    let mut min_y: i64 = height as i64;
    let mut max_x: i64 = 0;
    let mut max_y: i64 = 0;
    let mut i: usize = 0;
    while i < count
        invariant
            i <= count,
            count == rects@.len(),
            min_x == least_left(rects@, i as int, width as int),
            min_y == least_top(rects@, i as int, height as int),
            max_x == greatest_right(rects@, i as int, 0),
            max_y == greatest_bottom(rects@, i as int, 0),
            -0x8000_0000 <= min_x <= 0x7fff_ffff,
            -0x8000_0000 <= min_y <= 0x7fff_ffff,
            0 <= max_x <= 0xffff_fffe,
            0 <= max_y <= 0xffff_fffe,
        decreases count - i,
    {
        let r = rects[i];
        let right: i64 = r.0 as i64 + r.2 as i64;
        let bottom: i64 = r.1 as i64 + r.3 as i64;
        if (r.0 as i64) < min_x {
            min_x = r.0 as i64;
        }
        if (r.1 as i64) < min_y {
            min_y = r.1 as i64;
        }
        if right > max_x {
            max_x = right;
        }
        if bottom > max_y {
            max_y = bottom;
        }
        i += 1;
    }
    if min_x < 0 {
        min_x = 0;
    }
    if min_y < 0 {
        min_y = 0;
    }
    if max_x > width as i64 {
        max_x = width as i64;
    }
    if max_y > height as i64 {
        max_y = height as i64;
    }
    if max_x > min_x && max_y > min_y {
        Region {
            x: min_x as i32,
            y: min_y as i32,
            width: (max_x - min_x) as i32,
            height: (max_y - min_y) as i32,
        }
    } else {
        Region::full(width, height)
    }
}

} // verus!
