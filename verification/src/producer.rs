//! The producer side: from a paint event to a frame.
//!
//! The render source hands over a full frame of bytes with the rectangles
//! that changed. The producer takes a buffer from the pool, copies the
//! changed part into it and wraps a shared reference to the buffer in a
//! frame. It never waits: where the pool has no buffer to give, the paint
//! event is dropped.

use crate::blit::{blit, copy_region, lemma_pixel_bytes};
use crate::frame::Frame;
use crate::geometry::{
    bounding_box, checked_frame_bytes, dirty_bounding_box, frame_bytes,
    lemma_bounding_box_holds_dirty_pixels, lemma_row_fits, valid_dims, DirtyRect,
};
use crate::pool::{first_free, grown, slot_at, BufferPool, PoolView, SlotView, BUFFER_COUNT};
use vstd::prelude::*;
use vstd::slice::slice_to_vec;

verus! {

/// A paint event can be taken: the dimensions describe a frame and `pixels`
/// holds all of its bytes.
pub open spec fn paintable(pixels: Seq<u8>, width: int, height: int) -> bool {
    valid_dims(width, height) && frame_bytes(width, height) <= pixels.len()
}

/// The byte size of a row of `width` pixels as a frame carries it: in 32
/// bits. It is the byte size itself for every frame that has a row.
pub open spec fn stride_of(width: int) -> u32 {
    ((width * 4) % 0x1_0000_0000) as u32
}

/// The stride of a frame that has a row is the byte size of its rows.
pub proof fn lemma_stride(width: int, height: int)
    requires
        valid_dims(width, height),
        height >= 1,
    ensures
        stride_of(width) == width * 4,
{
    lemma_row_fits(width, height);
}

/// `frame` is what painting `pixels` into slot `idx` of the pool `before`
/// gives, and `after` is the pool then.
pub open spec fn painted_into(
    before: PoolView,
    after: PoolView,
    idx: int,
    frame: Frame,
    pixels: Seq<u8>,
    width: i32,
    height: i32,
    rects: Seq<DirtyRect>,
) -> bool {
    let region = bounding_box(rects, width as int, height as int);
    let data = blit(
        grown(before.slots[idx].data, frame_bytes(width as int, height as int)),
        pixels,
        region,
        width as int,
    );
    &&& 0 <= idx < BUFFER_COUNT
    &&& after.slots == before.slots.update(
        idx,
        SlotView { data, width: width as int, height: height as int },
    )
    &&& after.cursor == slot_at(idx, 1)
    &&& frame.buffer is Some
    &&& frame.bytes() == data
    &&& frame.region_of() == region
    &&& frame.full_width == width
    &&& frame.full_height == height
    &&& frame.dirty_rects@ == rects
    &&& frame.stride == stride_of(width as int)
    &&& frame.format == 0
    &&& frame.modifier == 0
    &&& frame.pbo_idx is None
    &&& frame.handle is None
    &&& frame.created_at is None
}

/// What changed reaches the frame: every byte of a pixel of the frame that
/// lies in one of the dirty rectangles is, in the frame's buffer, what the
/// paint event held there.
pub proof fn lemma_frame_carries_dirty_pixels(
    before: PoolView,
    after: PoolView,
    idx: int,
    frame: Frame,
    pixels: Seq<u8>,
    width: i32,
    height: i32,
    rects: Seq<DirtyRect>,
    i: int,
    col: int,
    row: int,
    channel: int,
)
    requires
        paintable(pixels, width as int, height as int),
        painted_into(before, after, idx, frame, pixels, width, height, rects),
        0 <= i < rects.len(),
        0 <= col < width,
        0 <= row < height,
        0 <= channel < 4,
        rects[i].0 <= col < rects[i].0 + rects[i].2,
        rects[i].1 <= row < rects[i].1 + rects[i].3,
    ensures
        (row * width + col) * 4 + channel < frame.bytes().len(),
        frame.bytes()[(row * width + col) * 4 + channel] == pixels[(row * width + col) * 4
            + channel],
{
    let w = width as int;
    let h = height as int;
    lemma_bounding_box_holds_dirty_pixels(rects, w, h, i, col, row);
    lemma_pixel_bytes(col, row, channel, bounding_box(rects, w, h), w);
    assert((row * w + col) * 4 + channel < w * h * 4) by (nonlinear_arith)
        requires
            0 <= col < w,
            0 <= row < h,
            0 <= channel < 4,
    ;
}

/// Handles one paint event for a caller that has looked at the pool's slots:
/// `pixels` is the full frame of `width` by `height`, `dirty_rects` the
/// rectangles that changed, and `free` tells which slots nobody else holds.
///
/// The changed region is the bounding box of the dirty rectangles. The first
/// free slot from the cursor on is taken for the full frame, the region is
/// copied into its buffer, and the frame that comes back shares that buffer.
/// A frame comes back exactly if the event can be taken and a slot is free;
/// else the pool is left as it was.
pub fn paint_among(
    pool: &mut BufferPool,
    free: &[bool; BUFFER_COUNT],
    pixels: &[u8],
    width: i32,
    height: i32,
    dirty_rects: &[DirtyRect],
) -> (painted: Option<Frame>)
    ensures
        painted is Some <==> paintable(pixels@, width as int, height as int) && first_free(
            old(pool)@.cursor,
            free@,
        ) is Some,
        match painted {
            Some(frame) => painted_into(
                old(pool)@,
                final(pool)@,
                first_free(old(pool)@.cursor, free@)->0,
                frame,
                pixels@,
                width,
                height,
                dirty_rects@,
            ),
            None => final(pool)@ == old(pool)@,
        },
{
    let size = match checked_frame_bytes(width, height) {
        Some(size) => size,
        None => { return None; },
    };
    if pixels.len() < size {
        return None;
    }
    let region = dirty_bounding_box(dirty_rects, width, height);
    let ghost before = pool@;
    proof {
        pool.lemma_shape();
    }
    let idx = match pool.acquire_among(free, width, height) {
        Some((idx, dest)) => {
            copy_region(dest.as_mut_slice(), pixels, region, width, height);
            idx
        },
        None => { return None; },
    };
    let shared = match pool.get_buffer_arc(idx) {
        Some(shared) => shared,
        None => { return None; },
    };
    let frame = Frame {
        x: region.x,
        y: region.y,
        width: region.width,
        height: region.height,
        full_width: width,
        full_height: height,
        buffer: Some(shared),
        dirty_rects: slice_to_vec(dirty_rects),
        format: 0,
        stride: ((width as u64 * 4) % 0x1_0000_0000) as u32,
        pbo_idx: None,
        handle: None,
        modifier: 0,
        created_at: None,
    };
    proof {
        assert(painted_into(
            before,
            pool@,
            idx as int,
            frame,
            pixels@,
            width,
            height,
            dirty_rects@,
        ));
    }
    Some(frame)
}

/// Handles one paint event: `pixels` is the full frame of `width` by
/// `height`, `dirty_rects` the rectangles that changed.
///
/// The pool looks at its slots as `probe` does, and the event is handled as
/// `paint_among` says for what the look found: the changed region is the
/// bounding box of the dirty rectangles, a buffer is acquired from the pool
/// for the full frame, the region is copied into it, and the frame that comes
/// back shares that buffer. Nothing comes back, and the pool is left as it
/// was, where the event cannot be taken or the pool has no free buffer.
pub fn paint(
    pool: &mut BufferPool,
    pixels: &[u8],
    width: i32,
    height: i32,
    dirty_rects: &[DirtyRect],
) -> (painted: Option<Frame>)
    ensures
        !paintable(pixels@, width as int, height as int) ==> painted is None,
        match painted {
            Some(frame) => exists|idx: int|
                painted_into(
                    old(pool)@,
                    final(pool)@,
                    idx,
                    frame,
                    pixels@,
                    width,
                    height,
                    dirty_rects@,
                ),
            None => final(pool)@ == old(pool)@,
        },
{
    let free = pool.probe();
    paint_among(pool, &free, pixels, width, height, dirty_rects)
}

} // verus!
