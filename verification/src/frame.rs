//! The frame: one paint event on its way from the producer to the consumer.

use crate::geometry::{checked_frame_bytes, frame_bytes, valid_dims, DirtyRect, Region};
use std::sync::Arc;
use vstd::prelude::*;

verus! {

/// `std::time::Instant`, which a frame may carry as the time of its creation.
/// Nothing here looks inside one.
#[verifier::external_type_specification]
#[verifier::external_body]
pub struct ExInstant(std::time::Instant);

/// One paint event: the region that changed, the size of the full frame, and a
/// shared reference to the buffer that holds the full frame's bytes.
#[derive(Debug)]
pub struct Frame {
    /// Left edge of the changed region.
    pub x: i32,
    /// Top edge of the changed region.
    pub y: i32,
    /// Width of the changed region.
    pub width: i32,
    /// Height of the changed region.
    pub height: i32,
    /// Width of the full frame.
    pub full_width: i32,
    /// Height of the full frame.
    pub full_height: i32,
    /// The bytes of the full frame. A frame without them, or with none of
    /// them, carries no update.
    pub buffer: Option<Arc<Vec<u8>>>,
    /// The dirty rectangles as the render source reported them.
    pub dirty_rects: Vec<DirtyRect>,
    pub pbo_idx: Option<usize>,
    pub handle: Option<usize>,
    /// Bytes per row.
    pub stride: u32,
    /// Pixel format tag; 0 is BGRA.
    pub format: u32,
    pub modifier: u64,
    pub created_at: Option<std::time::Instant>,
}

impl Default for Frame {
    /// A frame of no size that carries nothing.
    fn default() -> (frame: Self)
        ensures
            frame.buffer is None,
            frame.region_of() == (Region { x: 0, y: 0, width: 0, height: 0 }),
            frame.full_width == 0,
            frame.full_height == 0,
            frame.dirty_rects@ == Seq::<DirtyRect>::empty(),
            frame.pbo_idx is None,
            frame.handle is None,
            frame.stride == 0,
            frame.format == 0,
            frame.modifier == 0,
            frame.created_at is None,
    {
        Frame {
            x: 0,
            y: 0,
            width: 0,
            height: 0,
            full_width: 0,
            full_height: 0,
            buffer: None,
            dirty_rects: Vec::new(),
            pbo_idx: None,
            handle: None,
            stride: 0,
            format: 0,
            modifier: 0,
            created_at: None,
        }
    }
}

impl Frame {
    /// The bytes that the frame carries; none where it has no buffer.
    pub open spec fn bytes(&self) -> Seq<u8> {
        match self.buffer {
            Some(buffer) => buffer@,
            None => Seq::empty(),
        }
    }

    /// The frame carries an update: it has a buffer and the buffer is not
    /// empty.
    pub open spec fn carries_data(&self) -> bool {
        self.bytes().len() > 0
    }

    /// The changed region.
    pub open spec fn region_of(&self) -> Region {
        Region { x: self.x, y: self.y, width: self.width, height: self.height }
    }

    /// The frame's full size is that of `other`.
    pub open spec fn same_size(&self, other: &Frame) -> bool {
        self.full_width == other.full_width && self.full_height == other.full_height
    }

    /// The frame can be uploaded: it carries data, its dimensions describe a
    /// frame, its region lies inside that frame, and its buffer holds all of
    /// the frame's bytes.
    pub open spec fn uploadable(&self) -> bool {
        &&& self.carries_data()
        &&& valid_dims(self.full_width as int, self.full_height as int)
        &&& self.region_of().within(self.full_width as int, self.full_height as int)
        &&& frame_bytes(self.full_width as int, self.full_height as int) <= self.bytes().len()
    }

    /// Tells whether the frame carries an update.
    pub fn has_data(&self) -> (present: bool)
        ensures
            present == self.carries_data(),
    {
        match &self.buffer {
            Some(buffer) => buffer.len() > 0,
            None => false,
        }
    }

    /// The changed region.
    pub fn region(&self) -> (region: Region)
        ensures
            region == self.region_of(),
    {
        Region { x: self.x, y: self.y, width: self.width, height: self.height }
    }

    /// Tells whether the frame has the full size of `other`.
    pub fn has_size_of(&self, other: &Frame) -> (same: bool)
        ensures
            same == self.same_size(other),
    {
        self.full_width == other.full_width && self.full_height == other.full_height
    }

    /// Tells whether the frame can be uploaded.
    pub fn is_uploadable(&self) -> (ok: bool)
        ensures
            ok == self.uploadable(),
    {
        match &self.buffer {
            Some(buffer) => {
                let len = buffer.len();
                match checked_frame_bytes(self.full_width, self.full_height) {
                    Some(size) => len > 0 && size <= len && self.region().is_within(
                        self.full_width,
                        self.full_height,
                    ),
                    None => false,
                }
            },
            None => false,
        }
    }
}

} // verus!
