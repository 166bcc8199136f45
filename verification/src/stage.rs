//! The consumer side: which frames of a drain are uploaded, and how.
//!
//! Once per display tick the consumer drains the queue and uploads what it
//! got to one persistent texture, through two transfer buffers that take
//! turns. This module decides; the calls to the graphics library are the
//! caller's. A frame whose full size differs from that of the frame behind it
//! is an intermediate step of a resize and is passed over. Of the frames that
//! are left, those are uploaded whose buffer holds what they describe. The
//! texture and the transfer buffers are resized only when the full size
//! changes.

use crate::blit::{blit, copy_region, in_region};
use crate::frame::Frame;
use crate::geometry::{checked_frame_bytes, frame_bytes, valid_dims, Region};
use crate::queue::{carrying_data, FrameQueue};
use vstd::prelude::*;

verus! {

/// Number of transfer buffers.
pub const TRANSFER_COUNT: usize = 2;

/// What the consumer remembers between uploads: the size of the texture and
/// the transfer buffer that was written last.
pub struct TextureStage {
    last_width: i32,
    last_height: i32,
    pbo_index: usize,
}

/// The state of a stage.
pub struct StageView {
    pub width: int,
    pub height: int,
    pub transfer: int,
}

impl View for TextureStage {
    type V = StageView;

    closed spec fn view(&self) -> StageView {
        StageView {
            width: self.last_width as int,
            height: self.last_height as int,
            transfer: (self.pbo_index % TRANSFER_COUNT) as int,
        }
    }
}

/// One upload of a tick.
#[derive(Clone, Copy, Debug, PartialEq, Eq, Structural)]
pub struct Upload {
    /// Place of the frame in the drained list.
    pub index: usize,
    /// The texture and both transfer buffers are resized to the frame's full
    /// size before anything is written.
    pub resize: bool,
    /// The transfer buffer to map and write.
    pub transfer: usize,
    /// Byte size of the full frame: the size of the mapping.
    pub size: usize,
    /// The region of the texture to update.
    pub region: Region,
    /// Width of the full frame: the row length of the transfer buffer, in
    /// pixels.
    pub full_width: i32,
    /// Height of the full frame.
    pub full_height: i32,
    /// Byte offset in the transfer buffer of the region's first pixel.
    pub offset: u64,
}

/// The frame at place `i` of a drain survives: it is the last one, or the
/// frame behind it has the same full size.
pub open spec fn survives(frames: Seq<Frame>, i: int) -> bool {
    i + 1 >= frames.len() || frames[i].same_size(&frames[i + 1])
}

/// Tells whether the frame at place `i` of a drain survives.
pub fn is_kept(frames: &[Frame], i: usize) -> (kept: bool)
    requires
        i < frames@.len(),
    ensures
        kept == survives(frames@, i as int),
{
    let count = frames.len();
    i + 1 == count || frames[i].has_size_of(&frames[i + 1])
}

/// The size to which a transfer buffer of `current` bytes is brought for a
/// frame of `width` by `height`: that of the frame, whether the buffer has to
/// grow or to shrink. None where the buffer has that size already, or where no
/// frame has such dimensions.
pub open spec fn resize_of(current: int, width: int, height: int) -> Option<int> {
    if valid_dims(width, height) && frame_bytes(width, height) != current {
        Some(frame_bytes(width, height))
    } else {
        None
    }
}

/// Decides whether a transfer buffer of `current` bytes has to be resized
/// for a frame of `width` by `height`, and to what size.
pub fn transfer_resize(current: usize, width: i32, height: i32) -> (resized: Option<usize>)
    ensures
        match resized {
            Some(size) => resize_of(current as int, width as int, height as int) == Some(
                size as int,
            ),
            None => resize_of(current as int, width as int, height as int) is None,
        },
{
    match checked_frame_bytes(width, height) {
        Some(size) => if size != current {
            Some(size)
        } else {
            None
        },
        None => None,
    }
}

/// The upload of `frame`, the one at place `index`, by a stage in the state
/// `before`.
pub open spec fn upload_of(before: StageView, frame: Frame, index: int) -> Upload {
    Upload {
        index: index as usize,
        resize: frame.full_width != before.width || frame.full_height != before.height,
        transfer: ((before.transfer + 1) % (TRANSFER_COUNT as int)) as usize,
        size: frame_bytes(frame.full_width as int, frame.full_height as int) as usize,
        region: frame.region_of(),
        full_width: frame.full_width,
        full_height: frame.full_height,
        offset: ((frame.y * frame.full_width + frame.x) * 4) as u64,
    }
}

/// The state of a stage after it has uploaded `frame`.
pub open spec fn stage_after(before: StageView, frame: Frame) -> StageView {
    StageView {
        width: frame.full_width as int,
        height: frame.full_height as int,
        transfer: (before.transfer + 1) % (TRANSFER_COUNT as int),
    }
}

/// The frame at place `i` of a drain is uploaded: it survives, and its buffer
/// holds what it describes.
pub open spec fn uploaded(frames: Seq<Frame>, i: int) -> bool {
    survives(frames, i) && frames[i].uploadable()
}

/// What a stage in the state `stage` does with the first `n` frames of a
/// drain: the uploads in their order, and the state it is in afterwards.
pub open spec fn planned(stage: StageView, frames: Seq<Frame>, n: int) -> (Seq<Upload>, StageView)
    decreases n,
{
    if n <= 0 {
        (Seq::empty(), stage)
    } else {
        let (uploads, state) = planned(stage, frames, n - 1);
        if uploaded(frames, n - 1) {
            (
                uploads.push(upload_of(state, frames[n - 1], n - 1)),
                stage_after(state, frames[n - 1]),
            )
        } else {
            (uploads, state)
        }
    }
}

/// The uploads of a plan come in the order of the frames, each for a frame
/// that is uploaded, and the transfer buffers take turns from one upload to
/// the next.
pub proof fn lemma_planned_uploads(stage: StageView, frames: Seq<Frame>, n: int)
    requires
        0 <= n <= frames.len() <= usize::MAX,
        0 <= stage.transfer < TRANSFER_COUNT,
    ensures
        planned(stage, frames, n).0.len() <= n,
        planned(stage, frames, n).1.transfer == (stage.transfer + planned(stage, frames, n).0.len())
            % (TRANSFER_COUNT as int),
        forall|k: int|
            #![trigger planned(stage, frames, n).0[k]]
            0 <= k < planned(stage, frames, n).0.len() ==> {
                let upload = planned(stage, frames, n).0[k];
                &&& 0 <= upload.index < n
                &&& uploaded(frames, upload.index as int)
                &&& upload.transfer == (stage.transfer + k + 1) % (TRANSFER_COUNT as int)
                &&& upload.region == frames[upload.index as int].region_of()
                &&& k > 0 ==> planned(stage, frames, n).0[k - 1].index < upload.index
            },
    decreases n,
{
    if n > 0 {
        lemma_planned_uploads(stage, frames, n - 1);
        let earlier = planned(stage, frames, n - 1).0;
        let state = planned(stage, frames, n - 1).1;
        let uploads = planned(stage, frames, n).0;
        if uploaded(frames, n - 1) {
            let added = upload_of(state, frames[n - 1], n - 1);
            assert(uploads == earlier.push(added));
            assert(added.index == n - 1);
            assert(added.transfer == (stage.transfer + earlier.len() + 1) % (TRANSFER_COUNT as int));
            assert forall|k: int| #![trigger uploads[k]] 0 <= k < uploads.len() implies {
                let upload = uploads[k];
                &&& 0 <= upload.index < n
                &&& uploaded(frames, upload.index as int)
                &&& upload.transfer == (stage.transfer + k + 1) % (TRANSFER_COUNT as int)
                &&& upload.region == frames[upload.index as int].region_of()
                &&& k > 0 ==> uploads[k - 1].index < upload.index
            } by {
                if k < earlier.len() {
                    assert(uploads[k] == earlier[k]);
                    if k > 0 {
                        assert(uploads[k - 1] == earlier[k - 1]);
                    }
                } else {
                    assert(uploads[k] == added);
                    if k > 0 {
                        assert(uploads[k - 1] == earlier[k - 1]);
                    }
                }
            }
        } else {
            assert(uploads == earlier);
        }
    }
}

/// Every frame that is uploaded has its upload in the plan.
pub proof fn lemma_survivors_are_planned(stage: StageView, frames: Seq<Frame>, n: int, i: int)
    requires
        0 <= i < n <= frames.len() <= usize::MAX,
        uploaded(frames, i),
    ensures
        exists|k: int|
            0 <= k < planned(stage, frames, n).0.len() && (#[trigger] planned(
                stage,
                frames,
                n,
            ).0[k]).index == i,
    decreases n,
{
    let earlier = planned(stage, frames, n - 1).0;
    let uploads = planned(stage, frames, n).0;
    if i == n - 1 {
        assert(uploads[uploads.len() - 1].index == i);
    } else {
        lemma_survivors_are_planned(stage, frames, n - 1, i);
        let k = choose|k: int| 0 <= k < earlier.len() && (#[trigger] earlier[k]).index == i;
        assert(uploads[k] == earlier[k]);
    }
}

/// The texture is resized only when the full size changes: an upload resizes
/// exactly if its frame's full size is not that of the frame uploaded before
/// it, or, for the first upload, not that of the texture.
pub proof fn lemma_resize_only_on_change(stage: StageView, frames: Seq<Frame>, n: int)
    requires
        0 <= n <= frames.len(),
    ensures
        forall|k: int|
            #![trigger planned(stage, frames, n).0[k]]
            0 <= k < planned(stage, frames, n).0.len() ==> {
                let uploads = planned(stage, frames, n).0;
                let upload = uploads[k];
                let width = if k == 0 {
                    stage.width
                } else {
                    uploads[k - 1].full_width as int
                };
                let height = if k == 0 {
                    stage.height
                } else {
                    uploads[k - 1].full_height as int
                };
                upload.resize == (upload.full_width != width || upload.full_height != height)
            },
        planned(stage, frames, n).0.len() == 0 ==> planned(stage, frames, n).1 == stage,
        planned(stage, frames, n).0.len() > 0 ==> {
            let uploads = planned(stage, frames, n).0;
            &&& planned(stage, frames, n).1.width == uploads[uploads.len() - 1].full_width
            &&& planned(stage, frames, n).1.height == uploads[uploads.len() - 1].full_height
        },
    decreases n,
{
    if n > 0 {
        lemma_resize_only_on_change(stage, frames, n - 1);
    }
}

/// The last frame of a drain is uploaded if its buffer holds what it
/// describes, and the texture has its full size afterwards.
pub proof fn lemma_last_frame_is_uploaded(stage: StageView, frames: Seq<Frame>)
    requires
        0 < frames.len() <= usize::MAX,
        frames.last().uploadable(),
    ensures
        planned(stage, frames, frames.len() as int).0.len() > 0,
        planned(stage, frames, frames.len() as int).0.last().index == frames.len() - 1,
        planned(stage, frames, frames.len() as int).1.width == frames.last().full_width,
        planned(stage, frames, frames.len() as int).1.height == frames.last().full_height,
{
}

/// What the transfer buffer held before a frame was written to it does not
/// reach the texture: updating the texture's region from the written buffer
/// gives what updating it from the frame's bytes gives.
pub proof fn lemma_transfer_is_transparent(
    texture: Seq<u8>,
    transfer: Seq<u8>,
    bytes: Seq<u8>,
    region: Region,
    full_width: int,
)
    requires
        texture.len() <= transfer.len(),
    ensures
        blit(texture, blit(transfer, bytes, region, full_width), region, full_width) == blit(
            texture,
            bytes,
            region,
            full_width,
        ),
{
    assert(blit(texture, blit(transfer, bytes, region, full_width), region, full_width) =~= blit(
        texture,
        bytes,
        region,
        full_width,
    ));
}

/// The texture follows the render source from upload to upload: where it
/// held the source's frame but for the pixels of a region, and the frame that
/// is uploaded holds the source's bytes for those, it holds the source's frame
/// afterwards.
pub proof fn lemma_incremental_update(
    texture: Seq<u8>,
    bytes: Seq<u8>,
    source: Seq<u8>,
    region: Region,
    full_width: int,
    k: int,
)
    requires
        0 <= k < texture.len(),
        in_region(k, region, full_width) ==> bytes[k] == source[k],
        !in_region(k, region, full_width) ==> texture[k] == source[k],
    ensures
        blit(texture, bytes, region, full_width)[k] == source[k],
{
}

impl TextureStage {
    /// A stage whose texture has no size yet.
    pub fn new() -> (stage: Self)
        ensures
            stage@ == (StageView { width: 0, height: 0, transfer: 0 }),
    {
        TextureStage { last_width: 0, last_height: 0, pbo_index: 0 }
    }

    /// Width of the texture.
    pub fn width(&self) -> (width: i32)
        ensures
            width == self@.width,
    {
        self.last_width
    }

    /// Height of the texture.
    pub fn height(&self) -> (height: i32)
        ensures
            height == self@.height,
    {
        self.last_height
    }

    /// The transfer buffer that was written last.
    pub fn transfer(&self) -> (transfer: usize)
        ensures
            transfer == self@.transfer,
            transfer < TRANSFER_COUNT,
    {
        self.pbo_index % TRANSFER_COUNT
    }

    /// The transfer index of a stage is that of one of the transfer buffers.
    pub proof fn lemma_transfer_in_range(&self)
        ensures
            0 <= self@.transfer < TRANSFER_COUNT,
    {
    }

    /// Decides the uploads of one tick for the frames of a drain, and moves
    /// the stage to the state it is in after them. A frame is uploaded if it
    /// survives and its buffer holds what it describes; no other frame
    /// changes the stage.
    pub fn plan(&mut self, frames: &[Frame]) -> (uploads: Vec<Upload>)
        ensures
            uploads@ == planned(old(self)@, frames@, frames@.len() as int).0,
            final(self)@ == planned(old(self)@, frames@, frames@.len() as int).1,
    {
        let count = frames.len();
        let mut uploads: Vec<Upload> = Vec::new();
        let mut i: usize = 0;
        while i < count
            invariant
                i <= count,
                count == frames@.len(),
                uploads@ == planned(old(self)@, frames@, i as int).0,
                self@ == planned(old(self)@, frames@, i as int).1,
            decreases count - i,
        {
            if is_kept(frames, i) && frames[i].is_uploadable() {
                let upload = self.begin_upload(&frames[i], i);
                uploads.push(upload);
            }
            i += 1;
        }
        uploads
    }

    /// Decides the upload of one frame, the one at place `index` of its
    /// drain, and moves the stage to the state it is in after it.
    pub fn begin_upload(&mut self, frame: &Frame, index: usize) -> (upload: Upload)
        requires
            frame.uploadable(),
        ensures
            upload == upload_of(old(self)@, *frame, index as int),
            final(self)@ == stage_after(old(self)@, *frame),
    {
        let resize = frame.full_width != self.last_width || frame.full_height != self.last_height;
        if resize {
            self.last_width = frame.full_width;
            self.last_height = frame.full_height;
        }
        let transfer = (self.pbo_index % TRANSFER_COUNT + 1) % TRANSFER_COUNT;
        self.pbo_index = transfer;
        let size = match checked_frame_bytes(frame.full_width, frame.full_height) {
            Some(size) => size,
            None => 0,
        };
        let ghost fw = frame.full_width as int;
        let ghost fh = frame.full_height as int;
        assert(0 <= frame.y * fw <= fh * fw) by (nonlinear_arith)
            requires
                0 <= frame.y <= fh,
                0 <= fw,
        ;
        assert(fh * fw * 4 == fw * fh * 4) by (nonlinear_arith);
        let first: u64 = frame.y as u64 * frame.full_width as u64 + frame.x as u64;
        let offset: u64 = first * 4;
        Upload {
            index,
            resize,
            transfer,
            size,
            region: frame.region(),
            full_width: frame.full_width,
            full_height: frame.full_height,
            offset,
        }
    }

    /// The size of the viewport in which the texture is drawn at the given
    /// scale factor. There is none while the texture has no size, or where
    /// the scaled size does not fit in `i32`.
    pub fn viewport(&self, scale_factor: i32) -> (size: Option<(i32, i32)>)
        ensures
            size is Some <==> {
                &&& self@.width > 0
                &&& self@.height > 0
                &&& i32::MIN <= self@.width * scale_factor <= i32::MAX
                &&& i32::MIN <= self@.height * scale_factor <= i32::MAX
            },
            size matches Some((width, height)) ==> width == self@.width * scale_factor && height
                == self@.height * scale_factor,
    {
        if self.last_width > 0 && self.last_height > 0 {
            assert(-0x4000_0000_0000_0000 <= self.last_width * scale_factor <= 0x4000_0000_0000_0000
                && -0x4000_0000_0000_0000 <= self.last_height * scale_factor
                <= 0x4000_0000_0000_0000) by (nonlinear_arith)
                requires
                    0 < self.last_width <= 0x7fff_ffff,
                    0 < self.last_height <= 0x7fff_ffff,
                    -0x8000_0000 <= scale_factor <= 0x7fff_ffff,
            ;
            let width = self.last_width as i64 * scale_factor as i64;
            let height = self.last_height as i64 * scale_factor as i64;
            if -0x8000_0000 <= width && width <= 0x7fff_ffff && -0x8000_0000 <= height && height
                <= 0x7fff_ffff {
                return Some((width as i32, height as i32));
            }
        }
        None
    }
}

impl Default for TextureStage {
    fn default() -> (stage: Self)
        ensures
            stage@ == (StageView { width: 0, height: 0, transfer: 0 }),
    {
        TextureStage::new()
    }
}

/// Writes a frame to a mapped transfer buffer: the pixels of the frame's
/// region are copied to their place, every other byte of the buffer is left
/// as it was.
pub fn write_transfer(mapped: &mut [u8], frame: &Frame)
    requires
        frame.uploadable(),
        frame_bytes(frame.full_width as int, frame.full_height as int) <= old(mapped).len(),
    ensures
        final(mapped)@ == blit(
            old(mapped)@,
            frame.bytes(),
            frame.region_of(),
            frame.full_width as int,
        ),
{
    match &frame.buffer {
        Some(buffer) => {
            copy_region(
                mapped,
                buffer.as_slice(),
                frame.region(),
                frame.full_width,
                frame.full_height,
            );
        },
        None => {},
    }
}

/// Tells whether a tick performed an upload. `mapped` tells for each upload
/// of the tick whether its transfer buffer could be mapped: an upload whose
/// buffer could not be mapped is skipped, texture update and all, and the
/// uploads behind it map for themselves.
pub fn performed(uploads: &[Upload], mapped: &[bool]) -> (any: bool)
    requires
        uploads@.len() == mapped@.len(),
    ensures
        any == exists|k: int| 0 <= k < mapped@.len() && mapped@[k],
{
    let count = mapped.len();
    let mut k: usize = 0;
    while k < count
        invariant
            k <= count,
            count == mapped@.len(),
            forall|j: int| 0 <= j < k ==> !mapped@[j],
        decreases count - k,
    {
        if mapped[k] {
            return true;
        }
        k += 1;
    }
    false
}

/// What one tick of the consumer has to do.
pub struct Tick {
    /// The frames of the drain that carry data, oldest first. They hold
    /// their buffers until the tick is dropped.
    pub frames: Vec<Frame>,
    /// The uploads, in their order.
    pub uploads: Vec<Upload>,
}

/// One tick of the consumer: drains the queue, keeps the frames that carry
/// data, and decides the uploads among them.
pub fn tick(stage: &mut TextureStage, queue: &mut FrameQueue) -> (tick: Tick)
    ensures
        final(queue)@ == Seq::<Frame>::empty(),
        tick.frames@ == carrying_data(old(queue)@),
        tick.uploads@ == planned(old(stage)@, tick.frames@, tick.frames@.len() as int).0,
        final(stage)@ == planned(old(stage)@, tick.frames@, tick.frames@.len() as int).1,
{
    let frames = queue.drain();
    let uploads = stage.plan(frames.as_slice());
    Tick { frames, uploads }
}

} // verus!
