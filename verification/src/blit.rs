//! Copying the changed part of a frame from one byte buffer to another.
//!
//! Both buffers hold a full frame, row by row, four bytes per pixel. A copy
//! touches the bytes of the pixels of one region and nothing else, so a
//! destination that held the previous frame holds the new one afterwards.

use crate::geometry::{checked_frame_bytes, frame_bytes, valid_dims, Region};
use vstd::arithmetic::div_mod::{lemma_fundamental_div_mod, lemma_fundamental_div_mod_converse};
use vstd::prelude::*;
use vstd::slice::slice_subrange;

verus! {

/// `copy_from_slice` of std on bytes: afterwards the destination holds what
/// the source holds. std panics where the two differ in length, so the
/// contract asks for equal lengths.
#[verifier::external_body]
fn copy_from_slice(dst: &mut [u8], src: &[u8])
    requires
        old(dst)@.len() == src@.len(),
    ensures
        final(dst)@ == src@,
{
    dst.copy_from_slice(src)
}

/// `dst` with the `len` bytes from `start` on replaced by those of `src` at
/// the same place.
pub open spec fn with_range(dst: Seq<u8>, src: Seq<u8>, start: int, len: int) -> Seq<u8> {
    Seq::new(dst.len(), |k: int| if start <= k < start + len { src[k] } else { dst[k] })
}

/// Byte `k` of a frame with rows of `full_width` pixels belongs to a pixel of
/// `region`.
pub open spec fn in_region(k: int, region: Region, full_width: int) -> bool {
    let stride = full_width * 4;
    stride > 0 && 0 <= k && region.contains((k % stride) / 4, k / stride)
}

/// `dst` after the pixels of `region` have been copied to it from `src`: the
/// bytes of those pixels are those of `src`, every other byte is as it was.
pub open spec fn blit(dst: Seq<u8>, src: Seq<u8>, region: Region, full_width: int) -> Seq<u8> {
    Seq::new(dst.len(), |k: int| if in_region(k, region, full_width) { src[k] } else { dst[k] })
}

/// Copies the bytes `start..start + len` of `src` to the same place in `dst`.
pub fn copy_range(dst: &mut [u8], src: &[u8], start: usize, len: usize)
    requires
        start + len <= old(dst).len(),
        start + len <= src.len(),
    ensures
        final(dst)@ == with_range(old(dst)@, src@, start as int, len as int),
{
    let (_, tail) = dst.split_at_mut(start);
    let (window, _) = tail.split_at_mut(len);
    let from = slice_subrange(src, start, start + len);
    copy_from_slice(window, from);
}

/// The bytes of the pixels `x..x + w` of row `row` are those from
/// `row * stride + x * 4` up to `row * stride + (x + w) * 4`.
proof fn lemma_row_span(k: int, stride: int, row: int, x: int, w: int)
    requires
        0 <= k,
        0 <= row,
        0 <= x,
        0 <= w,
        0 < stride,
        (x + w) * 4 <= stride,
    ensures
        (row * stride + x * 4 <= k < row * stride + (x + w) * 4) <==> (k / stride == row && x <= (k
            % stride) / 4 < x + w),
{
    lemma_fundamental_div_mod(k, stride);
    if row * stride + x * 4 <= k < row * stride + (x + w) * 4 {
        lemma_fundamental_div_mod_converse(k, stride, row, k - row * stride);
    }
    if k / stride == row {
        assert(stride * (k / stride) == row * stride) by (nonlinear_arith)
            requires
                k / stride == row,
        ;
    }
}

/// A frame's bytes are those of the pixels of its rows: byte `k` lies in a
/// row below `rows` exactly if it lies before the end of that many rows.
proof fn lemma_rows_span(k: int, stride: int, rows: int)
    requires
        0 <= k,
        0 <= rows,
        0 < stride,
    ensures
        k < rows * stride <==> k / stride < rows,
        0 <= k % stride < stride,
        0 <= k / stride,
{
    lemma_fundamental_div_mod(k, stride);
    assert(k < rows * stride <==> k / stride < rows) by (nonlinear_arith)
        requires
            k == stride * (k / stride) + (k % stride),
            0 <= k % stride < stride,
            0 < stride,
    ;
    assert(0 <= k / stride) by (nonlinear_arith)
        requires
            k == stride * (k / stride) + (k % stride),
            0 <= k % stride < stride,
            0 < stride,
            0 <= k,
    ;
}

/// The four bytes of the pixel in column `col` of row `row` stand at
/// `(row * full_width + col) * 4` and the three places behind it, and they
/// belong to `region` exactly if the pixel does.
pub proof fn lemma_pixel_bytes(col: int, row: int, channel: int, region: Region, full_width: int)
    requires
        0 <= col < full_width,
        0 <= row,
        0 <= channel < 4,
    ensures
        in_region((row * full_width + col) * 4 + channel, region, full_width) == region.contains(
            col,
            row,
        ),
{
    let stride = full_width * 4;
    let k = (row * full_width + col) * 4 + channel;
    assert(k == row * stride + (col * 4 + channel)) by (nonlinear_arith)
        requires
            k == (row * full_width + col) * 4 + channel,
            stride == full_width * 4,
    ;
    assert(0 <= row * stride) by (nonlinear_arith)
        requires
            0 <= row,
            0 <= stride,
    ;
    lemma_fundamental_div_mod_converse(k, stride, row, col * 4 + channel);
}

/// A partial update changes the pixels of its region and nothing else: every
/// byte outside the region is what the destination held before, every byte
/// inside is what the source holds.
pub proof fn lemma_blit_bytes(dst: Seq<u8>, src: Seq<u8>, region: Region, full_width: int, k: int)
    requires
        0 <= k < dst.len(),
    ensures
        blit(dst, src, region, full_width).len() == dst.len(),
        in_region(k, region, full_width) ==> blit(dst, src, region, full_width)[k] == src[k],
        !in_region(k, region, full_width) ==> blit(dst, src, region, full_width)[k] == dst[k],
{
}

/// Copies the pixels of `region` from `src` to `dst`. Both hold a frame of
/// `full_width` by `full_height`. Where the region is the whole frame the
/// bytes go in one piece, else row by row.
pub fn copy_region(dst: &mut [u8], src: &[u8], region: Region, full_width: i32, full_height: i32)
    requires
        valid_dims(full_width as int, full_height as int),
        region.within(full_width as int, full_height as int),
        frame_bytes(full_width as int, full_height as int) <= old(dst).len(),
        frame_bytes(full_width as int, full_height as int) <= src.len(),
    ensures
        final(dst)@ == blit(old(dst)@, src@, region, full_width as int),
{
    let ghost before = dst@;
    let ghost fw = full_width as int;
    let ghost fh = full_height as int;
    let size = match checked_frame_bytes(full_width, full_height) {
        Some(n) => n,
        None => 0,
    };
    if region.is_full(full_width, full_height) {
        copy_range(dst, src, 0, size);
        proof {
            assert forall|k: int| 0 <= k < before.len() implies (0 <= k < size) == in_region(
                k,
                region,
                fw,
            ) by {
                if fw > 0 {
                    lemma_rows_span(k, fw * 4, fh);
                    assert(fh * (fw * 4) == fw * fh * 4) by (nonlinear_arith);
                } else {
                    assert(fw * fh * 4 == 0) by (nonlinear_arith)
                        requires
                            fw == 0,
                    ;
                }
            }
            assert(dst@ =~= blit(before, src@, region, fw));
        }
        return ;
    }
    if region.height == 0 {
        assert(dst@ =~= blit(before, src@, region, fw));
        return ;
    }
    assert(fw * 4 <= fw * fh * 4) by (nonlinear_arith)
        requires
            0 <= fw,
            1 <= fh,
    ;
    let stride: usize = full_width as usize * 4;
    let row_bytes: usize = region.width as usize * 4;
    let left: usize = region.x as usize * 4;
    let top: usize = region.y as usize;
    let rows: usize = region.height as usize;
    let mut row: usize = 0;
    while row < rows
        invariant
            row <= rows,
            rows == region.height,
            top == region.y,
            left == region.x * 4,
            row_bytes == region.width * 4,
            stride == fw * 4,
            fw == full_width,
            fh == full_height,
            valid_dims(fw, fh),
            region.within(fw, fh),
            frame_bytes(fw, fh) <= dst.len(),
            frame_bytes(fw, fh) <= src.len(),
            dst@.len() == before.len(),
            dst@ == blit(
                before,
                src@,
                Region { x: region.x, y: region.y, width: region.width, height: row as i32 },
                fw,
            ),
        decreases rows - row,
    {
        proof {
            assert((top + row + 1) * stride <= fh * stride) by (nonlinear_arith)
                requires
                    top + row + 1 <= fh,
                    0 <= stride,
            ;
            assert(fh * stride == fw * fh * 4) by (nonlinear_arith)
                requires
                    stride == fw * 4,
            ;
            assert((top + row) * stride >= 0) by (nonlinear_arith)
                requires
                    0 <= top + row,
                    0 <= stride,
            ;
            assert((top + row + 1) * stride == (top + row) * stride + stride) by (nonlinear_arith);
        }
        let offset: usize = (top + row) * stride + left;
        copy_range(dst, src, offset, row_bytes);
        proof {
            let so_far = Region { x: region.x, y: region.y, width: region.width, height: row as i32 };
            let next = Region {
                x: region.x,
                y: region.y,
                width: region.width,
                height: (row + 1) as i32,
            };
            assert forall|k: int| 0 <= k < before.len() implies #[trigger] dst@[k] == blit(
                before,
                src@,
                next,
                fw,
            )[k] by {
                if stride > 0 {
                    lemma_row_span(
                        k,
                        stride as int,
                        top + row,
                        region.x as int,
                        region.width as int,
                    );
                    assert(in_region(k, next, fw) == (in_region(k, so_far, fw) || (offset <= k
                        < offset + row_bytes)));
                }
            }
            assert(dst@ =~= blit(before, src@, next, fw));
        }
        row += 1;
    }
    proof {
        assert(region == (Region {
            x: region.x,
            y: region.y,
            width: region.width,
            height: row as i32,
        }));
    }
}

} // verus!
